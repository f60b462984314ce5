//! The server side of a service: the trait that a handler implements, and
//! the dispatcher that feeds it from a NATS subscription.

use crate::classify::{
    borrowed_method_views, filter_methods_by_type, methods_of_type, MethodType,
};
use crate::model::{Method, MethodView, Service, ServiceView};
use crate::naming::{
    convert_method_to_function, convert_method_to_subject, function_name_of, subject_suffix_of,
};
use crate::signature::{future_of, future_type, stream_of, stream_type};
use crate::subject::{
    subject_tail, subscription_tail, tail_of, wildcard_tail, DEFAULT_SUBJECT_PREFIX, DELIMITER,
};
use crate::text::{holds, join, joined, lemma_the_middle_is_held, texts, LINE_BREAK};
use vstd::prelude::*;
use vstd::string::*;

verus! {

/// The declaration of one handler in the server trait. Between the pieces
/// stand the method's protobuf name, the function name, the request type and
/// the return type.
pub const SERVER_HANDLER: [&'static str; 5] = [
    r#"
                /// Implementation of "#,
    r#"
                fn "#,
    r#"(
                    &self,
                    _request: "#,
    r#",
                ) -> "#,
    r#" + Send;
            "#,
];

/// What a handler takes: the request, decoded. A method whose caller would
/// stream its requests is taken like any other: the dispatcher hands every
/// handler one decoded request.
pub open spec fn server_request_text(method: MethodView) -> Seq<char> {
    method.input_type
}

/// What a handler returns: a future of the response, or, for a method that
/// streams its responses, a future of a stream of them.
pub open spec fn server_return_text(method: MethodView) -> Seq<char> {
    if method.server_streaming {
        future_of(stream_of(method.output_type))
    } else {
        future_of(method.output_type)
    }
}

/// The declaration of the handler of `method` in the server trait, as the
/// function `function_name`.
pub open spec fn server_handler_text(function_name: Seq<char>, method: MethodView) -> Seq<char> {
    SERVER_HANDLER[0]@ + method.proto_name + SERVER_HANDLER[1]@ + function_name
        + SERVER_HANDLER[2]@ + server_request_text(method) + SERVER_HANDLER[3]@
        + server_return_text(method) + SERVER_HANDLER[4]@
}

/// Write what the handler of `method` takes.
pub fn server_request_type(method: &Method) -> (out: String)
    ensures
        out@ == server_request_text(method@),
{
    method.input_type.clone()
}

/// Write what the handler of `method` returns.
pub fn server_return_type(method: &Method) -> (out: String)
    ensures
        out@ == server_return_text(method@),
{
    if method.server_streaming {
        let stream = stream_type(method.output_type.as_str());
        future_type(stream.as_str())
    } else {
        future_type(method.output_type.as_str())
    }
}

/// Write the declaration of the handler of `method` in the server trait, as
/// the function `function_name`.
pub fn server_handler(function_name: &str, method: &Method) -> (out: String)
    ensures
        out@ == server_handler_text(function_name@, method@),
{
    let input_type = server_request_type(method);
    let output_type = server_return_type(method);
    let mut out = String::from_str(SERVER_HANDLER[0]);
    out.append(method.proto_name.as_str());
    out.append(SERVER_HANDLER[1]);
    out.append(function_name);
    out.append(SERVER_HANDLER[2]);
    out.append(input_type.as_str());
    out.append(SERVER_HANDLER[3]);
    out.append(output_type.as_str());
    out.append(SERVER_HANDLER[4]);
    out
}

/// The server trait of a service. Between the pieces stand the service name,
/// the default subject prefix, twice, and the declarations of its handlers.
pub const SERVER_TRAIT: [&'static str; 5] = [
    r#"
        /// This will be used to implement the handlers for the server
        pub trait "#,
    r#"Server {
            /// Get the subject prefix for this service. Defaults to
            /// ""#,
    r#"" and can be overridden with your own implementation.
            /// If the subject prefix does not include the trailing '.' character, it will be added.
            fn subject_prefix(&self) -> &'static str {
                ""#,
    r#""
            }
            "#,
    r#"
        }
        "#,
];

/// The declarations of the handlers of `methods`, one for one, each under
/// the function name of its method.
pub open spec fn server_handler_texts(methods: Seq<MethodView>) -> Seq<Seq<char>> {
    Seq::new(
        methods.len(),
        |i: int| server_handler_text(function_name_of(methods[i].name), methods[i]),
    )
}

/// The server trait of `service`: the subject prefix, with
/// [`DEFAULT_SUBJECT_PREFIX`] as its default, and one handler for each call
/// of the service, in the order of its methods. A notification gets no
/// handler.
pub open spec fn server_handlers_trait_text(service: ServiceView) -> Seq<char> {
    let handlers = joined(
        server_handler_texts(methods_of_type(service.methods, MethodType::RequestResponse)),
        LINE_BREAK@,
    );
    SERVER_TRAIT[0]@ + service.name + SERVER_TRAIT[1]@ + DEFAULT_SUBJECT_PREFIX@
        + SERVER_TRAIT[2]@ + DEFAULT_SUBJECT_PREFIX@ + SERVER_TRAIT[3]@ + handlers
        + SERVER_TRAIT[4]@
}

/// Generate the trait for the handlers of a [`Service`].
pub fn get_server_handlers_trait(service: &Service) -> (out: String)
    ensures
        out@ == server_handlers_trait_text(service@),
{
    let reply_methods = filter_methods_by_type(
        service.methods.as_slice(),
        MethodType::RequestResponse,
    );
    let ghost calls = borrowed_method_views(reply_methods@);
    let mut handlers: Vec<String> = Vec::new();
    let mut i: usize = 0;
    while i < reply_methods.len()
        invariant
            i <= reply_methods.len(),
            calls == borrowed_method_views(reply_methods@),
            handlers.len() == i,
            forall|k: int|
                0 <= k < i ==> (#[trigger] handlers[k])@ == server_handler_text(
                    function_name_of(calls[k].name),
                    calls[k],
                ),
        decreases reply_methods.len() - i,
    {
        let method = reply_methods[i];
        let function_name = convert_method_to_function(method.name.as_str());
        handlers.push(server_handler(function_name.as_str(), method));
        i += 1;
    }
    assert(texts(handlers@) =~= server_handler_texts(calls));
    let function_handlers = join(&handlers, LINE_BREAK);
    let mut out = String::from_str(SERVER_TRAIT[0]);
    out.append(service.name.as_str());
    out.append(SERVER_TRAIT[1]);
    out.append(DEFAULT_SUBJECT_PREFIX);
    out.append(SERVER_TRAIT[2]);
    out.append(DEFAULT_SUBJECT_PREFIX);
    out.append(SERVER_TRAIT[3]);
    out.append(function_handlers.as_str());
    out.append(SERVER_TRAIT[4]);
    out
}

/// The dispatcher's arm for a method that streams its responses. Between the
/// pieces stand the tail of the subject, the request type twice, the function
/// name and the request type.
pub const STREAMING_ARM: [&'static str; 6] = [
    r#"
                    Some(""#,
    r#"") => {
                        let request = "#,
    r#"::decode(message.payload)
                            .context("failed to decode message payload as "#,
    r#"")?;
                        let replies = server
                            ."#,
    r#"(request)
                            .await
                            .context("failed to handle "#,
    r#" request")?;
                        ::futures::pin_mut!(replies);
                        if let Some(reply_to) = message.reply {
                            while let Some(reply) = replies.next().await {
                                let mut buf = ::bytes::BytesMut::with_capacity(reply.encoded_len());
                                reply
                                    .encode(&mut buf)
                                    .expect("to encode without reaching capacity");
                                client
                                    .publish(reply_to.clone(), buf.into())
                                    .await
                                    .context("failed to publish reply")?;
                            }
                        } else {
                            eprintln!("No reply subject found in message");
                        }
                    },
                "#,
];

/// The dispatcher's arm for a method with one response. Between the pieces
/// stand the tail of the subject, the request type twice, the function name
/// and the request type.
pub const UNARY_ARM: [&'static str; 6] = [
    r#"
                    Some(""#,
    r#"") => {
                        let request = "#,
    r#"::decode(message.payload)
                            .context("failed to decode message payload as "#,
    r#"")?;
                        let reply = server
                            ."#,
    r#"(request)
                            .await
                            .context("failed to handle "#,
    r#" request")?;
                        if let Some(reply_to) = message.reply {
                            let mut buf = ::bytes::BytesMut::with_capacity(reply.encoded_len());
                            reply
                                .encode(&mut buf)
                                .expect("to encode without reaching capacity");
                            client
                                .publish(reply_to, buf.into())
                                .await
                                .context("failed to publish reply")?;
                        } else {
                            eprintln!("No reply subject found in message");
                        }
                    },
                "#,
];

/// The dispatcher's arm for a method that streams its responses: it takes a
/// message whose subject, without the dispatcher's prefix, is [`tail_of`]
/// `function_subject`, decodes the request, calls the handler
/// `function_name`, and publishes each response to the message's reply
/// address, where it has one.
pub open spec fn streaming_arm_text(
    function_name: Seq<char>,
    function_subject: Seq<char>,
    method: MethodView,
) -> Seq<char> {
    STREAMING_ARM[0]@ + tail_of(function_subject) + STREAMING_ARM[1]@ + method.input_type
        + STREAMING_ARM[2]@ + method.input_type + STREAMING_ARM[3]@ + function_name
        + STREAMING_ARM[4]@ + method.input_type + STREAMING_ARM[5]@
}

/// The dispatcher's arm for a method with one response: it takes a message
/// whose subject, without the dispatcher's prefix, is [`tail_of`]
/// `function_subject`, decodes the request, calls the handler
/// `function_name`, and publishes the response to the message's reply
/// address, where it has one.
pub open spec fn unary_arm_text(
    function_name: Seq<char>,
    function_subject: Seq<char>,
    method: MethodView,
) -> Seq<char> {
    UNARY_ARM[0]@ + tail_of(function_subject) + UNARY_ARM[1]@ + method.input_type
        + UNARY_ARM[2]@ + method.input_type + UNARY_ARM[3]@ + function_name + UNARY_ARM[4]@
        + method.input_type + UNARY_ARM[5]@
}

/// The dispatcher's arm for `method`, in the form that its responses ask for.
pub open spec fn server_arm_text(
    function_name: Seq<char>,
    function_subject: Seq<char>,
    method: MethodView,
) -> Seq<char> {
    if method.server_streaming {
        streaming_arm_text(function_name, function_subject, method)
    } else {
        unary_arm_text(function_name, function_subject, method)
    }
}

/// Write the dispatcher's arm for `method`, which answers on the subject
/// suffix `function_subject` by calling the handler `function_name`.
pub fn server_arm(function_name: &str, function_subject: &str, method: &Method) -> (out: String)
    ensures
        out@ == server_arm_text(function_name@, function_subject@, method@),
{
    let input_type = method.input_type.as_str();
    let tail = subject_tail(function_subject);
    if method.server_streaming {
        let mut out = String::from_str(STREAMING_ARM[0]);
        out.append(tail.as_str());
        out.append(STREAMING_ARM[1]);
        out.append(input_type);
        out.append(STREAMING_ARM[2]);
        out.append(input_type);
        out.append(STREAMING_ARM[3]);
        out.append(function_name);
        out.append(STREAMING_ARM[4]);
        out.append(input_type);
        out.append(STREAMING_ARM[5]);
        out
    } else {
        let mut out = String::from_str(UNARY_ARM[0]);
        out.append(tail.as_str());
        out.append(UNARY_ARM[1]);
        out.append(input_type);
        out.append(UNARY_ARM[2]);
        out.append(input_type);
        out.append(UNARY_ARM[3]);
        out.append(function_name);
        out.append(UNARY_ARM[4]);
        out.append(input_type);
        out.append(UNARY_ARM[5]);
        out
    }
}

/// The dispatcher of a service. Between the pieces stand the service name,
/// the delimiter, the tail of a subscription, the service name and the arms
/// of its methods.
pub const START_SERVER: [&'static str; 6] = [
    r#"
        // TODO: Consider this as a trait implementation for types that implement the Server trait
        #[allow(dead_code)]
        pub async fn start_server<S>(
            server: S,
            client: async_nats::Client,
        ) -> ::anyhow::Result<impl ::futures::Future<Output = ::anyhow::Result<()>>>
        where
            S: "#,
    r#"Server + Send + 'static,
        {
            let subject_prefix = server.subject_prefix().trim_end_matches('"#,
    r#"');
            let mut subscription = client
                .subscribe(format!("{subject_prefix}"#,
    r#""))
                .await
                .context("failed to subscribe for "#,
    r#" messages")?;
            Ok(async move {
                while let Some(message) = subscription.next().await {
                    match message.subject.as_str().strip_prefix(&subject_prefix) {
                        "#,
    r#"
                        _ => {
                            eprintln!("received message on unknown subject: {}", message.subject);
                        }
                    }
                }
                Ok(())
            })
        }
        "#,
];

/// The dispatcher's arms for `methods`, one for one, each on the subject
/// suffix and with the function name of its method.
pub open spec fn server_arm_texts(methods: Seq<MethodView>) -> Seq<Seq<char>> {
    Seq::new(
        methods.len(),
        |i: int|
            server_arm_text(
                function_name_of(methods[i].name),
                subject_suffix_of(methods[i].name),
                methods[i],
            ),
    )
}

/// The dispatcher of `service`: a function that trims the server's prefix of
/// the delimiter, subscribes to the prefix and the [`wildcard_tail`], and
/// hands each message to the arm of its subject, with one arm for each call
/// of the service, in the order of its methods, and a last arm that reports a
/// subject that no method has. A notification gets no arm.
pub open spec fn server_nats_implementation_text(service: ServiceView) -> Seq<char> {
    let arms = joined(
        server_arm_texts(methods_of_type(service.methods, MethodType::RequestResponse)),
        LINE_BREAK@,
    );
    START_SERVER[0]@ + service.name + START_SERVER[1]@ + DELIMITER@ + START_SERVER[2]@
        + wildcard_tail() + START_SERVER[3]@ + service.name + START_SERVER[4]@ + arms
        + START_SERVER[5]@
}

/// Create NATS subscriptions for the server trait of a [`Service`].
pub fn get_server_nats_implementation(service: &Service) -> (out: String)
    ensures
        out@ == server_nats_implementation_text(service@),
{
    let name = service.name.as_str();
    let reply_methods = filter_methods_by_type(
        service.methods.as_slice(),
        MethodType::RequestResponse,
    );
    let ghost calls = borrowed_method_views(reply_methods@);
    let mut arms: Vec<String> = Vec::new();
    let mut i: usize = 0;
    while i < reply_methods.len()
        invariant
            i <= reply_methods.len(),
            calls == borrowed_method_views(reply_methods@),
            arms.len() == i,
            forall|k: int|
                0 <= k < i ==> (#[trigger] arms[k])@ == server_arm_text(
                    function_name_of(calls[k].name),
                    subject_suffix_of(calls[k].name),
                    calls[k],
                ),
        decreases reply_methods.len() - i,
    {
        let method = reply_methods[i];
        let function_subject = convert_method_to_subject(method.name.as_str());
        let function_name = convert_method_to_function(method.name.as_str());
        arms.push(server_arm(function_name.as_str(), function_subject.as_str(), method));
        i += 1;
    }
    assert(texts(arms@) =~= server_arm_texts(calls));
    let matchy = join(&arms, LINE_BREAK);
    let wildcard = subscription_tail();
    let mut out = String::from_str(START_SERVER[0]);
    out.append(name);
    out.append(START_SERVER[1]);
    out.append(DELIMITER);
    out.append(START_SERVER[2]);
    out.append(wildcard.as_str());
    out.append(START_SERVER[3]);
    out.append(name);
    out.append(START_SERVER[4]);
    out.append(matchy.as_str());
    out.append(START_SERVER[5]);
    out
}

/// What the server's code knows of subjects, it has from the rules of
/// [`subject`](crate::subject): the default prefix of its trait is
/// [`DEFAULT_SUBJECT_PREFIX`], its dispatcher subscribes to the
/// [`wildcard_tail`] behind its prefix, and the arm of a call matches the
/// tail of the call's subject suffix.
pub proof fn lemma_the_server_takes_its_subjects_from_the_rules(
    service: ServiceView,
    function_name: Seq<char>,
    function_subject: Seq<char>,
    method: MethodView,
)
    ensures
        holds(server_handlers_trait_text(service), DEFAULT_SUBJECT_PREFIX@),
        holds(server_nats_implementation_text(service), wildcard_tail()),
        holds(server_arm_text(function_name, function_subject, method), tail_of(function_subject)),
{
    let name = service.name;
    let calls = methods_of_type(service.methods, MethodType::RequestResponse);
    let handlers = joined(server_handler_texts(calls), LINE_BREAK@);
    let before = SERVER_TRAIT[0]@ + name + SERVER_TRAIT[1]@ + DEFAULT_SUBJECT_PREFIX@
        + SERVER_TRAIT[2]@;
    let after = SERVER_TRAIT[3]@ + handlers + SERVER_TRAIT[4]@;
    assert(server_handlers_trait_text(service) =~= before + DEFAULT_SUBJECT_PREFIX@ + after);
    lemma_the_middle_is_held(before, DEFAULT_SUBJECT_PREFIX@, after);

    let arms = joined(server_arm_texts(calls), LINE_BREAK@);
    let before = START_SERVER[0]@ + name + START_SERVER[1]@ + DELIMITER@ + START_SERVER[2]@;
    let after = START_SERVER[3]@ + name + START_SERVER[4]@ + arms + START_SERVER[5]@;
    assert(server_nats_implementation_text(service) =~= before + wildcard_tail() + after);
    lemma_the_middle_is_held(before, wildcard_tail(), after);

    let tail = tail_of(function_subject);
    if method.server_streaming {
        let after = STREAMING_ARM[1]@ + method.input_type + STREAMING_ARM[2]@ + method.input_type
            + STREAMING_ARM[3]@ + function_name + STREAMING_ARM[4]@ + method.input_type
            + STREAMING_ARM[5]@;
        assert(streaming_arm_text(function_name, function_subject, method) =~= STREAMING_ARM[0]@
            + tail + after);
        lemma_the_middle_is_held(STREAMING_ARM[0]@, tail, after);
    } else {
        let after = UNARY_ARM[1]@ + method.input_type + UNARY_ARM[2]@ + method.input_type
            + UNARY_ARM[3]@ + function_name + UNARY_ARM[4]@ + method.input_type + UNARY_ARM[5]@;
        assert(unary_arm_text(function_name, function_subject, method) =~= UNARY_ARM[0]@ + tail
            + after);
        lemma_the_middle_is_held(UNARY_ARM[0]@, tail, after);
    }
}

} // verus!

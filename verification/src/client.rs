//! The client side of a service: the trait that callers use, and its
//! implementation on a NATS client.

use crate::classify::{
    borrowed_method_views, filter_methods_by_type, methods_of_type, MethodType,
};
use crate::dispatch::ErrorKind;
use crate::model::{Method, MethodView, Service, ServiceView};
use crate::naming::{
    convert_method_to_function, convert_method_to_subject, function_name_of, subject_suffix_of,
};
use crate::signature::{future_of, future_type, pinned, pinned_type, stream_of, stream_type};
use crate::subject::{subject_tail, tail_of, DEFAULT_SUBJECT_PREFIX, DELIMITER};
use crate::text::{holds, join, joined, lemma_the_middle_is_held, texts, LINE_BREAK};
use vstd::prelude::*;
use vstd::string::*;

verus! {

/// The declaration of one call in the client trait. Between the pieces stand
/// the request type, the return type, the function name, the request type and
/// the return type.
pub const CLIENT_HANDLER: [&'static str; 6] = [
    r#"
                /// Send request ["#,
    r#"], receiving the decoded ["#,
    r#"]
                #[allow(dead_code)]
                fn "#,
    r#"(
                    &self,
                    _request: "#,
    r#",
                ) -> "#,
    r#" + Send;
            "#,
];

/// What a call on the client returns: a future of the response, or, for a
/// method that streams its responses, a future of a pinned stream of them.
pub open spec fn client_return_text(method: MethodView) -> Seq<char> {
    if method.server_streaming {
        future_of(pinned(stream_of(method.output_type)))
    } else {
        future_of(method.output_type)
    }
}

/// The declaration of `method` in the client trait, as the function
/// `function_name`.
pub open spec fn client_handler_text(function_name: Seq<char>, method: MethodView) -> Seq<char> {
    CLIENT_HANDLER[0]@ + method.input_type + CLIENT_HANDLER[1]@ + client_return_text(method)
        + CLIENT_HANDLER[2]@ + function_name + CLIENT_HANDLER[3]@ + method.input_type
        + CLIENT_HANDLER[4]@ + client_return_text(method) + CLIENT_HANDLER[5]@
}

/// Write what a call of `method` on the client returns.
pub fn client_return_type(method: &Method) -> (out: String)
    ensures
        out@ == client_return_text(method@),
{
    if method.server_streaming {
        let stream = stream_type(method.output_type.as_str());
        let boxed = pinned_type(stream.as_str());
        future_type(boxed.as_str())
    } else {
        future_type(method.output_type.as_str())
    }
}

/// Write the declaration of `method` in the client trait, as the function
/// `function_name`.
pub fn client_handler(function_name: &str, method: &Method) -> (out: String)
    ensures
        out@ == client_handler_text(function_name@, method@),
{
    let returned = client_return_type(method);
    let mut out = String::from_str(CLIENT_HANDLER[0]);
    out.append(method.input_type.as_str());
    out.append(CLIENT_HANDLER[1]);
    out.append(returned.as_str());
    out.append(CLIENT_HANDLER[2]);
    out.append(function_name);
    out.append(CLIENT_HANDLER[3]);
    out.append(method.input_type.as_str());
    out.append(CLIENT_HANDLER[4]);
    out.append(returned.as_str());
    out.append(CLIENT_HANDLER[5]);
    out
}

/// The two client traits of a service. Between the pieces stand the service
/// name, the default subject prefix, the service name twice, the default
/// prefix again, the service name, and the declarations of its calls.
pub const CLIENT_TRAIT: [&'static str; 8] = [
    r#"
        pub trait "#,
    r#"ClientPrefix {
            /// Get the subject prefix for this service. Defaults to
            /// ""#,
    r#"" and can be overridden with your own implementation.
            /// 
            /// # Usage
            /// For the default prefix, enable the `auto_subject_feature` or implement the trait as:
            /// ```rust
            /// impl "#,
    r#"ClientPrefix for async_nats::Client {}
            /// ```
            /// 
            /// To use your own prefix, implement this trait for your client:
            /// ```rust
            /// impl "#,
    r#"ClientPrefix for async_nats::Client {
            ///     fn subject_prefix(&self) -> &'static str {
            ///        "my.prefix"
            ///     }
            /// }
            /// ```
            fn subject_prefix(&self) -> &'static str {
                ""#,
    r#""
            }
        }
        /// This will be used to implement the handlers for the client
        pub trait "#,
    r#"Client {
            "#,
    r#"
        }
        "#,
];

/// The declarations of `methods` in the client trait, one for one, each
/// under the function name of its method.
pub open spec fn client_handler_texts(methods: Seq<MethodView>) -> Seq<Seq<char>> {
    Seq::new(
        methods.len(),
        |i: int| client_handler_text(function_name_of(methods[i].name), methods[i]),
    )
}

/// The client traits of `service`: the trait that gives the subject prefix,
/// with [`DEFAULT_SUBJECT_PREFIX`] as its default, and the trait with one
/// declaration for each call of the service, in the order of its methods. A
/// notification gets no declaration.
pub open spec fn client_handlers_trait_text(service: ServiceView) -> Seq<char> {
    let handlers = joined(
        client_handler_texts(methods_of_type(service.methods, MethodType::RequestResponse)),
        LINE_BREAK@,
    );
    CLIENT_TRAIT[0]@ + service.name + CLIENT_TRAIT[1]@ + DEFAULT_SUBJECT_PREFIX@
        + CLIENT_TRAIT[2]@ + service.name + CLIENT_TRAIT[3]@ + service.name + CLIENT_TRAIT[4]@
        + DEFAULT_SUBJECT_PREFIX@ + CLIENT_TRAIT[5]@ + service.name + CLIENT_TRAIT[6]@
        + handlers + CLIENT_TRAIT[7]@
}

/// Generate function handlers for client implementations of a [`Service`].
pub fn get_client_handlers_trait(service: &Service) -> (out: String)
    ensures
        out@ == client_handlers_trait_text(service@),
{
    let name = service.name.as_str();
    let reply_methods = filter_methods_by_type(
        service.methods.as_slice(),
        MethodType::RequestResponse,
    );
    let ghost calls = borrowed_method_views(reply_methods@);
    let mut handlers: Vec<String> = Vec::new();
    let mut i: usize = 0;
    while i < reply_methods.len()
        invariant
            i <= reply_methods.len(),
            calls == borrowed_method_views(reply_methods@),
            handlers.len() == i,
            forall|k: int|
                0 <= k < i ==> (#[trigger] handlers[k])@ == client_handler_text(
                    function_name_of(calls[k].name),
                    calls[k],
                ),
        decreases reply_methods.len() - i,
    {
        let method = reply_methods[i];
        let function_name = convert_method_to_function(method.name.as_str());
        handlers.push(client_handler(function_name.as_str(), method));
        i += 1;
    }
    assert(texts(handlers@) =~= client_handler_texts(calls));
    let function_handlers = join(&handlers, LINE_BREAK);
    let mut out = String::from_str(CLIENT_TRAIT[0]);
    out.append(name);
    out.append(CLIENT_TRAIT[1]);
    out.append(DEFAULT_SUBJECT_PREFIX);
    out.append(CLIENT_TRAIT[2]);
    out.append(name);
    out.append(CLIENT_TRAIT[3]);
    out.append(name);
    out.append(CLIENT_TRAIT[4]);
    out.append(DEFAULT_SUBJECT_PREFIX);
    out.append(CLIENT_TRAIT[5]);
    out.append(name);
    out.append(CLIENT_TRAIT[6]);
    out.append(function_handlers.as_str());
    out.append(CLIENT_TRAIT[7]);
    out
}

/// A step of a call with one response on which the call may fail.
#[derive(Clone, Copy, Debug, PartialEq, Eq, Structural)]
pub enum CallStep {
    /// Encoding the request.
    Encode,
    /// Sending the request over the bus and waiting for the reply.
    Transport,
    /// Decoding the reply.
    Decode,
}

/// What an encode failure says it failed to do.
pub const ENCODE_STEP: &'static str = "encode request";

/// What a transport failure says it failed to do.
pub const TRANSPORT_STEP: &'static str = "send NATS request";

/// What a decode failure says it failed to do.
pub const DECODE_STEP: &'static str = "decode reply";

/// What stands before the step and before the function name in the tag of a
/// failure.
pub const FAILURE_TAG: [&'static str; 2] = ["failed to ", " for "];

impl CallStep {
    /// What a failure on this step says it failed to do.
    pub open spec fn text(self) -> Seq<char> {
        match self {
            CallStep::Encode => ENCODE_STEP@,
            CallStep::Transport => TRANSPORT_STEP@,
            CallStep::Decode => DECODE_STEP@,
        }
    }

    /// The kind of failure that this step ends in.
    pub open spec fn failure(self) -> ErrorKind {
        match self {
            CallStep::Encode => ErrorKind::EncodeFailure,
            CallStep::Transport => ErrorKind::TransportFailure,
            CallStep::Decode => ErrorKind::DecodeFailure,
        }
    }

    /// What a failure on this step says it failed to do.
    pub fn name(&self) -> (out: &'static str)
        ensures
            out@ == self.text(),
    {
        match self {
            CallStep::Encode => ENCODE_STEP,
            CallStep::Transport => TRANSPORT_STEP,
            CallStep::Decode => DECODE_STEP,
        }
    }

    /// The kind of failure that this step ends in.
    pub fn kind(&self) -> (out: ErrorKind)
        ensures
            out == self.failure(),
    {
        match self {
            CallStep::Encode => ErrorKind::EncodeFailure,
            CallStep::Transport => ErrorKind::TransportFailure,
            CallStep::Decode => ErrorKind::DecodeFailure,
        }
    }
}

/// The tag that a call of `function_name` puts on a failure of `step`: it
/// names the step and the function.
pub open spec fn failure_tag(step: CallStep, function_name: Seq<char>) -> Seq<char> {
    FAILURE_TAG[0]@ + step.text() + FAILURE_TAG[1]@ + function_name
}

/// Write the tag that a call of `function_name` puts on a failure of `step`.
pub fn failure_context(step: CallStep, function_name: &str) -> (out: String)
    ensures
        out@ == failure_tag(step, function_name@),
{
    let mut out = String::from_str(FAILURE_TAG[0]);
    out.append(step.name());
    out.append(FAILURE_TAG[1]);
    out.append(function_name);
    out
}

/// The tag of a failure tells which step failed and in which function: it
/// ends in the function's name, and the tags of two steps of one function
/// differ.
pub proof fn lemma_a_failure_names_its_step_and_its_function(
    step: CallStep,
    other: CallStep,
    function_name: Seq<char>,
)
    ensures
        function_name.is_suffix_of(failure_tag(step, function_name)),
        step.text().is_prefix_of(failure_tag(step, function_name).skip(FAILURE_TAG[0]@.len() as int)),
        step != other ==> failure_tag(step, function_name) != failure_tag(other, function_name),
{
    reveal_strlit("failed to ");
    reveal_strlit(" for ");
    reveal_strlit("encode request");
    reveal_strlit("send NATS request");
    reveal_strlit("decode reply");
    let tag = failure_tag(step, function_name);
    let rest = tag.skip(FAILURE_TAG[0]@.len() as int);
    assert(function_name =~= tag.subrange(tag.len() - function_name.len(), tag.len() as int));
    assert(step.text() =~= rest.subrange(0, step.text().len() as int));
    if step != other {
        assert(tag[10] == step.text()[0]);
        assert(failure_tag(other, function_name)[10] == other.text()[0]);
    }
}

/// The client function of a method that streams its responses. Between the
/// pieces stand the request type, the response type, the function name, the
/// request type, the response type, the request type, the tail of the
/// subject, the delimiter and the response type.
pub const STREAMING_CALL: [&'static str; 10] = [
    r#"
                    /// Send request ["#,
    r#"], decode response as a stream of ["#,
    r#"]
                    async fn "#,
    r#"(
                        &self,
                        request: "#,
    r#",
                    ) -> ::anyhow::Result<::std::pin::Pin<::std::boxed::Box<impl ::futures::Stream<Item = "#,
    r#">>>> {
                        let mut buf = ::bytes::BytesMut::with_capacity(request.encoded_len());
                        request
                            .encode(&mut buf)
                            .context("failed to encode "#,
    r#"")?;
                        let inbox = self.new_inbox();
                        let sub = self.subscribe(inbox.clone()).await?;
                        self
                            .publish_with_reply(format!("{}"#,
    r#"", self.subject_prefix().trim_end_matches('"#,
    r#"')), inbox, buf.into())
                            .await?;
                        // TODO: provide error logging for failed decodes
                        let sub = sub.filter_map(|msg| async { "#,
    r#"::decode(msg.payload).ok() });

                        Ok(Box::pin(sub))
                    }
                "#,
];

/// The client function of a method with one response. Between the pieces
/// stand the request type, the response type, the function name, the request
/// type, the response type, the tag of an encode failure, the tail of the
/// subject, the delimiter, the tag of a transport failure, the response type
/// and the tag of a decode failure.
pub const UNARY_CALL: [&'static str; 12] = [
    r#"
                    /// Send request ["#,
    r#"], decode response as ["#,
    r#"]
                    async fn "#,
    r#"(
                        &self,
                        request: "#,
    r#",
                    ) -> anyhow::Result<"#,
    r#"> {
                        let mut buf = ::bytes::BytesMut::with_capacity(request.encoded_len());
                        request
                            .encode(&mut buf)
                            .context(""#,
    r#"")?;
                        let reply = self
                            .request(format!("{}"#,
    r#"", self.subject_prefix().trim_end_matches('"#,
    r#"')), buf.into())
                            .await
                            .context(""#,
    r#"")?;
                        // TODO: more error handling on response message
                        "#,
    r#"::decode(reply.payload).context(""#,
    r#"")
                    }
                "#,
];

/// The client function `function_name` of a method that streams its
/// responses, called on the subject suffix `function_subject`. The function
/// subscribes to a fresh inbox, publishes the encoded request with the inbox
/// as the reply address, and hands back what arrives there and decodes. The
/// subject it publishes on is its prefix, trimmed of the delimiter, and
/// [`tail_of`] the suffix.
pub open spec fn streaming_call_text(
    function_name: Seq<char>,
    function_subject: Seq<char>,
    method: MethodView,
) -> Seq<char> {
    STREAMING_CALL[0]@ + method.input_type + STREAMING_CALL[1]@ + method.output_type
        + STREAMING_CALL[2]@ + function_name + STREAMING_CALL[3]@ + method.input_type
        + STREAMING_CALL[4]@ + method.output_type + STREAMING_CALL[5]@ + method.input_type
        + STREAMING_CALL[6]@ + tail_of(function_subject) + STREAMING_CALL[7]@ + DELIMITER@
        + STREAMING_CALL[8]@ + method.output_type + STREAMING_CALL[9]@
}

/// The client function `function_name` of a method with one response, called
/// on the subject suffix `function_subject`. The function encodes the
/// request, sends it and decodes the one reply; the first of the three steps
/// that fails ends the call with an error under the [`failure_tag`] of that
/// step and of the function. The subject it sends on is its prefix, trimmed
/// of the delimiter, and [`tail_of`] the suffix.
pub open spec fn unary_call_text(
    function_name: Seq<char>,
    function_subject: Seq<char>,
    method: MethodView,
) -> Seq<char> {
    UNARY_CALL[0]@ + method.input_type + UNARY_CALL[1]@ + method.output_type + UNARY_CALL[2]@
        + function_name + UNARY_CALL[3]@ + method.input_type + UNARY_CALL[4]@
        + method.output_type + UNARY_CALL[5]@ + failure_tag(CallStep::Encode, function_name)
        + UNARY_CALL[6]@ + tail_of(function_subject) + UNARY_CALL[7]@ + DELIMITER@
        + UNARY_CALL[8]@ + failure_tag(CallStep::Transport, function_name) + UNARY_CALL[9]@
        + method.output_type + UNARY_CALL[10]@ + failure_tag(CallStep::Decode, function_name)
        + UNARY_CALL[11]@
}

/// The client function of `method`, in the form that its responses ask for.
pub open spec fn client_call_text(
    function_name: Seq<char>,
    function_subject: Seq<char>,
    method: MethodView,
) -> Seq<char> {
    if method.server_streaming {
        streaming_call_text(function_name, function_subject, method)
    } else {
        unary_call_text(function_name, function_subject, method)
    }
}

/// Write the client function `function_name` of `method`, called on the
/// subject suffix `function_subject`.
pub fn client_call(function_name: &str, function_subject: &str, method: &Method) -> (out: String)
    ensures
        out@ == client_call_text(function_name@, function_subject@, method@),
{
    let input_type = method.input_type.as_str();
    let output_type = method.output_type.as_str();
    let tail = subject_tail(function_subject);
    if method.server_streaming {
        let mut out = String::from_str(STREAMING_CALL[0]);
        out.append(input_type);
        out.append(STREAMING_CALL[1]);
        out.append(output_type);
        out.append(STREAMING_CALL[2]);
        out.append(function_name);
        out.append(STREAMING_CALL[3]);
        out.append(input_type);
        out.append(STREAMING_CALL[4]);
        out.append(output_type);
        out.append(STREAMING_CALL[5]);
        out.append(input_type);
        out.append(STREAMING_CALL[6]);
        out.append(tail.as_str());
        out.append(STREAMING_CALL[7]);
        out.append(DELIMITER);
        out.append(STREAMING_CALL[8]);
        out.append(output_type);
        out.append(STREAMING_CALL[9]);
        out
    } else {
        let encode_failure = failure_context(CallStep::Encode, function_name);
        let transport_failure = failure_context(CallStep::Transport, function_name);
        let decode_failure = failure_context(CallStep::Decode, function_name);
        let mut out = String::from_str(UNARY_CALL[0]);
        out.append(input_type);
        out.append(UNARY_CALL[1]);
        out.append(output_type);
        out.append(UNARY_CALL[2]);
        out.append(function_name);
        out.append(UNARY_CALL[3]);
        out.append(input_type);
        out.append(UNARY_CALL[4]);
        out.append(output_type);
        out.append(UNARY_CALL[5]);
        out.append(encode_failure.as_str());
        out.append(UNARY_CALL[6]);
        out.append(tail.as_str());
        out.append(UNARY_CALL[7]);
        out.append(DELIMITER);
        out.append(UNARY_CALL[8]);
        out.append(transport_failure.as_str());
        out.append(UNARY_CALL[9]);
        out.append(output_type);
        out.append(UNARY_CALL[10]);
        out.append(decode_failure.as_str());
        out.append(UNARY_CALL[11]);
        out
    }
}

/// The implementation of the prefix trait with its default prefix. The
/// service name stands between the pieces.
pub const CLIENT_PREFIX_IMPL: [&'static str; 2] = [
    "impl ",
    "ClientPrefix for ::async_nats::Client {}",
];

/// The implementation of the client trait on a NATS client. Between the
/// pieces stand the service name, four times, the implementation of the
/// prefix trait or nothing, the service name twice more, and the client
/// functions.
pub const CLIENT_IMPL: [&'static str; 9] = [
    r#"
        /// Implement the "#,
    r#"Client trait for the async_nats::Client
        /// 
        /// # Usage
        /// ```ignore
        /// use generated::{RequestType, ResponseType, "#,
    r#"ClientPrefix};
        /// /// Define your subject prefix or use the default. The "#,
    r#"Client trait is already
        /// /// implemented for the async_nats::Client, so you can use it directly.
        /// impl "#,
    r#"ClientPrefix for async_nats::Client {}
        /// async fn main() -> anyhow::Result<()> {
        ///    let client = async_nats::connect("nats://127.0.0.1:4222").await.expect("to connect");
        ///    let request = RequestType::default();
        ///    let response: ResponseType = client.function_name(request).await.expect("to send request");
        ///    Ok(())
        /// }
        /// 
        /// ```
        "#,
    r#"
        impl "#,
    r#"Client for ::async_nats::Client where ::async_nats::Client: "#,
    r#"ClientPrefix {
            "#,
    r#"
        }
        "#,
];

/// The implementation of the prefix trait for the service `name`; nothing
/// unless `auto_subject_prefix` asks for it.
pub open spec fn client_prefix_impl_text(name: Seq<char>, auto_subject_prefix: bool) -> Seq<char> {
    if auto_subject_prefix {
        CLIENT_PREFIX_IMPL[0]@ + name + CLIENT_PREFIX_IMPL[1]@
    } else {
        Seq::empty()
    }
}

/// The client functions of `methods`, one for one, each under the function
/// name and on the subject suffix of its method.
pub open spec fn client_call_texts(methods: Seq<MethodView>) -> Seq<Seq<char>> {
    Seq::new(
        methods.len(),
        |i: int|
            client_call_text(
                function_name_of(methods[i].name),
                subject_suffix_of(methods[i].name),
                methods[i],
            ),
    )
}

/// The implementation of the client trait of `service` on a NATS client: one
/// function for each call of the service, in the order of its methods, and
/// before them the implementation of the prefix trait where
/// `auto_subject_prefix` asks for it. A notification gets no function.
pub open spec fn client_nats_implementation_text(
    service: ServiceView,
    auto_subject_prefix: bool,
) -> Seq<char> {
    CLIENT_IMPL[0]@ + service.name + CLIENT_IMPL[1]@ + service.name + CLIENT_IMPL[2]@
        + service.name + CLIENT_IMPL[3]@ + service.name + CLIENT_IMPL[4]@
        + client_prefix_impl_text(service.name, auto_subject_prefix) + CLIENT_IMPL[5]@
        + service.name + CLIENT_IMPL[6]@ + service.name + CLIENT_IMPL[7]@ + joined(
        client_call_texts(methods_of_type(service.methods, MethodType::RequestResponse)),
        LINE_BREAK@,
    ) + CLIENT_IMPL[8]@
}

/// Write the implementation of the prefix trait for the service `name`, or
/// nothing.
pub fn client_prefix_impl(name: &str, auto_subject_prefix: bool) -> (out: String)
    ensures
        out@ == client_prefix_impl_text(name@, auto_subject_prefix),
{
    if auto_subject_prefix {
        let mut out = String::from_str(CLIENT_PREFIX_IMPL[0]);
        out.append(name);
        out.append(CLIENT_PREFIX_IMPL[1]);
        out
    } else {
        String::new()
    }
}

/// Implement the client trait of a [`Service`] for a NATS client.
pub fn get_client_nats_implementation(service: &Service, auto_subject_prefix: bool) -> (out: String)
    ensures
        out@ == client_nats_implementation_text(service@, auto_subject_prefix),
{
    let name = service.name.as_str();
    let reply_methods = filter_methods_by_type(
        service.methods.as_slice(),
        MethodType::RequestResponse,
    );
    let ghost calls = borrowed_method_views(reply_methods@);
    let mut functions: Vec<String> = Vec::new();
    let mut i: usize = 0;
    while i < reply_methods.len()
        invariant
            i <= reply_methods.len(),
            calls == borrowed_method_views(reply_methods@),
            functions.len() == i,
            forall|k: int|
                0 <= k < i ==> (#[trigger] functions[k])@ == client_call_text(
                    function_name_of(calls[k].name),
                    subject_suffix_of(calls[k].name),
                    calls[k],
                ),
        decreases reply_methods.len() - i,
    {
        let method = reply_methods[i];
        let function_name = convert_method_to_function(method.name.as_str());
        let function_subject = convert_method_to_subject(method.name.as_str());
        functions.push(client_call(function_name.as_str(), function_subject.as_str(), method));
        i += 1;
    }
    assert(texts(functions@) =~= client_call_texts(calls));
    let functions = join(&functions, LINE_BREAK);
    let prefix_impl = client_prefix_impl(name, auto_subject_prefix);
    let mut out = String::from_str(CLIENT_IMPL[0]);
    out.append(name);
    out.append(CLIENT_IMPL[1]);
    out.append(name);
    out.append(CLIENT_IMPL[2]);
    out.append(name);
    out.append(CLIENT_IMPL[3]);
    out.append(name);
    out.append(CLIENT_IMPL[4]);
    out.append(prefix_impl.as_str());
    out.append(CLIENT_IMPL[5]);
    out.append(name);
    out.append(CLIENT_IMPL[6]);
    out.append(name);
    out.append(CLIENT_IMPL[7]);
    out.append(functions.as_str());
    out.append(CLIENT_IMPL[8]);
    out
}

/// The text of a call with one response holds the tag of each of its three
/// steps, under the name of the call's own function.
pub proof fn lemma_a_unary_call_tags_its_three_steps(
    function_name: Seq<char>,
    function_subject: Seq<char>,
    method: MethodView,
    step: CallStep,
)
    ensures
        holds(
            unary_call_text(function_name, function_subject, method),
            failure_tag(step, function_name),
        ),
{
    let text = unary_call_text(function_name, function_subject, method);
    let to_encode = UNARY_CALL[0]@ + method.input_type + UNARY_CALL[1]@ + method.output_type
        + UNARY_CALL[2]@ + function_name + UNARY_CALL[3]@ + method.input_type + UNARY_CALL[4]@
        + method.output_type + UNARY_CALL[5]@;
    let to_transport = to_encode + failure_tag(CallStep::Encode, function_name) + UNARY_CALL[6]@
        + tail_of(function_subject) + UNARY_CALL[7]@ + DELIMITER@ + UNARY_CALL[8]@;
    let to_decode = to_transport + failure_tag(CallStep::Transport, function_name)
        + UNARY_CALL[9]@ + method.output_type + UNARY_CALL[10]@;
    match step {
        CallStep::Encode => {
            let after = UNARY_CALL[6]@ + tail_of(function_subject) + UNARY_CALL[7]@ + DELIMITER@
                + UNARY_CALL[8]@ + failure_tag(CallStep::Transport, function_name)
                + UNARY_CALL[9]@ + method.output_type + UNARY_CALL[10]@ + failure_tag(
                CallStep::Decode,
                function_name,
            ) + UNARY_CALL[11]@;
            assert(text =~= to_encode + failure_tag(step, function_name) + after);
            lemma_the_middle_is_held(to_encode, failure_tag(step, function_name), after);
        },
        CallStep::Transport => {
            let after = UNARY_CALL[9]@ + method.output_type + UNARY_CALL[10]@ + failure_tag(
                CallStep::Decode,
                function_name,
            ) + UNARY_CALL[11]@;
            assert(text =~= to_transport + failure_tag(step, function_name) + after);
            lemma_the_middle_is_held(to_transport, failure_tag(step, function_name), after);
        },
        CallStep::Decode => {
            assert(text =~= to_decode + failure_tag(step, function_name) + UNARY_CALL[11]@);
            lemma_the_middle_is_held(to_decode, failure_tag(step, function_name), UNARY_CALL[11]@);
        },
    }
}

/// What the client's code knows of subjects, it has from the rules of
/// [`subject`](crate::subject): the default of its prefix trait is
/// [`DEFAULT_SUBJECT_PREFIX`], and the function of a call puts the tail of
/// the call's subject suffix behind its prefix.
pub proof fn lemma_the_client_takes_its_subjects_from_the_rules(
    service: ServiceView,
    function_name: Seq<char>,
    function_subject: Seq<char>,
    method: MethodView,
)
    ensures
        holds(client_handlers_trait_text(service), DEFAULT_SUBJECT_PREFIX@),
        holds(
            client_call_text(function_name, function_subject, method),
            tail_of(function_subject),
        ),
{
    let name = service.name;
    let handlers = joined(
        client_handler_texts(methods_of_type(service.methods, MethodType::RequestResponse)),
        LINE_BREAK@,
    );
    let before = CLIENT_TRAIT[0]@ + name + CLIENT_TRAIT[1]@ + DEFAULT_SUBJECT_PREFIX@
        + CLIENT_TRAIT[2]@ + name + CLIENT_TRAIT[3]@ + name + CLIENT_TRAIT[4]@;
    let after = CLIENT_TRAIT[5]@ + name + CLIENT_TRAIT[6]@ + handlers + CLIENT_TRAIT[7]@;
    assert(client_handlers_trait_text(service) =~= before + DEFAULT_SUBJECT_PREFIX@ + after);
    lemma_the_middle_is_held(before, DEFAULT_SUBJECT_PREFIX@, after);

    let tail = tail_of(function_subject);
    if method.server_streaming {
        let before = STREAMING_CALL[0]@ + method.input_type + STREAMING_CALL[1]@
            + method.output_type + STREAMING_CALL[2]@ + function_name + STREAMING_CALL[3]@
            + method.input_type + STREAMING_CALL[4]@ + method.output_type + STREAMING_CALL[5]@
            + method.input_type + STREAMING_CALL[6]@;
        let after = STREAMING_CALL[7]@ + DELIMITER@ + STREAMING_CALL[8]@ + method.output_type
            + STREAMING_CALL[9]@;
        assert(streaming_call_text(function_name, function_subject, method) =~= before + tail
            + after);
        lemma_the_middle_is_held(before, tail, after);
    } else {
        let before = UNARY_CALL[0]@ + method.input_type + UNARY_CALL[1]@ + method.output_type
            + UNARY_CALL[2]@ + function_name + UNARY_CALL[3]@ + method.input_type
            + UNARY_CALL[4]@ + method.output_type + UNARY_CALL[5]@ + failure_tag(
            CallStep::Encode,
            function_name,
        ) + UNARY_CALL[6]@;
        let after = UNARY_CALL[7]@ + DELIMITER@ + UNARY_CALL[8]@ + failure_tag(
            CallStep::Transport,
            function_name,
        ) + UNARY_CALL[9]@ + method.output_type + UNARY_CALL[10]@ + failure_tag(
            CallStep::Decode,
            function_name,
        ) + UNARY_CALL[11]@;
        assert(unary_call_text(function_name, function_subject, method) =~= before + tail
            + after);
        lemma_the_middle_is_held(before, tail, after);
    }
}

} // verus!

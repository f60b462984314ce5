use protobuf_nats_service_generator::client::{
    client_call, client_handler, client_prefix_impl, client_return_type, failure_context,
    get_client_handlers_trait, get_client_nats_implementation, CallStep,
};
use protobuf_nats_service_generator::dispatch::ErrorKind;
use protobuf_nats_service_generator::subject::DEFAULT_SUBJECT_PREFIX;
use protobuf_nats_service_generator::{Method, Service};

fn method(name: &str, input: &str, output: &str, server_streaming: bool) -> Method {
    Method {
        name: name.to_string(),
        proto_name: name.to_string(),
        input_type: input.to_string(),
        output_type: output.to_string(),
        client_streaming: false,
        server_streaming,
    }
}

fn person_service() -> Service {
    Service {
        name: "PersonService".to_string(),
        methods: vec![
            method("GetPerson", "GetPersonRequest", "GetPersonResponse", false),
            method("subscribePeople", "Empty", "Person", true),
            method("GetPeople", "GetPeopleRequest", "Person", true),
        ],
    }
}

fn handler_text(function_name: &str, input_type: &str, output_type: &str) -> String {
    format!(
        r#"
                /// Send request [{input_type}], receiving the decoded [{output_type}]
                #[allow(dead_code)]
                fn {function_name}(
                    &self,
                    _request: {input_type},
                ) -> {output_type} + Send;
            "#
    )
}

fn trait_text(name: &str, function_handlers: &str) -> String {
    format!(
        r#"
        pub trait {name}ClientPrefix {{
            /// Get the subject prefix for this service. Defaults to
            /// "nats.proto" and can be overridden with your own implementation.
            /// 
            /// # Usage
            /// For the default prefix, enable the `auto_subject_feature` or implement the trait as:
            /// ```rust
            /// impl {name}ClientPrefix for async_nats::Client {{}}
            /// ```
            /// 
            /// To use your own prefix, implement this trait for your client:
            /// ```rust
            /// impl {name}ClientPrefix for async_nats::Client {{
            ///     fn subject_prefix(&self) -> &'static str {{
            ///        "my.prefix"
            ///     }}
            /// }}
            /// ```
            fn subject_prefix(&self) -> &'static str {{
                "nats.proto"
            }}
        }}
        /// This will be used to implement the handlers for the client
        pub trait {name}Client {{
            {function_handlers}
        }}
        "#
    )
}

fn streaming_call_text(
    function_name: &str,
    function_subject: &str,
    input_type: &str,
    output_type: &str,
) -> String {
    format!(
        r#"
                    /// Send request [{input_type}], decode response as a stream of [{output_type}]
                    async fn {function_name}(
                        &self,
                        request: {input_type},
                    ) -> ::anyhow::Result<::std::pin::Pin<::std::boxed::Box<impl ::futures::Stream<Item = {output_type}>>>> {{
                        let mut buf = ::bytes::BytesMut::with_capacity(request.encoded_len());
                        request
                            .encode(&mut buf)
                            .context("failed to encode {input_type}")?;
                        let inbox = self.new_inbox();
                        let sub = self.subscribe(inbox.clone()).await?;
                        self
                            .publish_with_reply(format!("{{}}.{function_subject}", self.subject_prefix().trim_end_matches('.')), inbox, buf.into())
                            .await?;
                        // TODO: provide error logging for failed decodes
                        let sub = sub.filter_map(|msg| async {{ {output_type}::decode(msg.payload).ok() }});

                        Ok(Box::pin(sub))
                    }}
                "#
    )
}

fn unary_call_text(
    function_name: &str,
    function_subject: &str,
    input_type: &str,
    output_type: &str,
) -> String {
    format!(
        r#"
                    /// Send request [{input_type}], decode response as [{output_type}]
                    async fn {function_name}(
                        &self,
                        request: {input_type},
                    ) -> anyhow::Result<{output_type}> {{
                        let mut buf = ::bytes::BytesMut::with_capacity(request.encoded_len());
                        request
                            .encode(&mut buf)
                            .context("failed to encode request for {function_name}")?;
                        let reply = self
                            .request(format!("{{}}.{function_subject}", self.subject_prefix().trim_end_matches('.')), buf.into())
                            .await
                            .context("failed to send NATS request for {function_name}")?;
                        // TODO: more error handling on response message
                        {output_type}::decode(reply.payload).context("failed to decode reply for {function_name}")
                    }}
                "#
    )
}

fn implementation_text(name: &str, client_prefix_impl: &str, functions: &str) -> String {
    format!(
        r#"
        /// Implement the {name}Client trait for the async_nats::Client
        /// 
        /// # Usage
        /// ```ignore
        /// use generated::{{RequestType, ResponseType, {name}ClientPrefix}};
        /// /// Define your subject prefix or use the default. The {name}Client trait is already
        /// /// implemented for the async_nats::Client, so you can use it directly.
        /// impl {name}ClientPrefix for async_nats::Client {{}}
        /// async fn main() -> anyhow::Result<()> {{
        ///    let client = async_nats::connect("nats://127.0.0.1:4222").await.expect("to connect");
        ///    let request = RequestType::default();
        ///    let response: ResponseType = client.function_name(request).await.expect("to send request");
        ///    Ok(())
        /// }}
        /// 
        /// ```
        {client_prefix_impl}
        impl {name}Client for ::async_nats::Client where ::async_nats::Client: {name}ClientPrefix {{
            {functions}
        }}
        "#
    )
}

#[test]
fn client_return_type_of_a_unary_method() {
    let m = method("GetPerson", "GetPersonRequest", "GetPersonResponse", false);
    assert_eq!(
        client_return_type(&m),
        "impl ::futures::Future<Output = ::anyhow::Result<GetPersonResponse>>"
    );
}

#[test]
fn client_return_type_of_a_streaming_method() {
    let m = method("GetPeople", "GetPeopleRequest", "Person", true);
    assert_eq!(
        client_return_type(&m),
        "impl ::futures::Future<Output = ::anyhow::Result<::std::pin::Pin<::std::boxed::Box<impl ::futures::Stream<Item = Person>>>>>"
    );
}

#[test]
fn client_handler_declares_the_call() {
    let m = method("GetPerson", "GetPersonRequest", "GetPersonResponse", false);
    assert_eq!(
        client_handler("get_person", &m),
        handler_text(
            "get_person",
            "GetPersonRequest",
            "impl ::futures::Future<Output = ::anyhow::Result<GetPersonResponse>>",
        )
    );
}

#[test]
fn client_handler_of_a_streaming_method_returns_a_pinned_stream() {
    let m = method("GetPeople", "GetPeopleRequest", "Person", true);
    let text = client_handler("get_people", &m);
    assert_eq!(
        text,
        handler_text(
            "get_people",
            "GetPeopleRequest",
            "impl ::futures::Future<Output = ::anyhow::Result<::std::pin::Pin<::std::boxed::Box<impl ::futures::Stream<Item = Person>>>>>",
        )
    );
    assert!(text.contains("fn get_people(\n"));
    assert!(text.ends_with(" + Send;\n            "));
}

#[test]
fn client_trait_lists_the_calls_and_skips_notifications() {
    let handlers = [
        handler_text(
            "get_person",
            "GetPersonRequest",
            "impl ::futures::Future<Output = ::anyhow::Result<GetPersonResponse>>",
        ),
        handler_text(
            "get_people",
            "GetPeopleRequest",
            "impl ::futures::Future<Output = ::anyhow::Result<::std::pin::Pin<::std::boxed::Box<impl ::futures::Stream<Item = Person>>>>>",
        ),
    ]
    .join("\n");
    let text = get_client_handlers_trait(&person_service());
    assert_eq!(text, trait_text("PersonService", &handlers));
    assert!(text.contains("pub trait PersonServiceClientPrefix {"));
    assert!(text.contains("pub trait PersonServiceClient {"));
    assert_eq!(text.matches(&format!("\"{DEFAULT_SUBJECT_PREFIX}\"")).count(), 2);
    assert!(text.contains("fn subject_prefix(&self) -> &'static str {\n                \"nats.proto\"\n"));
    assert!(!text.contains("subscribe_people"));
}

#[test]
fn client_trait_of_a_service_without_calls_is_empty_inside() {
    let service = Service {
        name: "Quiet".to_string(),
        methods: vec![method("subscribeNews", "Empty", "News", false)],
    };
    assert_eq!(get_client_handlers_trait(&service), trait_text("Quiet", ""));
    let none = Service { name: "Quiet".to_string(), methods: vec![] };
    assert_eq!(get_client_handlers_trait(&none), trait_text("Quiet", ""));
}

#[test]
fn unary_client_call_sends_a_request_on_the_subject() {
    let m = method("GetPerson", "GetPersonRequest", "GetPersonResponse", false);
    let text = client_call("get_person", "get.person", &m);
    assert_eq!(
        text,
        unary_call_text("get_person", "get.person", "GetPersonRequest", "GetPersonResponse")
    );
    assert!(text.contains(
        ".request(format!(\"{}.get.person\", self.subject_prefix().trim_end_matches('.')), buf.into())"
    ));
    assert!(text.contains("GetPersonResponse::decode(reply.payload)"));
}

#[test]
fn unary_client_call_tags_each_failure_with_its_step_and_the_function() {
    let m = method("GetPerson", "GetPersonRequest", "GetPersonResponse", false);
    let text = client_call("get_person", "get.person", &m);
    let encode = text.find(".context(\"failed to encode request for get_person\")?;").unwrap();
    let send = text.find(".context(\"failed to send NATS request for get_person\")?;").unwrap();
    let decode = text.find(".context(\"failed to decode reply for get_person\")\n").unwrap();
    assert!(encode < send && send < decode);
    assert_eq!(text.matches(".context(").count(), 3);
    let request = text.find(".request(format!(").unwrap();
    assert!(encode < request);
}

#[test]
fn failure_tags_name_the_step_and_the_function() {
    assert_eq!(failure_context(CallStep::Encode, "get_person"), "failed to encode request for get_person");
    assert_eq!(
        failure_context(CallStep::Transport, "get_person"),
        "failed to send NATS request for get_person"
    );
    assert_eq!(failure_context(CallStep::Decode, "put_config"), "failed to decode reply for put_config");
    assert_eq!(CallStep::Encode.name(), "encode request");
    assert_eq!(CallStep::Transport.name(), "send NATS request");
    assert_eq!(CallStep::Decode.name(), "decode reply");
    assert_eq!(CallStep::Encode.kind(), ErrorKind::EncodeFailure);
    assert_eq!(CallStep::Transport.kind(), ErrorKind::TransportFailure);
    assert_eq!(CallStep::Decode.kind(), ErrorKind::DecodeFailure);
}

#[test]
fn streaming_client_call_subscribes_to_an_inbox_before_publishing() {
    let m = method("GetPeople", "GetPeopleRequest", "Person", true);
    let text = client_call("get_people", "get.people", &m);
    assert_eq!(
        text,
        streaming_call_text("get_people", "get.people", "GetPeopleRequest", "Person")
    );
    let subscribe = text.find("self.subscribe(inbox.clone())").unwrap();
    let publish = text.find(".publish_with_reply(format!(\"{}.get.people\"").unwrap();
    assert!(subscribe < publish);
    assert!(text.contains("sub.filter_map(|msg| async { Person::decode(msg.payload).ok() })"));
}

#[test]
fn client_prefix_impl_is_written_only_on_demand() {
    assert_eq!(
        client_prefix_impl("PersonService", true),
        "impl PersonServiceClientPrefix for ::async_nats::Client {}"
    );
    assert_eq!(client_prefix_impl("PersonService", false), "");
}

#[test]
fn client_implementation_holds_one_function_for_each_call() {
    let functions = [
        unary_call_text("get_person", "get.person", "GetPersonRequest", "GetPersonResponse"),
        streaming_call_text("get_people", "get.people", "GetPeopleRequest", "Person"),
    ]
    .join("\n");
    let text = get_client_nats_implementation(&person_service(), false);
    assert_eq!(text, implementation_text("PersonService", "", &functions));
    assert!(text.contains(
        "impl PersonServiceClient for ::async_nats::Client where ::async_nats::Client: PersonServiceClientPrefix {"
    ));
    assert!(!text.contains("impl PersonServiceClientPrefix for ::async_nats::Client {}"));
    assert!(!text.contains("subscribe_people"));
}

#[test]
fn client_implementation_with_the_default_prefix() {
    let functions = [
        unary_call_text("get_person", "get.person", "GetPersonRequest", "GetPersonResponse"),
        streaming_call_text("get_people", "get.people", "GetPeopleRequest", "Person"),
    ]
    .join("\n");
    let text = get_client_nats_implementation(&person_service(), true);
    assert_eq!(
        text,
        implementation_text(
            "PersonService",
            "impl PersonServiceClientPrefix for ::async_nats::Client {}",
            &functions,
        )
    );
}

use protobuf_nats_service_generator::client::{
    get_client_handlers_trait, get_client_nats_implementation,
};
use protobuf_nats_service_generator::generator::{service_code, NatsServiceGenerator};
use protobuf_nats_service_generator::server::{
    get_server_handlers_trait, get_server_nats_implementation,
};
use protobuf_nats_service_generator::{Method, Service};

fn simple_service() -> Service {
    Service {
        name: "PersonService".to_string(),
        methods: vec![Method {
            name: "GetPerson".to_string(),
            proto_name: "GetPerson".to_string(),
            input_type: "GetPersonRequest".to_string(),
            output_type: "GetPersonResponse".to_string(),
            client_streaming: false,
            server_streaming: false,
        }],
    }
}

fn code_text(
    client_handlers_trait: &str,
    client_nats_implementation: &str,
    server_handlers_trait: &str,
    server_nats_implementation: &str,
) -> String {
    format!(
        r#"
            // Client handlers
            {client_handlers_trait}
            {client_nats_implementation}
            // Server handlers
            {server_handlers_trait}
            {server_nats_implementation}
            "#
    )
}

const IMPORTS: &str = r#"
/// --------------------------------------------------------------
/// This file was generated by the `protobuf-nats-service-generator` crate
/// DO NOT MODIFY DIRECTLY
/// --------------------------------------------------------------
use ::anyhow::Context as _;
use ::futures::StreamExt;
use ::prost::Message;
"#;

#[test]
fn service_code_holds_the_four_parts_in_order() {
    let service = simple_service();
    let expected = code_text(
        &get_client_handlers_trait(&service),
        &get_client_nats_implementation(&service, false),
        &get_server_handlers_trait(&service),
        &get_server_nats_implementation(&service),
    );
    assert_eq!(service_code(&service, false), expected);
    assert!(expected.starts_with("\n            // Client handlers\n"));
}

#[test]
fn service_code_with_the_default_prefix_differs_in_the_client_implementation() {
    let service = simple_service();
    let expected = code_text(
        &get_client_handlers_trait(&service),
        &get_client_nats_implementation(&service, true),
        &get_server_handlers_trait(&service),
        &get_server_nats_implementation(&service),
    );
    assert_eq!(service_code(&service, true), expected);
    assert_ne!(service_code(&service, true), service_code(&service, false));
}

#[test]
fn generate_appends_to_the_buffer() {
    let service = simple_service();
    let code = service_code(&service, false);
    let mut buf = String::from("// before\n");
    NatsServiceGenerator.generate(service.clone(), &mut buf);
    assert_eq!(buf, format!("// before\n{code}"));
    NatsServiceGenerator.generate(service, &mut buf);
    assert_eq!(buf, format!("// before\n{code}{code}"));
}

#[test]
fn finalize_puts_the_imports_first() {
    let mut buf = String::from("pub struct Person;\n");
    NatsServiceGenerator.finalize(&mut buf);
    assert_eq!(buf, format!("{IMPORTS}pub struct Person;\n"));
    assert!(buf.starts_with("\n/// ----"));
    assert!(buf.contains("use ::anyhow::Context as _;\nuse ::futures::StreamExt;\nuse ::prost::Message;\n"));
}

#[test]
fn finalize_of_an_empty_buffer_is_the_imports() {
    let mut buf = String::new();
    NatsServiceGenerator.finalize(&mut buf);
    assert_eq!(buf, IMPORTS);
}

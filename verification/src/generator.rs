//! The generator: all the code of one service, and the imports that the
//! code of a file needs.

use crate::classify::{lemma_filtering_twice_is_filtering_once, methods_of_type, MethodType};
use crate::client::{
    client_call_text, client_call_texts, client_handler_text, client_handlers_trait_text,
    client_nats_implementation_text, get_client_handlers_trait, get_client_nats_implementation,
};
use crate::dispatch::suffixes_of;
use crate::model::{MethodView, Service, ServiceView};
use crate::naming::function_name_of;
use crate::server::{
    get_server_handlers_trait, get_server_nats_implementation, server_arm_text, server_arm_texts,
    server_handler_text, server_handlers_trait_text, server_nats_implementation_text,
    server_request_text,
};
use vstd::prelude::*;
use vstd::string::*;

verus! {

/// The code of one service. Between the pieces stand the client traits, the
/// client implementation, the server trait and the dispatcher.
pub const SERVICE_CODE: [&'static str; 5] = [
    r#"
            // Client handlers
            "#,
    r#"
            "#,
    r#"
            // Server handlers
            "#,
    r#"
            "#,
    r#"
            "#,
];

/// The imports that generated code relies on, under a banner.
pub const IMPORTS_CODE: &'static str = r#"
/// --------------------------------------------------------------
/// This file was generated by the `protobuf-nats-service-generator` crate
/// DO NOT MODIFY DIRECTLY
/// --------------------------------------------------------------
use ::anyhow::Context as _;
use ::futures::StreamExt;
use ::prost::Message;
"#;

/// All the code of `service`: its client traits, their implementation on a
/// NATS client, its server trait and its dispatcher, in this order.
pub open spec fn service_code_text(service: ServiceView, auto_subject_prefix: bool) -> Seq<char> {
    SERVICE_CODE[0]@ + client_handlers_trait_text(service) + SERVICE_CODE[1]@
        + client_nats_implementation_text(service, auto_subject_prefix) + SERVICE_CODE[2]@
        + server_handlers_trait_text(service) + SERVICE_CODE[3]@ + server_nats_implementation_text(
        service,
    ) + SERVICE_CODE[4]@
}

/// Write all the code of `service`. With `auto_subject_prefix` the code
/// also gives the NATS client the default subject prefix of the service.
pub fn service_code(service: &Service, auto_subject_prefix: bool) -> (out: String)
    ensures
        out@ == service_code_text(service@, auto_subject_prefix),
{
    let client_handlers_trait = get_client_handlers_trait(service);
    let client_nats_implementation = get_client_nats_implementation(service, auto_subject_prefix);
    let server_handlers_trait = get_server_handlers_trait(service);
    let server_nats_implementation = get_server_nats_implementation(service);
    let mut out = String::from_str(SERVICE_CODE[0]);
    out.append(client_handlers_trait.as_str());
    out.append(SERVICE_CODE[1]);
    out.append(client_nats_implementation.as_str());
    out.append(SERVICE_CODE[2]);
    out.append(server_handlers_trait.as_str());
    out.append(SERVICE_CODE[3]);
    out.append(server_nats_implementation.as_str());
    out.append(SERVICE_CODE[4]);
    out
}

/// Generates, for each service of a protobuf file, a client and a server
/// that talk over NATS.
pub struct NatsServiceGenerator;

impl NatsServiceGenerator {
    /// Append the code of `service` to `buf`. The NATS client is not given a
    /// subject prefix: the user of the code implements the prefix trait.
    pub fn generate(&mut self, service: Service, buf: &mut String)
        ensures
            final(buf)@ == old(buf)@ + service_code_text(service@, false),
    {
        let code = service_code(&service, false);
        buf.append(code.as_str());
    }

    /// Put the imports that the generated code relies on in front of `buf`.
    pub fn finalize(&mut self, buf: &mut String)
        ensures
            final(buf)@ == IMPORTS_CODE@ + old(buf)@,
    {
        let mut out = String::from_str(IMPORTS_CODE);
        out.append(buf.as_str());
        *buf = out;
    }
}

/// A notification leaves no trace in the code of its service: the code is
/// that of the service's calls alone.
pub proof fn lemma_notifications_leave_no_code(service: ServiceView, auto_subject_prefix: bool)
    ensures
        service_code_text(service, auto_subject_prefix) == service_code_text(
            ServiceView {
                methods: methods_of_type(service.methods, MethodType::RequestResponse),
                ..service
            },
            auto_subject_prefix,
        ),
{
    lemma_filtering_twice_is_filtering_once(service.methods, MethodType::RequestResponse);
}

/// The client and the dispatcher of a service agree on the subject of each
/// call: the function that the client gets for a call publishes on the
/// suffix that the dispatcher's arm for that call answers on, and that
/// [`call_suffixes`](crate::dispatch::call_suffixes) lists in the same place.
pub proof fn lemma_client_and_dispatcher_share_their_subjects(calls: Seq<MethodView>, i: int)
    requires
        0 <= i < calls.len(),
    ensures
        client_call_texts(calls).len() == calls.len(),
        server_arm_texts(calls).len() == calls.len(),
        suffixes_of(calls).len() == calls.len(),
        client_call_texts(calls)[i] == client_call_text(
            function_name_of(calls[i].name),
            suffixes_of(calls)[i],
            calls[i],
        ),
        server_arm_texts(calls)[i] == server_arm_text(
            function_name_of(calls[i].name),
            suffixes_of(calls)[i],
            calls[i],
        ),
{
}

/// Whether the caller of a method would stream its requests is not read:
/// the code of a method is the same with the flag set and without.
pub proof fn lemma_client_streaming_changes_no_code(
    function_name: Seq<char>,
    function_subject: Seq<char>,
    method: MethodView,
    flag: bool,
)
    ensures
        client_handler_text(function_name, MethodView { client_streaming: flag, ..method })
            == client_handler_text(function_name, method),
        client_call_text(
            function_name,
            function_subject,
            MethodView { client_streaming: flag, ..method },
        ) == client_call_text(function_name, function_subject, method),
        server_handler_text(function_name, MethodView { client_streaming: flag, ..method })
            == server_handler_text(function_name, method),
        server_arm_text(
            function_name,
            function_subject,
            MethodView { client_streaming: flag, ..method },
        ) == server_arm_text(function_name, function_subject, method),
        server_request_text(MethodView { client_streaming: flag, ..method }) == method.input_type,
{
}

} // verus!

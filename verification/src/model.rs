//! The service description that the generator reads.

use vstd::prelude::*;

verus! {

/// One remote method of a service.
#[derive(Clone, Debug, PartialEq, Eq)]
pub struct Method {
    /// The method's identifier in generated code, `GetPerson`.
    pub name: String,
    /// The method's name as the protobuf source spells it.
    pub proto_name: String,
    /// The Rust path of the request type.
    pub input_type: String,
    /// The Rust path of the response type.
    pub output_type: String,
    /// Whether the caller would send a stream of requests. The flag is kept
    /// and not acted on: the generated code takes one request for every
    /// method.
    pub client_streaming: bool,
    /// Whether the handler answers with a stream of responses.
    pub server_streaming: bool,
}

/// A named collection of methods. Nothing here asks that the names of the
/// methods differ: whoever parsed the protobuf source has seen to that.
#[derive(Clone, Debug, PartialEq, Eq)]
pub struct Service {
    /// The service's identifier in generated code, `PersonService`.
    pub name: String,
    /// The methods, in the order of the protobuf source.
    pub methods: Vec<Method>,
}

/// What a [`Method`] holds, as plain text and flags.
pub struct MethodView {
    pub name: Seq<char>,
    pub proto_name: Seq<char>,
    pub input_type: Seq<char>,
    pub output_type: Seq<char>,
    pub client_streaming: bool,
    pub server_streaming: bool,
}

/// What a [`Service`] holds.
pub struct ServiceView {
    pub name: Seq<char>,
    pub methods: Seq<MethodView>,
}

impl View for Method {
    type V = MethodView;

    open spec fn view(&self) -> MethodView {
        MethodView {
            name: self.name@,
            proto_name: self.proto_name@,
            input_type: self.input_type@,
            output_type: self.output_type@,
            client_streaming: self.client_streaming,
            server_streaming: self.server_streaming,
        }
    }
}

/// The views of a run of methods, one for one.
pub open spec fn method_views(methods: Seq<Method>) -> Seq<MethodView> {
    Seq::new(methods.len(), |i: int| methods[i]@)
}

impl View for Service {
    type V = ServiceView;

    open spec fn view(&self) -> ServiceView {
        ServiceView { name: self.name@, methods: method_views(self.methods@) }
    }
}

} // verus!

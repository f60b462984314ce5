//! Bindings for protobuf services that talk over a NATS message bus.
//!
//! A [`Service`] is turned into source text: a client trait, its
//! implementation on a NATS client, a server trait and a dispatcher that
//! feeds a handler from one subscription. [`NatsServiceGenerator`] writes the
//! text; the contract of each function says which text it is.
//!
//! The rules of the protocol are also functions of their own, for a caller
//! or a dispatcher written by hand: [`classify`] tells calls from
//! notifications, [`naming`] and [`subject`] say on which subject a method is
//! called, [`dispatch`] says what a dispatcher does with each message, and
//! [`caller`] which request goes out and what is made of the replies.
//!
//! The emitted text calls none of them: it trims its prefix, joins, matches
//! and publishes in its own words when it runs. The two are tied where text
//! can be tied: the default prefix, the delimiter, the tail of each subject
//! and the tags of failures are written into the text from the constants and
//! functions of the rules, and laws say so. That the text, once compiled,
//! behaves as the rules say is seen by reading it; nothing here proves it.

pub mod caller;
pub mod classify;
pub mod client;
pub mod dispatch;
pub mod generator;
pub mod model;
pub mod naming;
pub mod server;
pub mod signature;
pub mod subject;
pub mod text;

pub use classify::{filter_methods_by_type, get_method_type, MethodType};
pub use client::{get_client_handlers_trait, get_client_nats_implementation};
pub use generator::NatsServiceGenerator;
pub use model::{Method, MethodView, Service, ServiceView};
pub use naming::{convert_method_to_function, convert_method_to_subject};
pub use server::{get_server_handlers_trait, get_server_nats_implementation};

//! The Rust types that stand in generated signatures.

use vstd::prelude::*;
use vstd::string::*;

verus! {

/// What stands around the item type of a stream.
pub const STREAM: [&'static str; 2] = ["impl ::futures::Stream<Item = ", ">"];

/// What stands around a type that is boxed and pinned.
pub const PINNED: [&'static str; 2] = ["::std::pin::Pin<::std::boxed::Box<", ">>"];

/// What stands around the type that a fallible future resolves to.
pub const FUTURE: [&'static str; 2] = ["impl ::futures::Future<Output = ::anyhow::Result<", ">>"];

/// The type of a stream of `item`.
pub open spec fn stream_of(item: Seq<char>) -> Seq<char> {
    STREAM[0]@ + item + STREAM[1]@
}

/// The type of `inner`, boxed and pinned.
pub open spec fn pinned(inner: Seq<char>) -> Seq<char> {
    PINNED[0]@ + inner + PINNED[1]@
}

/// The type of a future that resolves to `output` or to an error.
pub open spec fn future_of(output: Seq<char>) -> Seq<char> {
    FUTURE[0]@ + output + FUTURE[1]@
}

/// Write the type of a stream of `item`.
pub fn stream_type(item: &str) -> (out: String)
    ensures
        out@ == stream_of(item@),
{
    let mut out = String::from_str(STREAM[0]);
    out.append(item);
    out.append(STREAM[1]);
    out
}

/// Write the type of `inner`, boxed and pinned.
pub fn pinned_type(inner: &str) -> (out: String)
    ensures
        out@ == pinned(inner@),
{
    let mut out = String::from_str(PINNED[0]);
    out.append(inner);
    out.append(PINNED[1]);
    out
}

/// Write the type of a future that resolves to `output` or to an error.
pub fn future_type(output: &str) -> (out: String)
    ensures
        out@ == future_of(output@),
{
    let mut out = String::from_str(FUTURE[0]);
    out.append(output);
    out.append(FUTURE[1]);
    out
}

} // verus!

//! The caller's side of a call: the request that goes out, and what is made
//! of the replies.
//!
//! A request goes out on the subject of its method, with the encoded request
//! as its payload and nothing around it. The caller of a streaming call
//! subscribes to an inbox of its own, publishes the request with the inbox as
//! the reply address, and decodes what arrives there. What decodes is handed
//! on in the order of arrival; what does not is dropped. No message marks the
//! end: the sequence is open until the caller stops reading.
//!
//! The client functions that [`get_client_nats_implementation`] writes are
//! code of their own and call none of these functions; that they follow the
//! same rules when they run is seen by reading their text, not proved here.
//!
//! [`get_client_nats_implementation`]: crate::client::get_client_nats_implementation

use crate::dispatch::{
    addressed, lemma_a_call_reaches_a_handler, routable, settled, suffixes_of, DeliveryView,
    OutcomeView, Publish, PublishView, VerdictView,
};
use crate::model::MethodView;
use crate::subject::{method_subject, method_subject_of, trimmed};
use vstd::prelude::*;

verus! {

/// The message that calls the method `method` under `prefix` with the
/// encoded request `payload`: it goes to the subject of the method and
/// carries the payload as it is.
pub open spec fn request_of(prefix: Seq<char>, method: Seq<char>, payload: Seq<u8>) -> PublishView {
    PublishView { subject: method_subject_of(prefix, method), payload }
}

/// Make the message that calls the method `method` under `prefix` with the
/// encoded request `payload`.
pub fn request(prefix: &str, method: &str, payload: Vec<u8>) -> (out: Publish)
    ensures
        out@ == request_of(prefix@, method@, payload@),
{
    Publish { subject: method_subject(prefix, method), payload }
}

/// The values among `attempts`, in their order: an attempt that failed
/// leaves no trace.
pub open spec fn decoded<T>(attempts: Seq<Option<T>>) -> Seq<T>
    decreases attempts.len(),
{
    if attempts.len() == 0 {
        Seq::empty()
    } else {
        match attempts.last() {
            Some(value) => decoded(attempts.drop_last()).push(value),
            None => decoded(attempts.drop_last()),
        }
    }
}

/// Keep what decoded, in the order of arrival, and drop what did not.
pub fn keep_decoded<T>(attempts: Vec<Option<T>>) -> (out: Vec<T>)
    ensures
        out@ == decoded(attempts@),
{
    let mut out: Vec<T> = Vec::new();
    for attempt in it: attempts
        invariant
            it.seq() == attempts@,
            out@ == decoded(attempts@.take(it.index() as int)),
    {
        proof {
            let done = attempts@.take(it.index() as int);
            let next = attempts@.take(it.index() + 1);
            assert(next.drop_last() =~= done);
            assert(next.last() == attempt);
        }
        match attempt {
            Some(value) => {
                out.push(value);
            },
            None => {},
        }
    }
    assert(attempts@.take(attempts@.len() as int) =~= attempts@);
    out
}

/// A codec that loses nothing: what it encodes, it decodes to the same.
pub open spec fn lossless<T>(
    encode: spec_fn(T) -> Seq<u8>,
    decode: spec_fn(Seq<u8>) -> Option<T>,
) -> bool {
    forall|value: T| #[trigger] decode(encode(value)) == Some(value)
}

/// The payloads of `published`, each as `decode` reads it.
pub open spec fn read_with<T>(
    decode: spec_fn(Seq<u8>) -> Option<T>,
    published: Seq<PublishView>,
) -> Seq<Option<T>> {
    Seq::new(published.len(), |i: int| decode(published[i].payload))
}

/// The elements of `items`, each as `encode` writes it.
pub open spec fn written_with<T>(encode: spec_fn(T) -> Seq<u8>, items: Seq<T>) -> Seq<Seq<u8>> {
    Seq::new(items.len(), |i: int| encode(items[i]))
}

/// Where every message decodes, the caller sees every one of them, in the
/// order of arrival.
pub proof fn lemma_what_decodes_is_kept<T>(items: Seq<T>)
    ensures
        decoded(Seq::new(items.len(), |i: int| Some(items[i]))) == items,
    decreases items.len(),
{
    let attempts = Seq::new(items.len(), |i: int| Some(items[i]));
    if items.len() > 0 {
        let fewer = items.drop_last();
        lemma_what_decodes_is_kept(fewer);
        assert(attempts.drop_last() =~= Seq::new(fewer.len(), |i: int| Some(fewer[i])));
        assert(decoded(attempts) =~= items);
    } else {
        assert(decoded(attempts) =~= items);
    }
}

/// With a codec that loses nothing, the caller of a streaming call sees the
/// elements that the handler made, all of them, in the order made, and no
/// more: the dispatcher publishes each encoded element to the inbox as it
/// is, and each decodes to what it was.
pub proof fn lemma_a_stream_arrives_as_it_was_made<T>(
    encode: spec_fn(T) -> Seq<u8>,
    decode: spec_fn(Seq<u8>) -> Option<T>,
    inbox: Seq<char>,
    items: Seq<T>,
)
    requires
        lossless(encode, decode),
    ensures
        decoded(read_with(decode, addressed(inbox, written_with(encode, items)))) == items,
{
    let arrived = read_with(decode, addressed(inbox, written_with(encode, items)));
    assert(arrived =~= Seq::new(items.len(), |i: int| Some(items[i]))) by {
        assert forall|i: int| 0 <= i < items.len() implies arrived[i] == Some(items[i]) by {
            assert(decode(encode(items[i])) == Some(items[i]));
        }
    }
    lemma_what_decodes_is_kept(items);
}

/// With a codec that loses nothing, the caller of a call with one response
/// gets the response that the handler made: the dispatcher publishes one
/// message to the reply address, and its payload decodes to what was
/// encoded.
pub proof fn lemma_a_reply_arrives_as_it_was_made<T>(
    encode: spec_fn(T) -> Seq<u8>,
    decode: spec_fn(Seq<u8>) -> Option<T>,
    address: Seq<char>,
    response: T,
)
    requires
        lossless(encode, decode),
    ensures
        settled(Some(address), OutcomeView::Replied(encode(response))) matches VerdictView::Publish(
            list,
        ) && list.len() == 1 && list[0].subject == address && decode(list[0].payload) == Some(
            response,
        ),
{
    assert(decode(encode(response)) == Some(response));
}

/// With a codec that loses nothing, the handler of a call gets the request
/// that the caller made. The message that the caller sends for a call of the
/// service comes in on a subject that the service's dispatcher routes,
/// whenever the prefixes of the two are the same once trimmed; and the
/// payload, which the dispatcher decodes as it came in, decodes to the
/// request that was encoded.
pub proof fn lemma_a_request_arrives_as_it_was_made<T>(
    encode: spec_fn(T) -> Seq<u8>,
    decode: spec_fn(Seq<u8>) -> Option<T>,
    calls: Seq<MethodView>,
    client_prefix: Seq<char>,
    server_prefix: Seq<char>,
    i: int,
    made: T,
    delivery: DeliveryView,
)
    requires
        lossless(encode, decode),
        0 <= i < calls.len(),
        trimmed(client_prefix) == trimmed(server_prefix),
        delivery.subject == request_of(client_prefix, calls[i].name, encode(made)).subject,
        delivery.payload == request_of(client_prefix, calls[i].name, encode(made)).payload,
    ensures
        routable(suffixes_of(calls), server_prefix, delivery.subject),
        decode(delivery.payload) == Some(made),
{
    lemma_a_call_reaches_a_handler(calls, client_prefix, server_prefix, i);
    assert(decode(encode(made)) == Some(made));
}

/// With codecs that lose nothing, a call with one response comes back whole.
/// The request that the caller made reaches a handler of the service as it
/// was made; and where the message gave an address to reply to, the one
/// response of the handler is published there and decodes, at the caller, to
/// the response that the handler made.
pub proof fn lemma_a_call_is_answered<Q, R>(
    encode_request: spec_fn(Q) -> Seq<u8>,
    decode_request: spec_fn(Seq<u8>) -> Option<Q>,
    encode_response: spec_fn(R) -> Seq<u8>,
    decode_response: spec_fn(Seq<u8>) -> Option<R>,
    calls: Seq<MethodView>,
    prefix: Seq<char>,
    i: int,
    asked: Q,
    answered: R,
    address: Seq<char>,
)
    requires
        lossless(encode_request, decode_request),
        lossless(encode_response, decode_response),
        0 <= i < calls.len(),
    ensures
        routable(
            suffixes_of(calls),
            prefix,
            request_of(prefix, calls[i].name, encode_request(asked)).subject,
        ),
        decode_request(request_of(prefix, calls[i].name, encode_request(asked)).payload) == Some(
            asked,
        ),
        settled(Some(address), OutcomeView::Replied(encode_response(answered)))
            matches VerdictView::Publish(list) && list.len() == 1 && list[0].subject == address
            && decode_response(list[0].payload) == Some(answered),
{
    lemma_a_call_reaches_a_handler(calls, prefix, prefix, i);
    assert(decode_request(encode_request(asked)) == Some(asked));
    assert(decode_response(encode_response(answered)) == Some(answered));
}

} // verus!

//! The rules of a server's dispatcher: which call a message is for, what is
//! published in answer, and which failures end the dispatcher.
//!
//! Whoever runs a dispatcher receives the messages, decodes the requests,
//! calls the handlers, encodes the responses and publishes. Between those
//! steps it decides as the functions of this module say.
//!
//! The dispatcher that [`get_server_nats_implementation`] writes is code of
//! its own and calls none of these functions. It is written to the same
//! rules, and its text takes the subject tails from the same place as
//! [`route`] does; that it follows the rules when it runs is seen by reading
//! its text, not proved here.
//!
//! [`get_server_nats_implementation`]: crate::server::get_server_nats_implementation

use crate::classify::{
    borrowed_method_views, filter_methods_by_type, methods_of_type, MethodType,
};
use crate::model::{MethodView, Service};
use crate::naming::{convert_method_to_subject, subject_suffix_of};
use crate::subject::{compose_subject, method_subject_of, subject_of, trimmed};
use crate::text::{same_text, texts};
use vstd::prelude::*;
use vstd::string::*;

verus! {

/// What can go wrong on the way of a call.
#[derive(Clone, Copy, Debug, PartialEq, Eq, Structural)]
pub enum ErrorKind {
    /// A request or a response could not be encoded.
    EncodeFailure,
    /// A payload could not be decoded.
    DecodeFailure,
    /// The bus refused a request, a subscription or a publication.
    TransportFailure,
    /// The handler failed.
    HandlerFailure,
    /// A message came in on a subject that no call of the service has.
    UnroutableSubject,
    /// A request came in without an address to reply to.
    UnaddressableReply,
}

impl ErrorKind {
    /// Whether a failure of this kind ends the dispatcher. A subject that no
    /// call has and a request without a reply address are reported and the
    /// dispatcher goes on; every other failure ends it.
    pub open spec fn fatal(self) -> bool {
        self != ErrorKind::UnroutableSubject && self != ErrorKind::UnaddressableReply
    }

    /// Whether a failure of this kind ends the dispatcher.
    pub fn is_fatal(&self) -> (fatal: bool)
        ensures
            fatal == self.fatal(),
    {
        match self {
            ErrorKind::UnroutableSubject => false,
            ErrorKind::UnaddressableReply => false,
            _ => true,
        }
    }
}

/// A payload to publish on a subject.
#[derive(Clone, Debug, PartialEq, Eq)]
pub struct Publish {
    pub subject: String,
    pub payload: Vec<u8>,
}

/// What a [`Publish`] holds.
pub struct PublishView {
    pub subject: Seq<char>,
    pub payload: Seq<u8>,
}

impl View for Publish {
    type V = PublishView;

    open spec fn view(&self) -> PublishView {
        PublishView { subject: self.subject@, payload: self.payload@ }
    }
}

/// What became of a request once its call was found.
#[derive(Clone, Debug, PartialEq, Eq)]
pub enum Outcome {
    /// The payload did not decode as the call's request.
    DecodeFailed,
    /// The handler failed.
    HandlerFailed,
    /// The handler's one response, encoded.
    Replied(Vec<u8>),
    /// The responses of a handler that streams them, encoded, in the order
    /// in which it made them.
    Streamed(Vec<Vec<u8>>),
}

/// What an [`Outcome`] holds.
pub enum OutcomeView {
    DecodeFailed,
    HandlerFailed,
    Replied(Seq<u8>),
    Streamed(Seq<Seq<u8>>),
}

/// The views of a run of payloads, one for one.
pub open spec fn payloads(responses: Seq<Vec<u8>>) -> Seq<Seq<u8>> {
    Seq::new(responses.len(), |i: int| responses[i]@)
}

impl View for Outcome {
    type V = OutcomeView;

    open spec fn view(&self) -> OutcomeView {
        match self {
            Outcome::DecodeFailed => OutcomeView::DecodeFailed,
            Outcome::HandlerFailed => OutcomeView::HandlerFailed,
            Outcome::Replied(response) => OutcomeView::Replied(response@),
            Outcome::Streamed(responses) => OutcomeView::Streamed(payloads(responses@)),
        }
    }
}

/// What the dispatcher does about a message.
#[derive(Clone, Debug, PartialEq, Eq)]
pub enum Verdict {
    /// Publish these, in this order, and go on with the next message.
    Publish(Vec<Publish>),
    /// Report this to the operator and go on with the next message.
    Report(ErrorKind),
    /// Give up with this failure: no further message is taken.
    Stop(ErrorKind),
}

/// What a [`Verdict`] holds.
pub enum VerdictView {
    Publish(Seq<PublishView>),
    Report(ErrorKind),
    Stop(ErrorKind),
}

/// The views of a run of publications, one for one.
pub open spec fn publications(list: Seq<Publish>) -> Seq<PublishView> {
    Seq::new(list.len(), |i: int| list[i]@)
}

impl View for Verdict {
    type V = VerdictView;

    open spec fn view(&self) -> VerdictView {
        match self {
            Verdict::Publish(list) => VerdictView::Publish(publications(list@)),
            Verdict::Report(kind) => VerdictView::Report(*kind),
            Verdict::Stop(kind) => VerdictView::Stop(*kind),
        }
    }
}

/// The subject suffixes of `methods`, one for one.
pub open spec fn suffixes_of(methods: Seq<MethodView>) -> Seq<Seq<char>> {
    Seq::new(methods.len(), |i: int| subject_suffix_of(methods[i].name))
}

/// The subject suffix of each call of `service`, in the order of its
/// methods: the subjects that its dispatcher answers on. Notifications have
/// none.
pub fn call_suffixes(service: &Service) -> (out: Vec<String>)
    ensures
        texts(out@) == suffixes_of(
            methods_of_type(service@.methods, MethodType::RequestResponse),
        ),
{
    let reply_methods = filter_methods_by_type(
        service.methods.as_slice(),
        MethodType::RequestResponse,
    );
    let ghost calls = borrowed_method_views(reply_methods@);
    let mut out: Vec<String> = Vec::new();
    let mut i: usize = 0;
    while i < reply_methods.len()
        invariant
            i <= reply_methods.len(),
            calls == borrowed_method_views(reply_methods@),
            out.len() == i,
            forall|k: int| 0 <= k < i ==> (#[trigger] out[k])@ == subject_suffix_of(calls[k].name),
        decreases reply_methods.len() - i,
    {
        out.push(convert_method_to_subject(reply_methods[i].name.as_str()));
        i += 1;
    }
    assert(texts(out@) =~= suffixes_of(calls));
    out
}

/// Whether `subject` is the subject of one of `suffixes` under `prefix`.
pub open spec fn routable(suffixes: Seq<Seq<char>>, prefix: Seq<char>, subject: Seq<char>) -> bool {
    exists|i: int| 0 <= i < suffixes.len() && subject == subject_of(prefix, #[trigger] suffixes[i])
}

/// Find the call that a message on `subject` is for: the first of
/// `suffixes` whose subject under `prefix` is `subject`. `None` where no call
/// has that subject.
pub fn route(suffixes: &Vec<String>, prefix: &str, subject: &str) -> (found: Option<usize>)
    ensures
        match found {
            Some(i) => {
                &&& i < suffixes.len()
                &&& subject@ == subject_of(prefix@, suffixes[i as int]@)
                &&& forall|j: int| 0 <= j < i ==> subject@ != subject_of(prefix@, suffixes[j]@)
            },
            None => forall|j: int|
                0 <= j < suffixes.len() ==> subject@ != subject_of(prefix@, suffixes[j]@),
        },
        found is Some <==> routable(texts(suffixes@), prefix@, subject@),
{
    let mut i: usize = 0;
    while i < suffixes.len()
        invariant
            i <= suffixes.len(),
            forall|j: int| 0 <= j < i ==> subject@ != subject_of(prefix@, suffixes[j]@),
        decreases suffixes.len() - i,
    {
        let candidate = compose_subject(prefix, suffixes[i].as_str());
        if same_text(subject, candidate.as_str()) {
            assert(subject@ == subject_of(prefix@, texts(suffixes@)[i as int]));
            return Some(i);
        }
        i += 1;
    }
    assert forall|j: int| 0 <= j < texts(suffixes@).len() implies subject@ != subject_of(
        prefix@,
        #[trigger] texts(suffixes@)[j],
    ) by {
        assert(texts(suffixes@)[j] == suffixes[j]@);
    }
    None
}

/// Each of `responses` addressed to `reply`, in the same order.
pub open spec fn addressed(reply: Seq<char>, responses: Seq<Seq<u8>>) -> Seq<PublishView> {
    Seq::new(responses.len(), |i: int| PublishView { subject: reply, payload: responses[i] })
}

/// Address each of `responses` to `reply`, in the same order and with the
/// payload as it is.
pub fn replies(reply: &str, responses: Vec<Vec<u8>>) -> (out: Vec<Publish>)
    ensures
        publications(out@) == addressed(reply@, payloads(responses@)),
{
    let mut out: Vec<Publish> = Vec::new();
    for payload in it: responses
        invariant
            it.seq() == responses@,
            out.len() == it.index(),
            forall|k: int|
                0 <= k < out.len() ==> (#[trigger] out[k])@ == (PublishView {
                    subject: reply@,
                    payload: responses[k]@,
                }),
    {
        out.push(Publish { subject: String::from_str(reply), payload });
    }
    assert(publications(out@) =~= addressed(reply@, payloads(responses@)));
    out
}

/// What the dispatcher does once a request has been worked on. A request
/// that did not decode, or whose handler failed, ends the dispatcher. The
/// response of one that went well is published to the reply address as it
/// is, and the responses of a stream each as it is and in the order made;
/// without a reply address nothing is published and the lack is reported.
pub open spec fn settled(reply: Option<Seq<char>>, outcome: OutcomeView) -> VerdictView {
    match outcome {
        OutcomeView::DecodeFailed => VerdictView::Stop(ErrorKind::DecodeFailure),
        OutcomeView::HandlerFailed => VerdictView::Stop(ErrorKind::HandlerFailure),
        OutcomeView::Replied(response) => match reply {
            Some(address) => VerdictView::Publish(
                seq![PublishView { subject: address, payload: response }],
            ),
            None => VerdictView::Report(ErrorKind::UnaddressableReply),
        },
        OutcomeView::Streamed(responses) => match reply {
            Some(address) => VerdictView::Publish(addressed(address, responses)),
            None => VerdictView::Report(ErrorKind::UnaddressableReply),
        },
    }
}

/// The reply address of a message, as text.
pub open spec fn address_of(reply: Option<String>) -> Option<Seq<char>> {
    match reply {
        Some(address) => Some(address@),
        None => None,
    }
}

/// Decide what to do once a request has been worked on: `reply` is the
/// address that its message gave to reply to, `outcome` what the work came to.
pub fn settle(reply: Option<String>, outcome: Outcome) -> (verdict: Verdict)
    ensures
        verdict@ == settled(address_of(reply), outcome@),
{
    match outcome {
        Outcome::DecodeFailed => Verdict::Stop(ErrorKind::DecodeFailure),
        Outcome::HandlerFailed => Verdict::Stop(ErrorKind::HandlerFailure),
        Outcome::Replied(response) => match reply {
            Some(address) => {
                let mut list: Vec<Publish> = Vec::new();
                list.push(Publish { subject: address, payload: response });
                assert(publications(list@) =~= seq![list[0]@]);
                Verdict::Publish(list)
            },
            None => Verdict::Report(ErrorKind::UnaddressableReply),
        },
        Outcome::Streamed(responses) => match reply {
            Some(address) => Verdict::Publish(replies(address.as_str(), responses)),
            None => Verdict::Report(ErrorKind::UnaddressableReply),
        },
    }
}

/// A message that came in, with what working on its request comes to.
#[derive(Clone, Debug, PartialEq, Eq)]
pub struct Delivery {
    /// The subject that the message came in on.
    pub subject: String,
    /// The payload that the message carried: the request, encoded. It is
    /// decoded as it is, with nothing taken off and nothing added.
    pub payload: Vec<u8>,
    /// The address that the message gave to reply to, if any.
    pub reply: Option<String>,
    /// What decoding the request and calling the handler come to. It counts
    /// only where a call has the subject.
    pub outcome: Outcome,
}

/// What a [`Delivery`] holds.
pub struct DeliveryView {
    pub subject: Seq<char>,
    pub payload: Seq<u8>,
    pub reply: Option<Seq<char>>,
    pub outcome: OutcomeView,
}

impl View for Delivery {
    type V = DeliveryView;

    open spec fn view(&self) -> DeliveryView {
        DeliveryView {
            subject: self.subject@,
            payload: self.payload@,
            reply: address_of(self.reply),
            outcome: self.outcome@,
        }
    }
}

/// The views of a run of deliveries, one for one.
pub open spec fn deliveries_of(list: Seq<Delivery>) -> Seq<DeliveryView> {
    Seq::new(list.len(), |i: int| list[i]@)
}

/// What a dispatcher has done so far.
#[derive(Clone, Debug, PartialEq, Eq)]
pub struct Trace {
    /// What it published, in order.
    pub published: Vec<Publish>,
    /// What it reported to the operator, in order.
    pub reported: Vec<ErrorKind>,
    /// The failure that ended it, if one did.
    pub stopped: Option<ErrorKind>,
}

/// What a [`Trace`] holds.
pub struct TraceView {
    pub published: Seq<PublishView>,
    pub reported: Seq<ErrorKind>,
    pub stopped: Option<ErrorKind>,
}

impl View for Trace {
    type V = TraceView;

    open spec fn view(&self) -> TraceView {
        TraceView {
            published: publications(self.published@),
            reported: self.reported@,
            stopped: self.stopped,
        }
    }
}

/// What the dispatcher does about one message: a message on a subject that
/// no call has is reported, and any other is settled by what its request
/// came to.
pub open spec fn verdict_on(
    suffixes: Seq<Seq<char>>,
    prefix: Seq<char>,
    delivery: DeliveryView,
) -> VerdictView {
    if routable(suffixes, prefix, delivery.subject) {
        settled(delivery.reply, delivery.outcome)
    } else {
        VerdictView::Report(ErrorKind::UnroutableSubject)
    }
}

/// A trace with what `verdict` adds to it.
pub open spec fn extended(trace: TraceView, verdict: VerdictView) -> TraceView {
    match verdict {
        VerdictView::Publish(list) => TraceView { published: trace.published + list, ..trace },
        VerdictView::Report(kind) => TraceView { reported: trace.reported.push(kind), ..trace },
        VerdictView::Stop(kind) => TraceView { stopped: Some(kind), ..trace },
    }
}

/// What a dispatcher with the calls `suffixes` under `prefix` does with
/// `deliveries`, taken one at a time and in order, until a failure ends it:
/// what comes in after that is not looked at.
pub open spec fn run(
    suffixes: Seq<Seq<char>>,
    prefix: Seq<char>,
    deliveries: Seq<DeliveryView>,
) -> TraceView
    decreases deliveries.len(),
{
    if deliveries.len() == 0 {
        TraceView { published: Seq::empty(), reported: Seq::empty(), stopped: None }
    } else {
        let so_far = run(suffixes, prefix, deliveries.drop_last());
        if so_far.stopped is Some {
            so_far
        } else {
            extended(so_far, verdict_on(suffixes, prefix, deliveries.last()))
        }
    }
}

/// Go through `deliveries` as a dispatcher with the calls `suffixes` under
/// `prefix` does, and say what it publishes and reports and whether it ends.
pub fn replay(suffixes: &Vec<String>, prefix: &str, deliveries: Vec<Delivery>) -> (trace: Trace)
    ensures
        trace@ == run(texts(suffixes@), prefix@, deliveries_of(deliveries@)),
{
    let mut trace = Trace { published: Vec::new(), reported: Vec::new(), stopped: None };
    assert(publications(trace.published@) =~= Seq::empty());
    for delivery in it: deliveries
        invariant
            it.seq() == deliveries@,
            trace@ == run(
                texts(suffixes@),
                prefix@,
                deliveries_of(deliveries@).take(it.index() as int),
            ),
    {
        proof {
            let done = deliveries_of(deliveries@).take(it.index() as int);
            let next = deliveries_of(deliveries@).take(it.index() + 1);
            assert(next.drop_last() =~= done);
            assert(next.last() == delivery@);
        }
        if trace.stopped.is_none() {
            let ghost before = trace@;
            match route(suffixes, prefix, delivery.subject.as_str()) {
                None => {
                    trace.reported.push(ErrorKind::UnroutableSubject);
                },
                Some(_) => match settle(delivery.reply, delivery.outcome) {
                    Verdict::Publish(mut list) => {
                        let ghost added = publications(list@);
                        let ghost old_published = trace.published@;
                        trace.published.append(&mut list);
                        assert(publications(trace.published@) =~= publications(old_published)
                            + added);
                    },
                    Verdict::Report(kind) => {
                        trace.reported.push(kind);
                    },
                    Verdict::Stop(kind) => {
                        trace.stopped = Some(kind);
                    },
                },
            }
            assert(trace@ == extended(
                before,
                verdict_on(texts(suffixes@), prefix@, delivery@),
            ));
        }
    }
    assert(deliveries_of(deliveries@).take(deliveries@.len() as int) =~= deliveries_of(
        deliveries@,
    ));
    trace
}

/// The verdict on a request whose handler made one response: with a reply
/// address exactly one reply is published, addressed there and carrying the
/// response as it is; without one none is published, and the lack is
/// reported.
pub proof fn lemma_one_reply_where_there_is_an_address(
    reply: Option<Seq<char>>,
    response: Seq<u8>,
)
    ensures
        match settled(reply, OutcomeView::Replied(response)) {
            VerdictView::Publish(list) => {
                &&& reply is Some
                &&& list.len() == 1
                &&& list[0] == PublishView { subject: reply->0, payload: response }
            },
            VerdictView::Report(kind) => reply is None && kind == ErrorKind::UnaddressableReply,
            VerdictView::Stop(_) => false,
        },
{
}

/// Over a whole run: a request that a call has the subject of, and whose
/// handler made one response, adds exactly one publication to what the
/// dispatcher published before it where it has a reply address, and none
/// where it has not. Either way the dispatcher goes on.
pub proof fn lemma_a_served_request_adds_its_reply(
    suffixes: Seq<Seq<char>>,
    prefix: Seq<char>,
    before: Seq<DeliveryView>,
    request: DeliveryView,
)
    requires
        run(suffixes, prefix, before).stopped is None,
        routable(suffixes, prefix, request.subject),
        request.outcome is Replied,
    ensures
        run(suffixes, prefix, before.push(request)).stopped is None,
        request.reply is Some ==> run(suffixes, prefix, before.push(request)).published == run(
            suffixes,
            prefix,
            before,
        ).published.push(
            PublishView { subject: request.reply->0, payload: request.outcome->Replied_0 },
        ),
        request.reply is None ==> run(suffixes, prefix, before.push(request)).published == run(
            suffixes,
            prefix,
            before,
        ).published,
{
    let so_far = run(suffixes, prefix, before);
    assert(before.push(request).drop_last() =~= before);
    if request.reply is Some {
        let reply = PublishView { subject: request.reply->0, payload: request.outcome->Replied_0 };
        assert(so_far.published + seq![reply] =~= so_far.published.push(reply));
    }
}

/// The responses of a streaming call are published one for one and in the
/// order in which the handler made them, each to the reply address and as it
/// is, and nothing else is published.
pub proof fn lemma_replies_follow_the_responses(address: Seq<char>, responses: Seq<Seq<u8>>)
    ensures
        settled(Some(address), OutcomeView::Streamed(responses)) == VerdictView::Publish(
            addressed(address, responses),
        ),
        addressed(address, responses).len() == responses.len(),
        forall|i: int|
            0 <= i < responses.len() ==> (#[trigger] addressed(address, responses)[i])
                == (PublishView { subject: address, payload: responses[i] }),
{
}

/// Only what is fatal ends a dispatcher, and what is fatal is never just
/// reported.
pub proof fn lemma_a_verdict_stops_on_fatal_failures_only(
    suffixes: Seq<Seq<char>>,
    prefix: Seq<char>,
    delivery: DeliveryView,
)
    ensures
        match verdict_on(suffixes, prefix, delivery) {
            VerdictView::Stop(kind) => kind.fatal(),
            VerdictView::Report(kind) => !kind.fatal(),
            VerdictView::Publish(_) => true,
        },
{
}

/// Once a dispatcher has ended, what comes in later changes nothing.
pub proof fn lemma_nothing_follows_a_stop(
    suffixes: Seq<Seq<char>>,
    prefix: Seq<char>,
    before: Seq<DeliveryView>,
    after: Seq<DeliveryView>,
)
    requires
        run(suffixes, prefix, before).stopped is Some,
    ensures
        run(suffixes, prefix, before + after) == run(suffixes, prefix, before),
    decreases after.len(),
{
    if after.len() == 0 {
        assert(before + after =~= before);
    } else {
        assert((before + after).drop_last() =~= before + after.drop_last());
        lemma_nothing_follows_a_stop(suffixes, prefix, before, after.drop_last());
    }
}

/// A message on a subject that no call has is reported and passed over: the
/// dispatcher does not end on it, and what it publishes for the messages
/// around it, and whether and how it ends, is what it would be had the
/// message never come in.
pub proof fn lemma_a_stray_message_is_passed_over(
    suffixes: Seq<Seq<char>>,
    prefix: Seq<char>,
    before: Seq<DeliveryView>,
    stray: DeliveryView,
    after: Seq<DeliveryView>,
)
    requires
        !routable(suffixes, prefix, stray.subject),
    ensures
        verdict_on(suffixes, prefix, stray) == VerdictView::Report(ErrorKind::UnroutableSubject),
        run(suffixes, prefix, before.push(stray)).stopped == run(suffixes, prefix, before).stopped,
        run(suffixes, prefix, before.push(stray) + after).published == run(
            suffixes,
            prefix,
            before + after,
        ).published,
        run(suffixes, prefix, before.push(stray) + after).stopped == run(
            suffixes,
            prefix,
            before + after,
        ).stopped,
    decreases after.len(),
{
    assert(before.push(stray).drop_last() =~= before);
    if after.len() == 0 {
        assert(before.push(stray) + after =~= before.push(stray));
        assert(before + after =~= before);
    } else {
        let earlier = after.drop_last();
        assert((before.push(stray) + after).drop_last() =~= before.push(stray) + earlier);
        assert((before + after).drop_last() =~= before + earlier);
        lemma_a_stray_message_is_passed_over(suffixes, prefix, before, stray, earlier);
    }
}

/// A request reaches a handler: the subject on which a client calls a
/// method of a service is one that the service's dispatcher routes, whenever
/// the prefixes of the two are the same once trimmed. The dots that either
/// side put at the end of its prefix do not matter.
pub proof fn lemma_a_call_reaches_a_handler(
    calls: Seq<MethodView>,
    client_prefix: Seq<char>,
    server_prefix: Seq<char>,
    i: int,
)
    requires
        0 <= i < calls.len(),
        trimmed(client_prefix) == trimmed(server_prefix),
    ensures
        routable(
            suffixes_of(calls),
            server_prefix,
            method_subject_of(client_prefix, calls[i].name),
        ),
{
    assert(suffixes_of(calls)[i] == subject_suffix_of(calls[i].name));
}

} // verus!

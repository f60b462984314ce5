//! Which methods are calls and which are notifications.

use crate::model::{method_views, Method, MethodView};
use crate::text::starts_with;
use vstd::prelude::*;

verus! {

/// The messaging pattern of a method.
#[derive(Clone, Copy, Debug, PartialEq, Eq, Structural)]
pub enum MethodType {
    /// A notification: published to whoever listens, no reply expected.
    PubSub,
    /// A call: the caller expects a reply, or a stream of replies.
    RequestResponse,
}

/// A method whose identifier begins with this is a notification.
pub const NOTIFICATION_PREFIX: &'static str = "subscribe";

/// The pattern of the method named `name`: a notification where the name
/// begins with `subscribe`, in exactly this spelling, and a call otherwise.
pub open spec fn method_type_of(name: Seq<char>) -> MethodType {
    if NOTIFICATION_PREFIX@.is_prefix_of(name) {
        MethodType::PubSub
    } else {
        MethodType::RequestResponse
    }
}

/// The methods of `methods` whose pattern is `desired`, in their order.
pub open spec fn methods_of_type(methods: Seq<MethodView>, desired: MethodType) -> Seq<MethodView>
    decreases methods.len(),
{
    if methods.len() == 0 {
        Seq::empty()
    } else if method_type_of(methods.last().name) == desired {
        methods_of_type(methods.drop_last(), desired).push(methods.last())
    } else {
        methods_of_type(methods.drop_last(), desired)
    }
}

/// The views of a run of borrowed methods, one for one.
pub open spec fn borrowed_method_views(methods: Seq<&Method>) -> Seq<MethodView> {
    Seq::new(methods.len(), |i: int| methods[i]@)
}

/// The pattern of `method`, read off its name.
pub fn get_method_type(method: &Method) -> (kind: MethodType)
    ensures
        kind == method_type_of(method@.name),
{
    if starts_with(method.name.as_str(), NOTIFICATION_PREFIX) {
        MethodType::PubSub
    } else {
        MethodType::RequestResponse
    }
}

/// Filter methods, returning methods of the provided [`MethodType`].
pub fn filter_methods_by_type(methods: &[Method], desired_type: MethodType) -> (out: Vec<&Method>)
    ensures
        borrowed_method_views(out@) == methods_of_type(method_views(methods@), desired_type),
{
    let mut out: Vec<&Method> = Vec::new();
    let mut i: usize = 0;
    while i < methods.len()
        invariant
            i <= methods.len(),
            borrowed_method_views(out@) == methods_of_type(
                method_views(methods@).subrange(0, i as int),
                desired_type,
            ),
        decreases methods.len() - i,
    {
        proof {
            let done = method_views(methods@).subrange(0, i as int);
            let next = method_views(methods@).subrange(0, i + 1);
            assert(next.drop_last() =~= done);
            assert(next.last() == methods[i as int]@);
        }
        let method = &methods[i];
        if get_method_type(method) == desired_type {
            out.push(method);
            assert(borrowed_method_views(out@) =~= methods_of_type(
                method_views(methods@).subrange(0, i as int),
                desired_type,
            ).push(method@));
        }
        i += 1;
    }
    assert(method_views(methods@).subrange(0, methods.len() as int) =~= method_views(methods@));
    out
}

/// Filtering keeps exactly the methods of the type asked for: each method
/// that is kept has that type and was among the methods, and each method of
/// that type among the methods is kept.
pub proof fn lemma_filter_keeps_the_type_asked_for(methods: Seq<MethodView>, desired: MethodType)
    ensures
        forall|method: MethodView|
            #[trigger] methods_of_type(methods, desired).contains(method) <==> methods.contains(
                method,
            ) && method_type_of(method.name) == desired,
    decreases methods.len(),
{
    if methods.len() > 0 {
        let rest = methods.drop_last();
        let kept = methods_of_type(rest, desired);
        lemma_filter_keeps_the_type_asked_for(rest, desired);
        assert forall|method: MethodView| #[trigger]
            methods_of_type(methods, desired).contains(method) <==> methods.contains(method)
                && method_type_of(method.name) == desired by {
            if methods.contains(method) {
                let i = choose|i: int| 0 <= i < methods.len() && methods[i] == method;
                if i < rest.len() {
                    assert(rest[i] == method);
                }
            }
            if rest.contains(method) {
                let i = choose|i: int| 0 <= i < rest.len() && rest[i] == method;
                assert(methods[i] == method);
            }
            if method_type_of(methods.last().name) == desired {
                if kept.contains(method) {
                    let i = choose|i: int| 0 <= i < kept.len() && kept[i] == method;
                    assert(kept.push(methods.last())[i] == method);
                }
                assert(kept.push(methods.last())[kept.len() as int] == methods.last());
            }
        }
    }
}

/// Methods that are all of the type asked for pass the filter unchanged.
pub proof fn lemma_filter_keeps_a_pure_run(methods: Seq<MethodView>, desired: MethodType)
    requires
        forall|i: int| 0 <= i < methods.len() ==> method_type_of(methods[i].name) == desired,
    ensures
        methods_of_type(methods, desired) == methods,
    decreases methods.len(),
{
    if methods.len() > 0 {
        lemma_filter_keeps_a_pure_run(methods.drop_last(), desired);
        assert(methods.drop_last().push(methods.last()) =~= methods);
    }
}

/// Filtering what was filtered changes nothing.
pub proof fn lemma_filtering_twice_is_filtering_once(methods: Seq<MethodView>, desired: MethodType)
    ensures
        methods_of_type(methods_of_type(methods, desired), desired) == methods_of_type(
            methods,
            desired,
        ),
{
    let kept = methods_of_type(methods, desired);
    lemma_filter_keeps_the_type_asked_for(methods, desired);
    assert forall|i: int| 0 <= i < kept.len() implies method_type_of(kept[i].name) == desired by {
        assert(kept.contains(kept[i]));
    }
    lemma_filter_keeps_a_pure_run(kept, desired);
}

} // verus!

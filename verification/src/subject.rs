//! Subjects: where on the bus a method is called.
//!
//! A subject is a prefix, one `.`, and the method's suffix. The prefix is
//! the server's or the client's own and may be given with or without dots at
//! its end: they are dropped before the join.
//!
//! The generated code does not call these functions: it trims and joins in
//! its own words, when it runs. What it shares with them is written into it
//! from here: the default prefix, the delimiter, and the tail that follows
//! the prefix ([`tail_of`], [`wildcard_tail`]).

use crate::naming::{convert_method_to_subject, subject_suffix_of};
use vstd::prelude::*;
use vstd::string::*;

verus! {

/// The prefix of a client or a server that names none of its own.
pub const DEFAULT_SUBJECT_PREFIX: &'static str = "nats.proto";

/// What parts the levels of a subject.
pub const DELIMITER: &'static str = ".";

/// What stands for every deeper level in a subscription.
pub const WILDCARD: &'static str = ">";

/// `prefix` without the dots at its end.
pub open spec fn trimmed(prefix: Seq<char>) -> Seq<char>
    decreases prefix.len(),
{
    if prefix.len() > 0 && prefix.last() == '.' {
        trimmed(prefix.drop_last())
    } else {
        prefix
    }
}

/// The subject of `suffix` under `prefix`.
pub open spec fn subject_of(prefix: Seq<char>, suffix: Seq<char>) -> Seq<char> {
    trimmed(prefix) + seq!['.'] + suffix
}

/// The subject on which the method `method` is called under `prefix`.
pub open spec fn method_subject_of(prefix: Seq<char>, method: Seq<char>) -> Seq<char> {
    subject_of(prefix, subject_suffix_of(method))
}

/// The pattern that takes in every subject under `prefix`.
pub open spec fn subscription_of(prefix: Seq<char>) -> Seq<char> {
    trimmed(prefix) + seq!['.'] + seq!['>']
}

/// What follows the trimmed prefix in the subject of `suffix`: the
/// delimiter and the suffix.
pub open spec fn tail_of(suffix: Seq<char>) -> Seq<char> {
    DELIMITER@ + suffix
}

/// What follows the trimmed prefix in a subscription: the delimiter and the
/// wildcard.
pub open spec fn wildcard_tail() -> Seq<char> {
    DELIMITER@ + WILDCARD@
}

/// Write what follows the trimmed prefix in the subject of `suffix`.
pub fn subject_tail(suffix: &str) -> (out: String)
    ensures
        out@ == tail_of(suffix@),
{
    let mut out = String::from_str(DELIMITER);
    out.append(suffix);
    out
}

/// Write what follows the trimmed prefix in a subscription.
pub fn subscription_tail() -> (out: String)
    ensures
        out@ == wildcard_tail(),
{
    let mut out = String::from_str(DELIMITER);
    out.append(WILDCARD);
    out
}

/// Drop the dots at the end of `prefix`.
pub fn trim_prefix(prefix: &str) -> (out: &str)
    ensures
        out@ == trimmed(prefix@),
{
    let mut n = prefix.unicode_len();
    assert(prefix@.subrange(0, n as int) =~= prefix@);
    while n > 0 && prefix.get_char(n - 1) == '.'
        invariant
            n <= prefix@.len(),
            trimmed(prefix@) == trimmed(prefix@.subrange(0, n as int)),
        decreases n,
    {
        assert(prefix@.subrange(0, n as int).drop_last() =~= prefix@.subrange(0, n - 1));
        n -= 1;
    }
    prefix.substring_char(0, n)
}

/// Join `prefix` and `suffix` into a subject.
pub fn compose_subject(prefix: &str, suffix: &str) -> (out: String)
    ensures
        out@ == subject_of(prefix@, suffix@),
{
    let tail = subject_tail(suffix);
    let mut out = String::from_str(trim_prefix(prefix));
    out.append(tail.as_str());
    proof {
        lemma_a_subject_is_its_prefix_and_its_tail(prefix@, suffix@);
    }
    out
}

/// The subject on which the method `method` is called under `prefix`.
pub fn method_subject(prefix: &str, method: &str) -> (out: String)
    ensures
        out@ == method_subject_of(prefix@, method@),
{
    let suffix = convert_method_to_subject(method);
    compose_subject(prefix, suffix.as_str())
}

/// The pattern to subscribe to for every subject under `prefix`.
pub fn subscription_subject(prefix: &str) -> (out: String)
    ensures
        out@ == subscription_of(prefix@),
{
    let tail = subscription_tail();
    let mut out = String::from_str(trim_prefix(prefix));
    out.append(tail.as_str());
    proof {
        lemma_a_subject_is_its_prefix_and_its_tail(prefix@, Seq::empty());
    }
    out
}

/// A subject is the trimmed prefix and the tail of its suffix, and a
/// subscription is the trimmed prefix and the wildcard tail; the delimiter is
/// one dot, and the default prefix does not end in one.
pub proof fn lemma_a_subject_is_its_prefix_and_its_tail(prefix: Seq<char>, suffix: Seq<char>)
    ensures
        DELIMITER@ == seq!['.'],
        subject_of(prefix, suffix) == trimmed(prefix) + tail_of(suffix),
        subscription_of(prefix) == trimmed(prefix) + wildcard_tail(),
        trimmed(DEFAULT_SUBJECT_PREFIX@) == DEFAULT_SUBJECT_PREFIX@,
{
    reveal_strlit(".");
    reveal_strlit(">");
    reveal_strlit("nats.proto");
    assert(DELIMITER@ =~= seq!['.']);
    assert(WILDCARD@ =~= seq!['>']);
    assert(subject_of(prefix, suffix) =~= trimmed(prefix) + tail_of(suffix));
    assert(subscription_of(prefix) =~= trimmed(prefix) + wildcard_tail());
}

/// A text of dots only.
pub open spec fn all_dots(text: Seq<char>) -> bool {
    forall|i: int| 0 <= i < text.len() ==> text[i] == '.'
}

/// What trimming leaves is the beginning of the prefix, does not end in a
/// dot, and is followed in the prefix by dots only.
pub proof fn lemma_trimmed_is_the_prefix_without_its_last_dots(prefix: Seq<char>)
    ensures
        trimmed(prefix).len() <= prefix.len(),
        trimmed(prefix) == prefix.subrange(0, trimmed(prefix).len() as int),
        all_dots(prefix.subrange(trimmed(prefix).len() as int, prefix.len() as int)),
        trimmed(prefix).len() > 0 ==> trimmed(prefix).last() != '.',
    decreases prefix.len(),
{
    if prefix.len() > 0 && prefix.last() == '.' {
        let shorter = prefix.drop_last();
        lemma_trimmed_is_the_prefix_without_its_last_dots(shorter);
        let n = trimmed(prefix).len() as int;
        assert(shorter.subrange(0, n) =~= prefix.subrange(0, n));
        assert forall|i: int| 0 <= i < prefix.len() - n implies prefix.subrange(
            n,
            prefix.len() as int,
        )[i] == '.' by {
            if i < shorter.len() - n {
                assert(shorter.subrange(n, shorter.len() as int)[i] == '.');
            }
        }
    } else {
        assert(prefix.subrange(0, prefix.len() as int) =~= prefix);
    }
}

/// Dots at the end of a prefix change nothing: with any number of them the
/// prefix trims to the same text.
pub proof fn lemma_trailing_dots_are_dropped(prefix: Seq<char>, dots: Seq<char>)
    requires
        all_dots(dots),
    ensures
        trimmed(prefix + dots) == trimmed(prefix),
    decreases dots.len(),
{
    if dots.len() == 0 {
        assert(prefix + dots =~= prefix);
    } else {
        let fewer = dots.drop_last();
        assert(dots.last() == '.');
        assert((prefix + dots).last() == '.');
        assert((prefix + dots).drop_last() =~= prefix + fewer);
        lemma_trailing_dots_are_dropped(prefix, fewer);
    }
}

/// Trimming a trimmed prefix changes nothing.
pub proof fn lemma_trimming_twice_is_trimming_once(prefix: Seq<char>)
    ensures
        trimmed(trimmed(prefix)) == trimmed(prefix),
{
    lemma_trimmed_is_the_prefix_without_its_last_dots(prefix);
}

/// However many dots the prefix was given with at its end, a subject holds
/// exactly one dot at the join. The subject of a suffix is the same under a
/// prefix, under that prefix with dots added, and under that prefix already
/// trimmed. Before the join stands the trimmed prefix, which does not end in
/// a dot; at the join stands one dot; and after it stands the suffix,
/// unchanged, so that no second dot follows unless the suffix brought one.
pub proof fn lemma_one_delimiter_at_the_join(prefix: Seq<char>, dots: Seq<char>, suffix: Seq<char>)
    requires
        all_dots(dots),
    ensures
        subject_of(prefix + dots, suffix) == subject_of(prefix, suffix),
        subject_of(trimmed(prefix), suffix) == subject_of(prefix, suffix),
        subject_of(prefix, suffix).len() == trimmed(prefix).len() + 1 + suffix.len(),
        subject_of(prefix, suffix).subrange(0, trimmed(prefix).len() as int) == trimmed(prefix),
        trimmed(prefix).len() > 0 ==> subject_of(prefix, suffix)[trimmed(prefix).len() - 1] != '.',
        subject_of(prefix, suffix)[trimmed(prefix).len() as int] == '.',
        subject_of(prefix, suffix).subrange(
            trimmed(prefix).len() as int + 1,
            subject_of(prefix, suffix).len() as int,
        ) == suffix,
        suffix.len() > 0 && suffix[0] != '.' ==> subject_of(prefix, suffix)[trimmed(
            prefix,
        ).len() as int + 1] != '.',
{
    lemma_trailing_dots_are_dropped(prefix, dots);
    lemma_trimmed_is_the_prefix_without_its_last_dots(prefix);
    let join = trimmed(prefix).len() as int;
    let subject = subject_of(prefix, suffix);
    assert(subject.subrange(0, join) =~= trimmed(prefix));
    assert(subject.subrange(join + 1, subject.len() as int) =~= suffix);
}

/// A subscription takes in the subject of every suffix under its prefix: the
/// pattern and the subject agree up to and with the dot at the join.
pub proof fn lemma_subscription_covers_every_subject(prefix: Seq<char>, suffix: Seq<char>)
    ensures
        subscription_of(prefix).drop_last() == subject_of(prefix, Seq::empty()),
        subscription_of(prefix).last() == '>',
        subject_of(prefix, Seq::empty()).is_prefix_of(subject_of(prefix, suffix)),
{
    let stem = subject_of(prefix, Seq::empty());
    assert(subscription_of(prefix).drop_last() =~= stem);
    assert(stem =~= subject_of(prefix, suffix).subrange(0, stem.len() as int));
}

} // verus!

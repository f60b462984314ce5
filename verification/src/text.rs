//! Small operations on text that the generator and the subject rules share.
//!
//! [`starts_with`] reads its texts character by character, and each read
//! walks the text from its start: the texts it is meant for are identifiers.

use vstd::prelude::*;
use vstd::string::*;

verus! {

/// What parts the pieces of code of two methods.
pub const LINE_BREAK: &'static str = "\n";

/// Whether `text` begins with `prefix`.
pub fn starts_with(text: &str, prefix: &str) -> (found: bool)
    ensures
        found == prefix@.is_prefix_of(text@),
{
    let n = prefix.unicode_len();
    if text.unicode_len() < n {
        return false;
    }
    let mut i: usize = 0;
    while i < n
        invariant
            n == prefix@.len(),
            n <= text@.len(),
            i <= n,
            forall|k: int| 0 <= k < i ==> text@[k] == prefix@[k],
        decreases n - i,
    {
        if text.get_char(i) != prefix.get_char(i) {
            assert(text@.subrange(0, n as int)[i as int] != prefix@[i as int]);
            return false;
        }
        i += 1;
    }
    assert(prefix@ =~= text@.subrange(0, n as int));
    true
}

/// Whether `left` and `right` are the same text. The two are compared byte
/// by byte: texts are the same where their UTF-8 encodings are.
pub fn same_text(left: &str, right: &str) -> (same: bool)
    ensures
        same == (left@ == right@),
{
    broadcast use vstd::utf8::encode_utf8_decode_utf8;

    let left_bytes = left.as_bytes();
    let right_bytes = right.as_bytes();
    if left_bytes.len() != right_bytes.len() {
        return false;
    }
    let mut i: usize = 0;
    while i < left_bytes.len()
        invariant
            left_bytes@ == left.spec_bytes(),
            right_bytes@ == right.spec_bytes(),
            left_bytes.len() == right_bytes.len(),
            i <= left_bytes.len(),
            forall|k: int| 0 <= k < i ==> left_bytes[k] == right_bytes[k],
        decreases left_bytes.len() - i,
    {
        if left_bytes[i] != right_bytes[i] {
            return false;
        }
        i += 1;
    }
    assert(left_bytes@ =~= right_bytes@);
    assert(vstd::utf8::decode_utf8(vstd::utf8::encode_utf8(left@)) == left@);
    assert(vstd::utf8::decode_utf8(vstd::utf8::encode_utf8(right@)) == right@);
    true
}

/// The texts of `parts` with `separator` between each two neighbours.
pub open spec fn joined(parts: Seq<Seq<char>>, separator: Seq<char>) -> Seq<char>
    decreases parts.len(),
{
    if parts.len() == 0 {
        Seq::empty()
    } else if parts.len() == 1 {
        parts[0]
    } else {
        joined(parts.drop_last(), separator) + separator + parts.last()
    }
}

/// The views of a run of strings, one for one.
pub open spec fn texts(parts: Seq<String>) -> Seq<Seq<char>> {
    Seq::new(parts.len(), |i: int| parts[i]@)
}

/// Join `parts` with `separator` between each two neighbours.
pub fn join(parts: &Vec<String>, separator: &str) -> (out: String)
    ensures
        out@ == joined(texts(parts@), separator@),
{
    let mut out = String::new();
    let mut i: usize = 0;
    while i < parts.len()
        invariant
            i <= parts.len(),
            out@ == joined(texts(parts@).subrange(0, i as int), separator@),
        decreases parts.len() - i,
    {
        proof {
            let done = texts(parts@).subrange(0, i as int);
            let next = texts(parts@).subrange(0, i + 1);
            assert(next.drop_last() =~= done);
            assert(next.last() == parts[i as int]@);
        }
        if i > 0 {
            out.append(separator);
        }
        out.append(parts[i].as_str());
        i += 1;
    }
    assert(texts(parts@).subrange(0, parts.len() as int) =~= texts(parts@));
    out
}

/// Whether `part` stands somewhere in `text`.
pub open spec fn holds(text: Seq<char>, part: Seq<char>) -> bool {
    exists|at: int| 0 <= at <= text.len() - part.len() && #[trigger] text.subrange(
        at,
        at + part.len(),
    ) == part
}

/// What is written between two texts stands in the whole.
pub proof fn lemma_the_middle_is_held(before: Seq<char>, part: Seq<char>, after: Seq<char>)
    ensures
        holds(before + part + after, part),
{
    let whole = before + part + after;
    let at = before.len() as int;
    assert(whole.subrange(at, at + part.len()) =~= part);
}

} // verus!

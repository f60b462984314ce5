//! From a method's identifier to the name of its generated function and to
//! the subject suffix it is called on.

use convert_case::{Case, Casing};
use vstd::prelude::*;
use vstd::string::*;

verus! {

/// The snake-case form of `text` as the `convert_case` crate computes it.
/// The crate parts the text into words at each `_`, `-` and space, between a
/// lower-case letter and an upper-case one, before the last capital of a run
/// of capitals that a lower-case letter follows, and between letters and
/// digits; it drops empty words, lower-cases the rest and joins them with
/// `_`. So `StartComponent` becomes `start_component`.
///
/// None of this is stated to the verifier: the name says only that the
/// result depends on the text and on nothing else.
pub uninterp spec fn snake_case(text: Seq<char>) -> Seq<char>;

/// Calls `convert_case::Casing::to_case` with `Case::Snake`, which does not
/// fail on any text. Nothing is proved of the call: the contract gives its
/// result the name [`snake_case`].
#[verifier::external_body]
fn to_snake_case(text: &str) -> (out: String)
    ensures
        out@ == snake_case(text@),
{
    text.to_case(Case::Snake)
}

/// The name of the function generated for the method `method`.
pub open spec fn function_name_of(method: Seq<char>) -> Seq<char> {
    snake_case(method)
}

/// `text` with `.` in place of every `_`.
pub open spec fn dotted(text: Seq<char>) -> Seq<char> {
    Seq::new(text.len(), |i: int| if text[i] == '_' { '.' } else { text[i] })
}

/// The subject suffix of the method `method`: its function name with the
/// words parted by `.`.
pub open spec fn subject_suffix_of(method: Seq<char>) -> Seq<char> {
    dotted(function_name_of(method))
}

/// Convert a method name to a function name.
pub fn convert_method_to_function(method: &str) -> (out: String)
    ensures
        out@ == function_name_of(method@),
{
    to_snake_case(method)
}

/// Replace every `_` of `text` by `.`.
pub fn dot_separated(text: &str) -> (out: String)
    ensures
        out@ == dotted(text@),
{
    let n = text.unicode_len();
    let mut out = String::new();
    let mut start: usize = 0;
    let mut i: usize = 0;
    while i < n
        invariant
            n == text@.len(),
            start <= i <= n,
            out@ == dotted(text@.subrange(0, start as int)),
            forall|k: int| start <= k < i ==> text@[k] != '_',
        decreases n - i,
    {
        if text.get_char(i) == '_' {
            out.append(text.substring_char(start, i));
            out.append(".");
            proof {
                reveal_strlit(".");
                assert(out@ =~= dotted(text@.subrange(0, i + 1)));
            }
            start = i + 1;
        }
        i += 1;
    }
    out.append(text.substring_char(start, n));
    proof {
        assert(out@ =~= dotted(text@));
    }
    out
}

/// Convert a method name to a NATS subject friendly name.
pub fn convert_method_to_subject(method: &str) -> (out: String)
    ensures
        out@ == subject_suffix_of(method@),
{
    let function_name = to_snake_case(method);
    dot_separated(function_name.as_str())
}

/// The function name and the subject suffix depend on the method's name and
/// on nothing else: the same name gives the same two texts, whenever and
/// wherever it is converted.
pub proof fn lemma_conversion_depends_on_the_name_alone(first: Seq<char>, second: Seq<char>)
    requires
        first == second,
    ensures
        function_name_of(first) == function_name_of(second),
        subject_suffix_of(first) == subject_suffix_of(second),
{
}

/// The subject suffix of a method is its function name, character for
/// character, but for a `.` wherever the function name has a `_`. So it holds
/// no `_`, and where the function name holds no `.` of its own, the suffix
/// has its dots exactly where the function name parts its words.
pub proof fn lemma_suffix_follows_the_function_name(function_name: Seq<char>)
    ensures
        dotted(function_name).len() == function_name.len(),
        forall|i: int|
            0 <= i < function_name.len() ==> #[trigger] dotted(function_name)[i]
                == if function_name[i] == '_' {
                '.'
            } else {
                function_name[i]
            },
        !dotted(function_name).contains('_'),
        !function_name.contains('.') ==> forall|i: int|
            0 <= i < function_name.len() ==> (#[trigger] dotted(function_name)[i] == '.'
                <==> function_name[i] == '_'),
{
}

/// A function name of one word is its own subject suffix: with no `_` to
/// replace, the suffix has no delimiter that the name did not have.
pub proof fn lemma_a_single_word_is_its_own_suffix(function_name: Seq<char>)
    requires
        !function_name.contains('_'),
    ensures
        dotted(function_name) == function_name,
{
    assert forall|i: int| 0 <= i < function_name.len() implies dotted(function_name)[i]
        == function_name[i] by {
        assert(function_name.contains(function_name[i]));
    }
    assert(dotted(function_name) =~= function_name);
}

} // verus!

//! The textual form of a cell and of a guard: a label, then the contents'
//! own `Debug` text between round brackets.
use vstd::prelude::*;

verus! {

/// `label`, an opening bracket, `inner`, a closing bracket.
pub open spec fn bracketed(label: Seq<char>, inner: Seq<char>) -> Seq<char> {
    label + seq!['('] + inner + seq![')']
}

/// Builds the text `label(inner)`.
pub fn bracket(label: &str, inner: &str) -> (text: String)
    ensures
        text@ == bracketed(label@, inner@),
{
    let mut text = String::from_str(label);
    text.append("(");
    text.append(inner);
    text.append(")");
    proof {
        reveal_strlit("(");
        reveal_strlit(")");
        assert("("@ =~= seq!['(']);
        assert(")"@ =~= seq![')']);
    }
    text
}

/// Calls `value`'s `Debug` implementation through `format!("{:?}", ..)`.
///
/// Nothing is claimed of the text: it is whatever the implementation of
/// `Debug` for `T` writes.
#[verifier::external_body]
pub(crate) fn debug_text<T: core::fmt::Debug>(value: &T) -> (text: String) {
    format!("{:?}", value)
}

} // verus!

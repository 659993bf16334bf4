//! Text, as the standard library rewrites it.
//!
//! Verus takes the contract of the function here on trust.
use vstd::prelude::*;

verus! {

/// `text` with `to` in place of each `from`.
pub open spec fn spec_replaced(text: Seq<char>, from: char, to: Seq<char>) -> Seq<char>
    decreases text.len(),
{
    if text.len() == 0 {
        text
    } else if text.last() == from {
        spec_replaced(text.drop_last(), from, to) + to
    } else {
        spec_replaced(text.drop_last(), from, to).push(text.last())
    }
}

/// Calls `str::replace` with a character as the pattern.
///
/// Trusted: `str::replace` puts `to` in place of every match of the
/// pattern and keeps the rest, and a character matches where it occurs.
#[verifier::external_body]
pub(crate) fn replaced(text: &str, from: char, to: &str) -> (out: String)
    ensures
        out@ == spec_replaced(text@, from, to@),
{
    text.replace(from, to)
}

} // verus!

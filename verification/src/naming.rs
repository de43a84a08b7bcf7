//! The name under which the table of a kind is kept.
//!
//! Code that declares a kind keeps its table in one place for the whole process,
//! under a name made from the name of the kind.

use vstd::prelude::*;

verus! {

/// The upper-case form of a text, as `str::to_uppercase` gives it.
pub uninterp spec fn uppercase_of(text: Seq<char>) -> Seq<char>;

/// `str::to_uppercase` of std, which maps each character by the Unicode tables,
/// whatever the locale. Claimed: only that the result is a function of the text.
#[verifier::external_body]
fn upper_case(text: &str) -> (upper: String)
    ensures
        upper@ == uppercase_of(text@),
{
    text.to_uppercase()
}

/// What is put behind the upper-case name of a kind.
pub open spec fn interner_suffix() -> Seq<char> {
    seq!['_', 'I', 'N', 'T', 'E', 'R', 'N', 'E', 'R']
}

/// Puts the suffix behind a name that is in upper case already.
pub fn with_interner_suffix(upper: String) -> (name: String)
    ensures
        name@ == upper@ + interner_suffix(),
{
    let mut name = upper;
    name.append("_INTERNER");
    proof {
        reveal_strlit("_INTERNER");
        assert("_INTERNER"@ == interner_suffix());
    }
    name
}

/// The name of the table of the kind called `kind_name`: the name in upper case,
/// then `_INTERNER`.
pub fn interner_name(kind_name: &str) -> (name: String)
    ensures
        name@ == uppercase_of(kind_name@) + interner_suffix(),
{
    with_interner_suffix(upper_case(kind_name))
}

} // verus!

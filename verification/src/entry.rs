//! The boundary to `bevy_ecs::intern`, which supplies the interning table.
//!
//! Nothing in this file is proved. Each item says what the source of `bevy_ecs`
//! shows of the item it stands for, and every contract in the rest of the library
//! rests on these.

use bevy_ecs::intern::{Interned, Interner};
use vstd::prelude::*;

verus! {

/// `bevy_ecs::intern::Interned`: a reference to a value that lives until the
/// process ends. Nothing inside it is visible to a proof; two of them are the same
/// value when they refer to the same place.
#[verifier::external_type_specification]
#[verifier::external_body]
#[verifier::reject_recursive_types(T)]
pub struct ExInterned<T: ?Sized + 'static>(Interned<T>);

/// `bevy_ecs::intern::Interner`: a set of interned values behind a lock. Nothing
/// inside it is visible to a proof.
#[verifier::external_type_specification]
#[verifier::external_body]
#[verifier::reject_recursive_types(T)]
pub struct ExInterner<T: ?Sized + 'static>(Interner<T>);

/// The text that an entry refers to. The text is never written to again, so it
/// depends on the entry alone.
pub uninterp spec fn interned_text(entry: Interned<str>) -> Seq<char>;

/// The entries of a table, each under its text.
///
/// A table is filled through a shared reference, only grows, and never replaces
/// an entry. So the map stands for all that the table comes to hold, not for what
/// it holds at one moment: that a text has an entry is learned only from the call
/// that returned the entry, and nothing says that a text has none.
pub uninterp spec fn table_entries(table: Interner<str>) -> Map<Seq<char>, Interned<str>>;

/// `Interner::new`: an empty table. Nothing is claimed of the result, since no
/// contract can say what a table does not hold.
#[verifier::external_body]
pub(crate) fn new_table() -> Interner<str> {
    Interner::new()
}

/// `Interner::intern` on `str`. It looks the text up by content and returns the
/// entry found; where there is none, it leaks a copy of the text, inserts that and
/// returns it. It takes the lock itself and goes on after a poisoned one.
///
/// Claimed: the entry returned refers to a text equal to the one given, and it is
/// the entry that the table holds under this text.
#[verifier::external_body]
pub(crate) fn intern_text(table: &Interner<str>, text: &str) -> (entry: Interned<str>)
    ensures
        interned_text(entry) == text@,
        table_entries(*table).contains_pair(text@, entry),
{
    table.intern(text)
}

/// The public field of `Interned`: the reference it wraps.
///
/// Claimed: what it refers to is the text of the entry.
#[verifier::external_body]
pub(crate) fn entry_text(entry: &Interned<str>) -> (text: &'static str)
    ensures
        text@ == interned_text(*entry),
{
    entry.0
}

/// `Interned::eq`, which for `str` compares the address and the length of the two
/// references and never what they refer to.
///
/// Claimed: the result is true exactly when the two are the same entry.
#[verifier::external_body]
pub(crate) fn same_entry(a: &Interned<str>, b: &Interned<str>) -> (same: bool)
    ensures
        same == (*a == *b),
{
    a == b
}

} // verus!

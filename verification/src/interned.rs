//! The interning table of one kind of identifier, and the identifier itself.

use crate::entry::{entry_text, intern_text, interned_text, new_table, same_entry, table_entries};
use bevy_ecs::intern::{Interned, Interner};
use core::marker::PhantomData;
use vstd::prelude::*;
use vstd::std_specs::cmp::PartialEqSpecImpl;

verus! {

/// The table in which the texts of one kind of identifier are interned, with the
/// name of that kind. `K` is a marker type: tables and identifiers of two markers
/// are of two types, and nothing compares one with the other.
///
/// A kind has one table, kept for as long as the process runs. The table only
/// grows: an entry, once made, is never removed or replaced. Any number of threads
/// may share a table without locking anything themselves.
pub struct InternTable<K> {
    kind_name: String,
    entries: Interner<str>,
    kind: PhantomData<K>,
}

/// An identifier of kind `K`. It is one reference wide and freely copied; the text
/// it refers to outlives it.
///
/// Its view is its text. Two identifiers are equal when they are the same entry,
/// which for identifiers of one table means that their texts are equal. `Hash`
/// goes by the entry as well, so equal identifiers hash equal.
#[derive(Debug, Hash)]
pub struct InternedId<K> {
    entry: Interned<str>,
    kind: PhantomData<K>,
}

impl<K> InternTable<K> {
    /// The name of the kind.
    pub closed spec fn kind_name(&self) -> Seq<char> {
        self.kind_name@
    }

    /// Whether `text` has an entry in the table. An entry stays for good, so this is
    /// a lasting fact; a caller learns it from the call that interned the text.
    pub closed spec fn has(&self, text: Seq<char>) -> bool {
        &&& table_entries(self.entries).contains_key(text)
        &&& interned_text(table_entries(self.entries)[text]) == text
    }

    /// The identifier that the table gives to `text`, where `text` has an entry.
    pub closed spec fn id_of(&self, text: Seq<char>) -> InternedId<K> {
        InternedId { entry: table_entries(self.entries)[text], kind: PhantomData }
    }

    /// Whether `id` is an identifier of this table: the canonical one of its text.
    pub open spec fn holds(&self, id: InternedId<K>) -> bool {
        self.has(id@) && self.id_of(id@) == id
    }

    /// The identifier that the table gives to a text is an identifier of the table
    /// and has that text.
    pub proof fn id_of_reads_back(&self, text: Seq<char>)
        requires
            self.has(text),
        ensures
            self.id_of(text)@ == text,
            self.holds(self.id_of(text)),
    {
    }

    /// A table for the kind called `kind_name`, apart from every other table.
    pub fn new(kind_name: &str) -> (table: Self)
        ensures
            table.kind_name() == kind_name@,
    {
        InternTable { kind_name: kind_name.to_owned(), entries: new_table(), kind: PhantomData }
    }

    /// The name of the kind.
    pub fn name(&self) -> (name: &str)
        ensures
            name@ == self.kind_name(),
    {
        self.kind_name.as_str()
    }
}

impl<K> View for InternedId<K> {
    type V = Seq<char>;

    closed spec fn view(&self) -> Seq<char> {
        interned_text(self.entry)
    }
}

impl<K> Clone for InternedId<K> {
    fn clone(&self) -> (copy: Self)
        ensures
            copy == *self,
    {
        InternedId { entry: self.entry, kind: PhantomData }
    }
}

impl<K> Copy for InternedId<K> {}

impl<K> PartialEq for InternedId<K> {
    /// Compares the entries, never the texts.
    fn eq(&self, other: &Self) -> (same: bool) {
        same_entry(&self.entry, &other.entry)
    }
}

impl<K> PartialEqSpecImpl for InternedId<K> {
    open spec fn obeys_eq_spec() -> bool {
        true
    }

    open spec fn eq_spec(&self, other: &Self) -> bool {
        *self == *other
    }
}

impl<K> Eq for InternedId<K> {}

impl<K> InternedId<K> {
    /// The identifier of `text` in `table`: the entry found there, or a new one.
    /// It never fails, and every call with an equal text on the same table returns
    /// the same identifier.
    #[must_use]
    pub fn new(table: &InternTable<K>, text: &str) -> (id: Self)
        ensures
            id@ == text@,
            table.holds(id),
            id == table.id_of(text@),
    {
        InternedId { entry: intern_text(&table.entries, text), kind: PhantomData }
    }

    /// The text, which stays valid until the process ends.
    #[must_use]
    pub fn as_str(&self) -> (text: &'static str)
        ensures
            text@ == self@,
    {
        entry_text(&self.entry)
    }
}

} // verus!

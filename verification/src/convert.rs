//! Conversions between identifiers and text.

use crate::interned::{InternTable, InternedId};
use core::ops::Deref;
use vstd::prelude::*;

verus! {

impl<K> InternedId<K> {
    /// The identifier of an owned text: the same as [`InternedId::new`] on it.
    pub fn from_string(table: &InternTable<K>, text: String) -> (id: Self)
        ensures
            id@ == text@,
            table.holds(id),
    {
        InternedId::new(table, text.as_str())
    }

    /// The default identifier of a table: that of the empty text.
    pub fn default_in(table: &InternTable<K>) -> (id: Self)
        ensures
            id@ == Seq::<char>::empty(),
            table.holds(id),
    {
        let empty = String::new();
        InternedId::new(table, empty.as_str())
    }
}

impl<K> Deref for InternedId<K> {
    type Target = str;

    /// An identifier reads as its text.
    fn deref(&self) -> (text: &str)
        ensures
            text@ == self@,
    {
        self.as_str()
    }
}

} // verus!

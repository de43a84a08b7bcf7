//! Writing an identifier to a document and reading it back.
//!
//! An identifier is written as its bare text, as any text is, and not as an index
//! into its table. It is read by taking a text and interning it in the table of
//! the kind wanted. A value that is no text is the one thing that can go wrong.

use crate::interned::{InternTable, InternedId};
use crate::value::{FormatError, Value, ValueView};
use vstd::prelude::*;

verus! {

/// What an identifier with the given text is written as.
pub open spec fn serialized(text: Seq<char>) -> ValueView {
    ValueView::Text(text)
}

/// What reading `source` as an identifier of `table` gives: the identifier of the
/// text where `source` is a text, and else the error that names what was found.
pub open spec fn deserialized<K>(table: &InternTable<K>, source: ValueView) -> Result<
    InternedId<K>,
    FormatError,
> {
    match source {
        ValueView::Text(text) => Ok(table.id_of(text)),
        _ => Err(FormatError { found: source.kind() }),
    }
}

impl<K> InternedId<K> {
    /// Writes the identifier: a text value that holds its text.
    pub fn serialize(&self) -> (value: Value)
        ensures
            value@ == serialized(self@),
    {
        Value::Text(self.to_text())
    }

    /// Reads an identifier of `table` from `source`. A text is interned and its
    /// identifier returned; any other value is refused with a [`FormatError`].
    pub fn deserialize(table: &InternTable<K>, source: &Value) -> (read: Result<Self, FormatError>)
        ensures
            read == deserialized(table, source@),
            read matches Ok(id) ==> source@ == serialized(id@) && table.holds(id),
    {
        match source.as_text() {
            Some(text) => Ok(InternedId::new(table, text)),
            None => Err(FormatError { found: source.kind() }),
        }
    }
}

} // verus!

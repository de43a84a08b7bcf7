//! The values an identifier is written to and read from.
//!
//! An identifier is written as a bare text. What a document may hold in the place
//! of one is kept here only as far as reading an identifier looks at it.

use vstd::prelude::*;

verus! {

/// The shape of a [`Value`].
#[derive(Clone, Copy, Debug, PartialEq, Eq, Structural)]
pub enum ValueKind {
    Null,
    Boolean,
    Number,
    Text,
    Sequence,
    Mapping,
}

/// A value of a document. A text is held whole; of any other value only the shape
/// is kept, since no identifier is read from one.
#[derive(Debug, PartialEq, Eq)]
pub enum Value {
    Null,
    Boolean,
    Number,
    Text(String),
    Sequence,
    Mapping,
}

/// What a [`Value`] is in contracts.
pub ghost enum ValueView {
    Null,
    Boolean,
    Number,
    Text(Seq<char>),
    Sequence,
    Mapping,
}

impl ValueView {
    /// The shape of the value.
    pub open spec fn kind(self) -> ValueKind {
        match self {
            ValueView::Null => ValueKind::Null,
            ValueView::Boolean => ValueKind::Boolean,
            ValueView::Number => ValueKind::Number,
            ValueView::Text(_) => ValueKind::Text,
            ValueView::Sequence => ValueKind::Sequence,
            ValueView::Mapping => ValueKind::Mapping,
        }
    }

    /// The text of a text value, and `None` of any other.
    pub open spec fn text(self) -> Option<Seq<char>> {
        match self {
            ValueView::Text(text) => Some(text),
            _ => None,
        }
    }
}

impl View for Value {
    type V = ValueView;

    open spec fn view(&self) -> ValueView {
        match self {
            Value::Null => ValueView::Null,
            Value::Boolean => ValueView::Boolean,
            Value::Number => ValueView::Number,
            Value::Text(text) => ValueView::Text(text@),
            Value::Sequence => ValueView::Sequence,
            Value::Mapping => ValueView::Mapping,
        }
    }
}

impl Clone for Value {
    fn clone(&self) -> (copy: Self)
        ensures
            copy@ == self@,
    {
        match self {
            Value::Null => Value::Null,
            Value::Boolean => Value::Boolean,
            Value::Number => Value::Number,
            Value::Text(text) => Value::Text(text.clone()),
            Value::Sequence => Value::Sequence,
            Value::Mapping => Value::Mapping,
        }
    }
}

impl Value {
    /// The shape of this value.
    pub fn kind(&self) -> (kind: ValueKind)
        ensures
            kind == self@.kind(),
    {
        match self {
            Value::Null => ValueKind::Null,
            Value::Boolean => ValueKind::Boolean,
            Value::Number => ValueKind::Number,
            Value::Text(_) => ValueKind::Text,
            Value::Sequence => ValueKind::Sequence,
            Value::Mapping => ValueKind::Mapping,
        }
    }

    /// The text of a text value, and `None` of any other.
    pub fn as_text(&self) -> (text: Option<&str>)
        ensures
            match self@.text() {
                Some(held) => text is Some && text.unwrap()@ == held,
                None => text is None,
            },
    {
        match self {
            Value::Text(text) => Some(text.as_str()),
            _ => None,
        }
    }
}

/// Why a value could not be read as an identifier: it is no text.
#[derive(Clone, Copy, Debug, PartialEq, Eq, Structural)]
pub struct FormatError {
    /// The shape of the value that stood where a text was expected.
    pub found: ValueKind,
}

} // verus!

//! Typed interned identifiers.
//!
//! An identifier is a handle to one canonical copy of a text, kept for the life of
//! the process in the table of its kind. Two identifiers of one table are equal
//! exactly when their texts are equal, and the comparison never reads the text.
//!
//! The table comes from `bevy_ecs::intern`; [`entry`] holds what is taken on trust
//! of it. [`interned`] has the table and the identifier, [`convert`], [`format`]
//! and [`serial`] what an identifier is made from, shown as and written as, and
//! [`laws`] what holds of all of them. [`naming`] serves code that declares a kind
//! and keeps its table in a `static`.

pub mod convert;
pub mod entry;
pub mod format;
pub mod interned;
pub mod laws;
pub mod naming;
pub mod serial;
pub mod value;

pub use interned::{InternTable, InternedId};
pub use naming::{interner_name, with_interner_suffix};
pub use value::{FormatError, Value, ValueKind};

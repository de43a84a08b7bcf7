//! How an identifier is shown: plainly, as its text, and for diagnosis, with the
//! name of its kind.

use crate::interned::{InternTable, InternedId};
use vstd::prelude::*;

verus! {

/// The diagnostic form of an identifier: the name of the kind, then the text in
/// double quotes and round brackets. The text stands as it is, unescaped.
pub open spec fn debug_form(kind_name: Seq<char>, text: Seq<char>) -> Seq<char> {
    kind_name + seq!['(', '"'] + text + seq!['"', ')']
}

impl<K> InternedId<K> {
    /// The plain form: exactly the text, as an owned string.
    pub fn to_text(&self) -> (text: String)
        ensures
            text@ == self@,
    {
        self.as_str().to_owned()
    }

    /// The diagnostic form, which names the kind by the name of `table`, so that
    /// identifiers of several kinds can be told apart.
    pub fn debug_text(&self, table: &InternTable<K>) -> (shown: String)
        ensures
            shown@ == debug_form(table.kind_name(), self@),
    {
        let mut shown = table.name().to_owned();
        shown.append("(\"");
        shown.append(self.as_str());
        shown.append("\")");
        proof {
            reveal_strlit("(\"");
            reveal_strlit("\")");
            assert("(\""@ == seq!['(', '"']);
            assert("\")"@ == seq!['"', ')']);
        }
        shown
    }
}

} // verus!

//! What holds of identifiers whatever the texts and tables.

use crate::interned::{InternTable, InternedId};
use crate::serial::{deserialized, serialized};
use crate::value::FormatError;
use vstd::prelude::*;

verus! {

/// Interning is deterministic: two identifiers of one table with equal texts are
/// one identifier.
pub proof fn law_equal_texts_equal_ids<K>(table: &InternTable<K>, a: InternedId<K>, b: InternedId<K>)
    requires
        table.holds(a),
        table.holds(b),
        a@ == b@,
    ensures
        a == b,
{
}

/// Interning discriminates: identifiers with different texts are different,
/// whatever tables they are of.
pub proof fn law_distinct_texts_distinct_ids<K>(a: InternedId<K>, b: InternedId<K>)
    requires
        a@ != b@,
    ensures
        a != b,
{
}

/// In terms of a table's texts: it gives one identifier to each text, and
/// different identifiers to different texts.
pub proof fn law_one_id_per_text<K>(table: &InternTable<K>, first: Seq<char>, second: Seq<char>)
    requires
        table.has(first),
        table.has(second),
    ensures
        table.id_of(first) == table.id_of(second) <==> first == second,
{
    table.id_of_reads_back(first);
    table.id_of_reads_back(second);
}

/// Kinds are isolated: the tables of two kinds each give the same text its own
/// identifier, of its own type, and both read as that text.
pub proof fn law_kinds_share_text_only<K1, K2>(
    one: &InternTable<K1>,
    other: &InternTable<K2>,
    text: Seq<char>,
)
    requires
        one.has(text),
        other.has(text),
    ensures
        one.id_of(text)@ == text,
        other.id_of(text)@ == text,
{
    one.id_of_reads_back(text);
    other.id_of_reads_back(text);
}

/// Writing and reading back gives the identifier that was written.
pub proof fn law_round_trip<K>(table: &InternTable<K>, id: InternedId<K>)
    requires
        table.holds(id),
    ensures
        deserialized(table, serialized(id@)) == Ok::<InternedId<K>, FormatError>(id),
{
}

/// Writing and reading back keeps the text, character for character.
pub proof fn law_round_trip_keeps_text<K>(table: &InternTable<K>, text: Seq<char>)
    requires
        table.has(text),
    ensures
        deserialized(table, serialized(text)) matches Ok(id) && id@ == text && table.holds(id),
{
    table.id_of_reads_back(text);
}

} // verus!

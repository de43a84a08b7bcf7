//! Identifiers of several kinds, used as a program would use them.

use msg_interned_id::{InternTable, InternedId};
use std::collections::hash_map::DefaultHasher;
use std::hash::{Hash, Hasher};

/// The kind of spell identifiers.
#[derive(Clone, Copy, PartialEq, Eq, Hash, Debug)]
struct Spell;

/// The kind of item identifiers.
#[derive(Clone, Copy, PartialEq, Eq, Hash, Debug)]
struct Item;

type SpellId = InternedId<Spell>;
type ItemId = InternedId<Item>;

fn spells() -> InternTable<Spell> {
    InternTable::new("SpellId")
}

fn items() -> InternTable<Item> {
    InternTable::new("ItemId")
}

// Construction and text access

#[test]
fn test_new_creates_id() {
    let table = spells();
    let id = SpellId::new(&table, "fireball");
    assert_eq!(id.as_str(), "fireball");
}

#[test]
fn test_as_str_returns_correct_value() {
    let table = spells();
    let id = SpellId::new(&table, "ice_blast");
    assert_eq!(id.as_str(), "ice_blast");
}

#[test]
fn integration_tests_test_empty_string() {
    let table = spells();
    let id = SpellId::new(&table, "");
    assert_eq!(id.as_str(), "");
}

#[test]
fn integration_tests_test_unicode_strings() {
    let table = spells();
    let id = SpellId::new(&table, "火球术");
    assert_eq!(id.as_str(), "火球术");
}

#[test]
fn integration_tests_test_special_characters() {
    let table = spells();
    let id = SpellId::new(&table, "spell-with_special.chars!@#$%");
    assert_eq!(id.as_str(), "spell-with_special.chars!@#$%");
}

#[test]
fn test_whitespace_string() {
    let table = spells();
    let id = SpellId::new(&table, "  spaced  ");
    assert_eq!(id.as_str(), "  spaced  ");
}

// Interning

#[test]
fn test_same_string_equals() {
    let table = spells();
    let id1 = SpellId::new(&table, "lightning");
    let id2 = SpellId::new(&table, "lightning");
    assert_eq!(id1, id2);
}

#[test]
fn test_different_strings_not_equal() {
    let table = spells();
    let id1 = SpellId::new(&table, "fire");
    let id2 = SpellId::new(&table, "water");
    assert_ne!(id1, id2);
}

#[test]
fn test_interned_pointer_equality() {
    // Same string should share the same interned pointer
    let table = spells();
    let id1 = SpellId::new(&table, "shared_spell");
    let id2 = SpellId::new(&table, "shared_spell");
    // They should be equal via PartialEq (which compares interned pointers)
    assert_eq!(id1, id2);
}

#[test]
fn test_different_types_have_separate_interners() {
    // Same string in different kinds should work independently
    let spell_table = spells();
    let item_table = items();
    let spell_id = SpellId::new(&spell_table, "potion");
    let item_id = ItemId::new(&item_table, "potion");

    // Both should have the same string value
    assert_eq!(spell_id.as_str(), item_id.as_str());
    assert_eq!(spell_id.as_str(), "potion");
}

// Standard traits

#[test]
fn integration_tests_test_display() {
    let table = spells();
    let id = SpellId::new(&table, "thunder");
    assert_eq!(format!("{}", id.to_text()), "thunder");
}

#[test]
fn integration_tests_test_debug() {
    let table = spells();
    let id = SpellId::new(&table, "debug_spell");
    let debug_str = id.debug_text(&table);
    assert!(debug_str.contains("SpellId"));
}

#[test]
fn integration_tests_test_clone() {
    let table = spells();
    let id1 = SpellId::new(&table, "clone_test");
    let id2 = id1.clone();
    assert_eq!(id1, id2);
}

#[test]
fn integration_tests_test_copy() {
    let table = spells();
    let id1 = SpellId::new(&table, "copy_test");
    let id2 = id1; // Copy
    assert_eq!(id1, id2); // Both should still be valid
}

#[test]
fn test_hash_in_hashset() {
    let table = spells();
    let mut set = std::collections::HashSet::new();
    set.insert(SpellId::new(&table, "spell1"));
    set.insert(SpellId::new(&table, "spell2"));
    set.insert(SpellId::new(&table, "spell1")); // Duplicate

    assert_eq!(set.len(), 2);
    assert!(set.contains(&SpellId::new(&table, "spell1")));
    assert!(set.contains(&SpellId::new(&table, "spell2")));
}

#[test]
fn test_hash_consistency() {
    let table = spells();
    let id1 = SpellId::new(&table, "hash_test");
    let id2 = SpellId::new(&table, "hash_test");

    let mut hasher1 = DefaultHasher::new();
    let mut hasher2 = DefaultHasher::new();
    id1.hash(&mut hasher1);
    id2.hash(&mut hasher2);

    assert_eq!(hasher1.finish(), hasher2.finish());
}

#[test]
fn integration_tests_test_default() {
    let table = spells();
    let id = SpellId::default_in(&table);
    assert_eq!(id.as_str(), "");
}

#[test]
fn test_from_str() {
    let table = spells();
    let id: SpellId = InternedId::new(&table, "from_str_test");
    assert_eq!(id.as_str(), "from_str_test");
}

#[test]
fn integration_tests_test_from_string() {
    let table = spells();
    let s = String::from("from_string_test");
    let id: SpellId = InternedId::from_string(&table, s);
    assert_eq!(id.as_str(), "from_string_test");
}

#[test]
fn test_deref() {
    let table = spells();
    let id = SpellId::new(&table, "deref_test");
    // Deref to &str
    let s: &str = &*id;
    assert_eq!(s, "deref_test");
}

#[test]
fn test_deref_methods() {
    let table = spells();
    let id = SpellId::new(&table, "hello_world");
    // Can use str methods via deref
    assert!(id.starts_with("hello"));
    assert!(id.ends_with("world"));
    assert_eq!(id.len(), 11);
    assert!(id.contains("_"));
}

#[test]
fn integration_tests_test_debug_format() {
    let table = spells();
    let id = SpellId::new(&table, "debug_spell");
    let output = id.debug_text(&table);
    assert!(output.contains("SpellId"));
    assert!(output.contains("debug_spell"));
}

// Edge cases

#[test]
fn integration_tests_test_very_long_string() {
    let table = spells();
    let long_string = "a".repeat(10000);
    let id = SpellId::new(&table, &long_string);
    assert_eq!(id.as_str(), long_string);
}

#[test]
fn test_null_byte_in_string() {
    let table = spells();
    let id = SpellId::new(&table, "hello\0world");
    assert_eq!(id.as_str(), "hello\0world");
}

#[test]
fn test_newlines_in_string() {
    let table = spells();
    let id = SpellId::new(&table, "line1\nline2\r\nline3");
    assert_eq!(id.as_str(), "line1\nline2\r\nline3");
}

#[test]
fn test_many_ids_same_string() {
    let table = spells();
    let ids: Vec<SpellId> = (0..1000).map(|_| SpellId::new(&table, "same_spell")).collect();

    // All should be equal
    for id in &ids {
        assert_eq!(id.as_str(), "same_spell");
    }

    // All should equal each other
    let first = ids[0];
    for id in &ids {
        assert_eq!(*id, first);
    }
}

#[test]
fn test_many_different_ids() {
    let table = spells();
    let ids: Vec<SpellId> = (0..1000)
        .map(|i| SpellId::new(&table, &format!("spell_{}", i)))
        .collect();

    // All should be unique
    let mut unique = std::collections::HashSet::new();
    for id in &ids {
        unique.insert(*id);
    }
    assert_eq!(unique.len(), 1000);
}

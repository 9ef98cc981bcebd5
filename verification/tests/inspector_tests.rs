use string_lab::encoding::{byte_count, char_count, utf8_width};
use string_lab::inspector::{
    inspect_boxed_str, inspect_cow, inspect_str, inspect_string, is_static_str, StorageClass,
    StringVariant,
};
use std::borrow::Cow;

#[test]
fn owned_snapshot_invariant() {
    let s = String::from("Rustacean");
    let info = inspect_string(&s, "owned");
    assert!(info.length <= info.capacity);
    assert_eq!(info.length, 9);
    assert_eq!(info.storage_class, StorageClass::Heap);
    assert_eq!(info.variant, StringVariant::OwnedGrowable);
    assert_eq!(info.label, "owned");
}

#[test]
fn view_snapshot_has_no_slack() {
    let s = String::from("hello");
    let info = inspect_str(s.as_str(), "view", None);
    assert_eq!(info.capacity, info.length);
    assert_eq!(info.length, 5);
    assert_eq!(info.storage_class, StorageClass::Borrowed);
    assert_eq!(info.variant, StringVariant::BorrowedView);
    assert_eq!(info.data_location, info.container_location);
}

#[test]
fn empty_string_snapshot_is_valid() {
    let s = String::new();
    let info = inspect_string(&s, "empty");
    assert_eq!(info.length, 0);
    assert!(info.length <= info.capacity);
}

#[test]
fn reserved_but_unwritten_capacity() {
    let s = String::with_capacity(16);
    let info = inspect_string(&s, "reserved");
    assert_eq!(info.length, 0);
    assert!(info.capacity >= 16);
}

#[test]
fn static_detection_with_reference() {
    let literal: &'static str = "Rust";
    assert!(is_static_str(literal, Some(literal)));
    let info = inspect_str(literal, "literal", Some(literal));
    assert_eq!(info.storage_class, StorageClass::Static);
    assert_eq!(info.length, 4);
    assert_eq!(info.capacity, 4);
}

#[test]
fn static_detection_without_reference_is_conservative() {
    let literal: &'static str = "Rust";
    assert!(!is_static_str(literal, None));
    let info = inspect_str(literal, "literal", None);
    assert_eq!(info.storage_class, StorageClass::Borrowed);
}

#[test]
fn static_detection_rejects_other_buffer() {
    let owned = String::from("elsewhere");
    assert!(!is_static_str(owned.as_str(), Some("reference")));
    let info = inspect_str(owned.as_str(), "heap view", Some("reference"));
    assert_eq!(info.storage_class, StorageClass::Borrowed);
}

#[test]
fn boxed_str_snapshot_is_exactly_sized() {
    let boxed: Box<str> = String::from("Ferris").into_boxed_str();
    let info = inspect_boxed_str(&boxed, "boxed");
    assert_eq!(info.length, 6);
    assert_eq!(info.capacity, 6);
    assert_eq!(info.storage_class, StorageClass::Heap);
    assert_eq!(info.variant, StringVariant::OwnedFixed);
}

#[test]
fn cow_borrowed_snapshot() {
    let cow: Cow<str> = Cow::Borrowed("Ferris the Crab");
    let info = inspect_cow(&cow, "borrowed cow");
    assert_eq!(info.storage_class, StorageClass::Borrowed);
    assert_eq!(info.variant, StringVariant::CowBorrowed);
    assert_eq!(info.capacity, info.length);
    assert_eq!(info.length, 15);
}

#[test]
fn cow_owned_snapshot() {
    let cow: Cow<str> = Cow::Owned(String::from("Ferris the Crab"));
    let info = inspect_cow(&cow, "owned cow");
    assert_eq!(info.storage_class, StorageClass::Heap);
    assert_eq!(info.variant, StringVariant::CowOwned);
    assert!(info.capacity >= info.length);
}

#[test]
fn byte_and_char_counts_diverge() {
    let mixed = "Rust 🦀";
    assert_eq!(byte_count(mixed), 9);
    assert_eq!(char_count(mixed), 6);
    assert_ne!(byte_count(mixed), char_count(mixed));
    let info = inspect_str(mixed, "mixed", None);
    assert_eq!(info.length, 9);
}

#[test]
fn per_character_widths() {
    assert_eq!(utf8_width('R'), 1);
    assert_eq!(utf8_width('ß'), 2);
    assert_eq!(utf8_width('中'), 3);
    assert_eq!(utf8_width('🦀'), 4);
}

#[test]
fn ascii_counts_agree() {
    let ascii = "Rust";
    assert_eq!(byte_count(ascii), char_count(ascii));
}

use string_lab::tracker::PerformanceTracker;
use string_lab::transformer::{
    bracket_wrap, demonstrate_capacity, demonstrate_cow, demonstrate_ownership, StringManipulator,
};
use std::borrow::Cow;

#[test]
fn reverse_simple() {
    let mut m = StringManipulator::new();
    let r = m.reverse("Hello, World!");
    assert_eq!(r.value, "!dlroW ,olleH");
    assert_eq!(r.operation, "reverse");
    assert_eq!(m.operations_count, 1);
}

#[test]
fn reverse_is_character_aware() {
    let mut m = StringManipulator::new();
    let r = m.reverse("ab🦀");
    assert_eq!(r.value, "🦀ba");
}

#[test]
fn reverse_empty() {
    let mut m = StringManipulator::new();
    let r = m.reverse("");
    assert_eq!(r.value, "");
}

#[test]
fn uppercase_can_change_length() {
    let mut m = StringManipulator::new();
    let r = m.to_upper("straße");
    assert_eq!(r.value, "STRASSE");
    assert_ne!(r.value.chars().count(), "straße".chars().count());
    assert_eq!(r.operation, "to_uppercase");
}

#[test]
fn uppercase_ascii() {
    let mut m = StringManipulator::new();
    let r = m.to_upper("rust");
    assert_eq!(r.value, "RUST");
}

#[test]
fn repeat_with_exact_capacity() {
    let mut m = StringManipulator::new();
    let r = m.repeat("Rust ", 5);
    assert_eq!(r.value, "Rust Rust Rust Rust Rust ");
    assert_eq!(r.value.len(), 25);
    assert_eq!(r.value.capacity(), 25);
    assert_eq!(r.operation, "repeat");
}

#[test]
fn repeat_zero_times() {
    let mut m = StringManipulator::new();
    let r = m.repeat("Rust", 0);
    assert_eq!(r.value, "");
}

#[test]
fn interleave_equal_lengths() {
    let mut m = StringManipulator::new();
    let r = m.interleave("RUST", "rust");
    assert_eq!(r.value, "RrUuSsTt");
    assert_eq!(r.operation, "interleave");
}

#[test]
fn interleave_uneven_lengths() {
    let mut m = StringManipulator::new();
    let r = m.interleave("ab", "wxyz");
    assert_eq!(r.value, "awbxyz");
    let r2 = m.interleave("wxyz", "ab");
    assert_eq!(r2.value, "waxbyz");
    assert_eq!(m.operations_count, 2);
}

#[test]
fn interleave_with_empty() {
    let mut m = StringManipulator::new();
    let r = m.interleave("", "abc");
    assert_eq!(r.value, "abc");
}

#[test]
fn operations_are_counted() {
    let mut m = StringManipulator::new();
    assert_eq!(m.operations_count, 0);
    m.reverse("a");
    m.to_upper("b");
    m.repeat("c", 2);
    m.interleave("d", "e");
    assert_eq!(m.operations_count, 4);
}

#[test]
fn default_manipulator_is_fresh() {
    let m = StringManipulator::default();
    assert_eq!(m.operations_count, 0);
}

#[test]
fn ownership_demo_returns_two_equal_strings() {
    let v = demonstrate_ownership();
    assert_eq!(v.len(), 2);
    assert_eq!(v[0], "Hello");
    assert_eq!(v[1], "Hello");
}

#[test]
fn capacity_demo_builds_full_text() {
    let s = demonstrate_capacity();
    assert_eq!(s, "Hello World");
    assert!(s.capacity() >= s.len());
}

#[test]
fn cow_demo_without_modification_stays_borrowed() {
    let r = demonstrate_cow("Ferris", false);
    assert!(matches!(r, Cow::Borrowed(_)));
    assert_eq!(r, "Ferris");
}

#[test]
fn cow_demo_with_modification_becomes_owned() {
    let r = demonstrate_cow("Ferris", true);
    assert!(matches!(r, Cow::Owned(_)));
    assert_eq!(r, "Ferris [modified]");
}

#[test]
fn bracket_wrap_marks_task_output() {
    assert_eq!(bracket_wrap("Async"), "[Async]");
    assert_eq!(bracket_wrap(""), "[]");
}

#[test]
fn tracker_records_labelled_checkpoints() {
    let mut perf = PerformanceTracker::new("Demo");
    assert_eq!(perf.operation_name, "Demo");
    assert_eq!(perf.memory_before, 0);
    assert!(perf.checkpoints.is_empty());
    perf.checkpoint("first");
    perf.checkpoint("second");
    assert_eq!(perf.checkpoints.len(), 2);
    assert_eq!(perf.checkpoints[0].0, "first");
    assert_eq!(perf.checkpoints[1].0, "second");
    assert!(perf.checkpoints[0].1 <= perf.checkpoints[1].1);
    let _total = perf.finish();
}

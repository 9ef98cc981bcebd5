//! Classification of the allocation behaviour between two snapshots.
//!
//! Given a "before" and an "after" snapshot of the same logical
//! value, the comparison derives three independent boolean facts —
//! whether the buffer identity, the capacity and the length changed —
//! together with signed deltas, and classifies what the intervening
//! operation did to the value's storage.

use vstd::prelude::*;

use crate::inspector::{StorageClass, StringMemoryInfo, StringVariant};

verus! {

/// What an operation did to a value's storage, derived purely from
/// the three boolean facts of a snapshot pair, in priority order.
#[derive(Clone, Copy, Debug, PartialEq, Eq, Structural)]
pub enum Classification {
    /// A new buffer was obtained.
    Relocated {
        /// The after snapshot is owned-growable and reports strictly more
        /// capacity: the value grew via reallocation.
        grew_via_reallocation: bool,
        /// The capacity stayed equal, or borrowed storage became heap
        /// storage: an independent copy was created.
        independent_copy: bool,
    },
    /// The capacity changed although the buffer identity did not.  For
    /// faithful snapshots of an append-growth representation this cannot
    /// occur; it indicates defective instrumentation, not a valid
    /// classification.
    Inconsistent,
    /// The length changed while buffer identity and capacity did not:
    /// an in-place mutation with no reallocation.
    InPlaceMutation,
    /// Nothing changed.
    Unchanged,
}

/// The classification derived from a snapshot pair.
pub open spec fn spec_classification(before: StringMemoryInfo, after: StringMemoryInfo) -> Classification {
    if before.data_location != after.data_location {
        Classification::Relocated {
            grew_via_reallocation: after.variant == StringVariant::OwnedGrowable && after.capacity
                > before.capacity,
            independent_copy: after.capacity == before.capacity || (before.storage_class
                == StorageClass::Borrowed && after.storage_class == StorageClass::Heap),
        }
    } else if before.capacity != after.capacity {
        Classification::Inconsistent
    } else if before.length != after.length {
        Classification::InPlaceMutation
    } else {
        Classification::Unchanged
    }
}

/// A computed diff between two snapshots of the same logical value
/// across an operation.  Constructed on demand, consumed by a
/// reporting layer, never persisted.
#[derive(Clone, Debug)]
pub struct SnapshotComparison {
    /// Whether the buffer identity differs between the two snapshots.
    pub location_changed: bool,
    /// Whether the capacity differs between the two snapshots.
    pub capacity_changed: bool,
    /// Whether the length differs between the two snapshots.
    pub length_changed: bool,
    /// Signed change in capacity, after minus before, in bytes.
    pub capacity_delta: i128,
    /// Signed change in length, after minus before, in bytes.
    pub length_delta: i128,
    /// The derived classification of the operation.
    pub classification: Classification,
    /// Label of the operation the two snapshots bracket, for display.
    pub operation: String,
}

/// Compares two snapshots of the same logical value and classifies
/// the allocation behaviour of the operation between them.
///
/// The booleans and deltas are reported verbatim regardless of the
/// classification.
pub fn compare_memory_layout(before: &StringMemoryInfo, after: &StringMemoryInfo, operation: &str)
    -> (r: SnapshotComparison)
    ensures
        r.location_changed == (before.data_location != after.data_location),
        r.capacity_changed == (before.capacity != after.capacity),
        r.length_changed == (before.length != after.length),
        r.capacity_delta == after.capacity - before.capacity,
        r.length_delta == after.length - before.length,
        r.classification == spec_classification(*before, *after),
        r.operation@ == operation@,
{
    let location_changed = before.data_location != after.data_location;
    let capacity_changed = before.capacity != after.capacity;
    let length_changed = before.length != after.length;
    let classification = if location_changed {
        Classification::Relocated {
            grew_via_reallocation: after.variant == StringVariant::OwnedGrowable && after.capacity
                > before.capacity,
            independent_copy: after.capacity == before.capacity || (before.storage_class
                == StorageClass::Borrowed && after.storage_class == StorageClass::Heap),
        }
    } else if capacity_changed {
        Classification::Inconsistent
    } else if length_changed {
        Classification::InPlaceMutation
    } else {
        Classification::Unchanged
    };
    SnapshotComparison {
        location_changed,
        capacity_changed,
        length_changed,
        capacity_delta: after.capacity as i128 - before.capacity as i128,
        length_delta: after.length as i128 - before.length as i128,
        classification,
        operation: operation.to_owned(),
    }
}

/// Transferring ownership of a value does not touch its storage: a
/// snapshot pair that agrees on buffer identity, capacity and length
/// is classified as unchanged, with no flags raised and zero deltas.
pub proof fn lemma_identical_layout_is_unchanged(before: StringMemoryInfo, after: StringMemoryInfo)
    requires
        before.data_location == after.data_location,
        before.capacity == after.capacity,
        before.length == after.length,
    ensures
        spec_classification(before, after) == Classification::Unchanged,
{
}

/// Duplicating a value's contents into independent storage is always
/// reported as a relocation: whenever the buffer identity differs,
/// the classification is `Relocated`, whatever else changed.
pub proof fn lemma_distinct_location_is_relocated(before: StringMemoryInfo, after: StringMemoryInfo)
    requires
        before.data_location != after.data_location,
    ensures
        spec_classification(before, after) matches Classification::Relocated { .. },
{
}

/// An append that stays within reserved capacity is an in-place
/// mutation: same buffer, same capacity, different length.
pub proof fn lemma_in_place_append(before: StringMemoryInfo, after: StringMemoryInfo)
    requires
        before.data_location == after.data_location,
        before.capacity == after.capacity,
        before.length != after.length,
    ensures
        spec_classification(before, after) == Classification::InPlaceMutation,
{
}

/// An append that exceeds reserved capacity shows up as growth via
/// reallocation: when an owned-growable value moves to a new buffer
/// with strictly larger capacity, the relocation carries the
/// `grew_via_reallocation` flag and a positive capacity delta.
pub proof fn lemma_growth_is_flagged(before: StringMemoryInfo, after: StringMemoryInfo)
    requires
        before.data_location != after.data_location,
        after.variant == StringVariant::OwnedGrowable,
        after.capacity > before.capacity,
    ensures
        spec_classification(before, after) matches Classification::Relocated {
            grew_via_reallocation,
            ..
        } && grew_via_reallocation,
        after.capacity - before.capacity > 0,
{
}

/// A copy-on-write wrapper that converts to owned storage under
/// mutation is reported as having created an independent copy: when
/// borrowed storage becomes heap storage at a new buffer identity,
/// the relocation carries the `independent_copy` flag.
pub proof fn lemma_cow_conversion_is_independent_copy(
    before: StringMemoryInfo,
    after: StringMemoryInfo,
)
    requires
        before.data_location != after.data_location,
        before.storage_class == StorageClass::Borrowed,
        after.storage_class == StorageClass::Heap,
    ensures
        spec_classification(before, after) matches Classification::Relocated {
            independent_copy,
            ..
        } && independent_copy,
{
}

} // verus!

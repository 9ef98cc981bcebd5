//! Structural snapshots of string-like values.
//!
//! A [`StringMemoryInfo`] records, for one string-like value at one
//! point in time, the identity of its backing byte buffer, the
//! identity of its descriptor, its length and capacity in bytes, the
//! class of storage the buffer lives in, and which representation
//! produced the snapshot.  Buffer and descriptor identities are kept
//! as opaque tokens: the comparison logic only ever asks whether two
//! tokens are equal, never what their numeric value means.

use std::borrow::Cow;
use vstd::prelude::*;
use vstd::utf8::encode_utf8;

use crate::encoding::byte_len;

verus! {

/// Where the backing buffer of a snapshot physically resides.
#[derive(Clone, Copy, Debug, PartialEq, Eq, Structural)]
pub enum StorageClass {
    /// The buffer was allocated on the value's behalf and is owned by it.
    Heap,
    /// The buffer lives in fixed, read-only storage inside the program image.
    Static,
    /// The value does not own the buffer and its storage class cannot be
    /// determined without external evidence.
    Borrowed,
}

/// Which representation of a string-like value produced a snapshot.
#[derive(Clone, Copy, Debug, PartialEq, Eq, Structural)]
pub enum StringVariant {
    /// An owned, heap-backed, growable buffer that may reserve slack.
    OwnedGrowable,
    /// A non-owning view of byte data located elsewhere.
    BorrowedView,
    /// An owning, heap-backed buffer sized exactly to its content.
    OwnedFixed,
    /// A copy-on-write wrapper still in its borrowed state.
    CowBorrowed,
    /// A copy-on-write wrapper after conversion to an owned buffer.
    CowOwned,
}

/// A point-in-time record of a string-like value's memory characteristics.
#[derive(Clone, Debug)]
pub struct StringMemoryInfo {
    /// Opaque identity of the backing byte buffer.
    pub data_location: usize,
    /// Opaque identity of the container or descriptor itself.
    pub container_location: usize,
    /// Count of encoded bytes currently in use.
    pub length: usize,
    /// Count of bytes reserved in the backing buffer.  For views with no
    /// independent allocation this equals `length`.
    pub capacity: usize,
    /// Where the backing buffer resides.
    pub storage_class: StorageClass,
    /// Which representation produced this snapshot.
    pub variant: StringVariant,
    /// Free-text description supplied by the caller, for display only.
    pub label: String,
}

impl StringMemoryInfo {
    /// Well-formedness of a snapshot: the length never exceeds the
    /// capacity; representations without independent allocation report
    /// no slack; owned representations report heap storage and a
    /// borrowed copy-on-write wrapper reports borrowed storage.
    pub open spec fn wf(self) -> bool {
        &&& self.length <= self.capacity
        &&& self.variant == StringVariant::BorrowedView ==> (self.capacity == self.length
            && self.storage_class != StorageClass::Heap)
        &&& self.variant == StringVariant::CowBorrowed ==> (self.capacity == self.length
            && self.storage_class == StorageClass::Borrowed)
        &&& self.variant == StringVariant::OwnedFixed ==> (self.capacity == self.length
            && self.storage_class == StorageClass::Heap)
        &&& self.variant == StringVariant::OwnedGrowable ==> self.storage_class
            == StorageClass::Heap
        &&& self.variant == StringVariant::CowOwned ==> self.storage_class == StorageClass::Heap
    }
}

/// Every captured snapshot satisfies `length <= capacity`, and the
/// view and borrowed copy-on-write representations carry no slack:
/// their capacity equals their length.
pub proof fn lemma_snapshot_invariant(info: StringMemoryInfo)
    requires
        info.wf(),
    ensures
        info.length <= info.capacity,
        info.variant == StringVariant::BorrowedView || info.variant == StringVariant::CowBorrowed
            ==> info.capacity == info.length,
{
}

/// The reported length is a function of the content alone: two
/// snapshots of values holding the same characters always report the
/// same length, whatever their representations.  In particular, an
/// independent copy of a value reports the same length as the value
/// it was copied from.
pub proof fn lemma_equal_content_equal_length(
    a: StringMemoryInfo,
    b: StringMemoryInfo,
    v: Seq<char>,
    w: Seq<char>,
)
    requires
        a.length == byte_len(v),
        b.length == byte_len(w),
        v == w,
    ensures
        a.length == b.length,
{
}

/// Relies on `str::as_ptr`: the address of the first byte of the
/// slice's backing buffer, read once and used only as an opaque
/// identity token for that buffer.
#[verifier::external_body]
fn buffer_address(s: &str) -> usize {
    s.as_ptr().addr()
}

/// Relies on `core::ptr::from_ref`: the address of the referenced
/// object itself, used only as an opaque identity token for the
/// descriptor, as distinct from the buffer it points to.
#[verifier::external_body]
fn descriptor_address<T>(x: &T) -> usize {
    core::ptr::from_ref(x).addr()
}

/// Relies on `core::ptr::eq`: true only when the two slices agree on
/// both address and length, that is, when they are views of the very
/// same bytes — in which case their contents are equal.
#[verifier::external_body]
fn same_buffer(a: &str, b: &str) -> (r: bool)
    ensures
        r ==> a@ == b@,
{
    core::ptr::eq(a, b)
}

/// Relies on `String::capacity`: the size in bytes of the string's
/// allocation, documented to be at least the length of its content.
pub assume_specification[ String::capacity ](s: &String) -> (r: usize)
    ensures
        encode_utf8(s@).len() <= r,
;

/// Decides whether a view aliases a known static reference.
///
/// Without a reference there is no sound way to recognise static
/// storage, so the answer is conservatively `false`; with one, the
/// answer is exact buffer identity.
pub fn is_static_str(s: &str, static_ref: Option<&'static str>) -> (r: bool)
    ensures
        static_ref is None ==> r == false,
        r ==> (static_ref matches Some(t) && s@ == t@),
{
    match static_ref {
        Some(reference) => same_buffer(s, reference),
        None => false,
    }
}

/// Captures a snapshot of an owned, growable, heap-backed string.
///
/// The descriptor and the buffer it points to live at distinct
/// locations, so both identities are recorded.
pub fn inspect_string(s: &String, label: &str) -> (info: StringMemoryInfo)
    ensures
        info.length == byte_len(s@),
        info.capacity >= info.length,
        info.storage_class == StorageClass::Heap,
        info.variant == StringVariant::OwnedGrowable,
        info.label@ == label@,
        info.wf(),
{
    StringMemoryInfo {
        data_location: buffer_address(s.as_str()),
        container_location: descriptor_address(s),
        length: s.as_str().len(),
        capacity: s.capacity(),
        storage_class: StorageClass::Heap,
        variant: StringVariant::OwnedGrowable,
        label: label.to_owned(),
    }
}

/// Captures a snapshot of a borrowed view.
///
/// A view has no independent allocation, so its capacity equals its
/// length.  If a known static reference is supplied and the view is
/// that very buffer, the storage is classified as static; otherwise
/// it is conservatively classified as borrowed.
pub fn inspect_str(s: &str, label: &str, static_reference: Option<&'static str>) -> (info:
    StringMemoryInfo)
    ensures
        info.length == byte_len(s@),
        info.capacity == info.length,
        info.variant == StringVariant::BorrowedView,
        info.storage_class != StorageClass::Heap,
        static_reference is None ==> info.storage_class == StorageClass::Borrowed,
        info.storage_class == StorageClass::Static ==> (static_reference matches Some(t) && s@
            == t@),
        info.label@ == label@,
        info.wf(),
{
    let is_static = is_static_str(s, static_reference);
    let addr = buffer_address(s);
    StringMemoryInfo {
        data_location: addr,
        container_location: addr,
        length: s.len(),
        capacity: s.len(),
        storage_class: if is_static {
            StorageClass::Static
        } else {
            StorageClass::Borrowed
        },
        variant: StringVariant::BorrowedView,
        label: label.to_owned(),
    }
}

/// Captures a snapshot of an owned, exactly-sized, heap-backed
/// string: it owns its buffer but reserves no growth slack, so its
/// capacity equals its length.
pub fn inspect_boxed_str(s: &Box<str>, label: &str) -> (info: StringMemoryInfo)
    ensures
        info.length == byte_len(s@),
        info.capacity == info.length,
        info.storage_class == StorageClass::Heap,
        info.variant == StringVariant::OwnedFixed,
        info.label@ == label@,
        info.wf(),
{
    let content: &str = &**s;
    let addr = buffer_address(content);
    StringMemoryInfo {
        data_location: addr,
        container_location: addr,
        length: content.len(),
        capacity: content.len(),
        storage_class: StorageClass::Heap,
        variant: StringVariant::OwnedFixed,
        label: label.to_owned(),
    }
}

/// Captures a snapshot of a copy-on-write wrapper in its current
/// state.  While borrowed it is a plain view with no allocation of
/// its own; once owned it carries an independent heap buffer that may
/// reserve slack.  The wrapper's own descriptor is recorded as the
/// container identity in both states.
pub fn inspect_cow(s: &Cow<str>, label: &str) -> (info: StringMemoryInfo)
    ensures
        info.length == byte_len(s@),
        info.label@ == label@,
        s matches Cow::Borrowed(_) ==> {
            &&& info.storage_class == StorageClass::Borrowed
            &&& info.variant == StringVariant::CowBorrowed
            &&& info.capacity == info.length
        },
        s matches Cow::Owned(_) ==> {
            &&& info.storage_class == StorageClass::Heap
            &&& info.variant == StringVariant::CowOwned
            &&& info.capacity >= info.length
        },
        info.wf(),
{
    let container = descriptor_address(s);
    match s {
        Cow::Borrowed(view) => StringMemoryInfo {
            data_location: buffer_address(view),
            container_location: container,
            length: view.len(),
            capacity: view.len(),
            storage_class: StorageClass::Borrowed,
            variant: StringVariant::CowBorrowed,
            label: label.to_owned(),
        },
        Cow::Owned(owned) => StringMemoryInfo {
            data_location: buffer_address(owned.as_str()),
            container_location: container,
            length: owned.as_str().len(),
            capacity: owned.capacity(),
            storage_class: StorageClass::Heap,
            variant: StringVariant::CowOwned,
            label: label.to_owned(),
        },
    }
}

} // verus!

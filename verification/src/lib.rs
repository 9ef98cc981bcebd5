//! A verified string memory inspector.
//!
//! The library captures structural snapshots of string-like values
//! (owned growable buffers, borrowed views, exactly-sized boxed
//! strings and copy-on-write wrappers), classifies the allocation
//! behaviour revealed by a pair of snapshots taken around an
//! operation, and offers a small set of verified text
//! transformations that produce interesting before/after pairs.

mod clock;
pub mod compare;
pub mod encoding;
pub mod inspector;
pub mod tracker;
pub mod transformer;

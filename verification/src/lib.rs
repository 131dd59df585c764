//! An untyped owned-memory primitive: a handle that owns a region of raw
//! storage (bytes plus a size/alignment contract) without implying what
//! value, if any, lives inside it.
//!
//! Memory comes from a pluggable [`Allocator`] backend, can be grown or
//! shrunk in place, inspected as plain bytes, and converted without copying
//! into a typed single-value container ([`UninitBox`]) or a typed growable
//! array container ([`UninitVec`]) and back again.

mod alloc_shim;
mod allocation;
mod conversions;
mod layout;
mod storable;

pub use alloc_shim::{all_zero, granted, AllocError, Allocator, Global};
pub use allocation::{
    fresh_handle, grown, lemma_shrink_then_grow_keeps_prefix, normalized, realloc_granted,
    reallocated, shrunk, spec_from_parts, zero_extended, AllocView, Allocation,
};
pub use conversions::{
    lemma_box_round_trip, lemma_vec_round_trip, vec_layout_error, BoxConversionError, UninitBox,
    UninitVec, UninitVecView, VecConversionError,
};
pub use layout::Layout;
pub use storable::{lemma_u32_le_bytes_roundtrip, u32_le_bytes, u32_of_le_bytes, Storable};

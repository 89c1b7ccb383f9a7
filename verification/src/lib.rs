//! Storage allocation for dense matrices.
//!
//! A matrix dimension may be fixed at compile time ([`dimension::Const`]) or
//! known only at run time ([`dimension::Dynamic`]). The allocator picks a
//! buffer representation from the *types* of the two dimension descriptors of
//! a shape: a fixed-capacity buffer when both are compile-time constants, and
//! a heap-backed buffer when at least one is dynamic. It also reallocates a
//! buffer of one shape into a buffer of another shape, preserving the elements
//! the two shapes share in storage order.
//!
//! No buffer ever reaches a caller with an unwritten slot: a buffer's length
//! always equals the product of its two extents, and reallocation fills every
//! slot past the preserved elements with a caller-supplied fill element. The
//! cost of a slot the caller meant to overwrite anyway is one duplicated fill
//! value, and in exchange a shape that disagrees with its buffer's length is
//! unrepresentable.

pub mod allocator;
pub mod default_allocator;
pub mod dimension;
pub mod scalar;
pub mod storage;

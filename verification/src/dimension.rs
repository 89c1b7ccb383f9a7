//! Dimension descriptors: compile-time and run-time matrix extents.

use vstd::prelude::*;

verus! {

/// One extent of a matrix shape, either fixed at compile time ([`Const`]) or
/// known only while the program runs ([`Dynamic`]).
///
/// A descriptor's run-time [`value`](Dim::value) always equals the logical
/// [`extent`](Dim::extent) it stands for.
pub trait Dim: Sized + Copy {
    /// The logical extent this descriptor stands for.
    spec fn extent(&self) -> nat;

    /// Returns the extent as a machine integer.
    fn value(&self) -> (v: usize)
        ensures
            v as nat == self.extent(),
    ;
}

/// Marker for dimension descriptors whose extent is fixed at compile time.
pub trait DimName: Dim {
}

/// A compile-time dimension of extent `N`. It carries no run-time data.
#[derive(Clone, Copy)]
pub struct Const<const N: usize>;

impl<const N: usize> Dim for Const<N> {
    open spec fn extent(&self) -> nat {
        N as nat
    }

    fn value(&self) -> (v: usize)
        ensures
            v as nat == self.extent(),
    {
        N
    }
}

impl<const N: usize> DimName for Const<N> {
}

/// A run-time dimension: the extent is stored in the descriptor itself.
#[derive(Clone, Copy)]
pub struct Dynamic {
    value: usize,
}

impl Dynamic {
    /// Builds a run-time dimension of the given extent.
    pub fn new(value: usize) -> (d: Dynamic)
        ensures
            d.extent() == value as nat,
    {
        Dynamic { value }
    }
}

impl Dim for Dynamic {
    closed spec fn extent(&self) -> nat {
        self.value as nat
    }

    fn value(&self) -> (v: usize)
        ensures
            v as nat == self.extent(),
    {
        self.value
    }
}

} // verus!

//! The element trait for matrix storage.

use vstd::prelude::*;

verus! {

/// A matrix element: a value that can be duplicated cheaply.
///
/// The allocation and reallocation machinery duplicates elements through
/// [`inlined_clone`](Scalar::inlined_clone), whose contract pins the duplicate
/// to be equal to the original. The blanket implementation covers every `Copy`
/// type, where duplication is a plain copy.
pub trait Scalar: Sized + Clone {
    /// Duplicates the value; the duplicate equals the original.
    fn inlined_clone(&self) -> (r: Self)
        ensures
            r == *self,
    ;
}

impl<T: Copy> Scalar for T {
    fn inlined_clone(&self) -> (r: Self)
        ensures
            r == *self,
    {
        *self
    }
}

} // verus!

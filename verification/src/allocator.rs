//! The allocation and reallocation interface.
//!
//! An allocator picks, from the *types* of the two dimension descriptors of a
//! shape, which buffer representation to build: implementing
//! [`BaseAllocator`] fixes the representation as the associated
//! [`Buffer`](BaseAllocator::Buffer) type, so the choice costs nothing at run
//! time and cannot depend on the descriptors' run-time values.

use vstd::prelude::*;

use crate::dimension::Dim;
use crate::scalar::Scalar;
use crate::storage::{realloc_seq, Storage};

verus! {

/// A strategy for building buffers of shape `(R, C)`.
pub trait BaseAllocator<T, R: Dim, C: Dim> {
    /// The buffer representation this strategy produces.
    type Buffer: Storage<T>;

    /// Builds a buffer of shape `(nrows, ncols)` holding exactly the given
    /// elements, in storage (column-major) order.
    ///
    /// The caller must hand over exactly one element per position of the
    /// shape; [`try_allocate_from_iterator`](BaseAllocator::try_allocate_from_iterator)
    /// checks that count at run time instead.
    fn allocate_from_iterator(nrows: R, ncols: C, elems: Vec<T>) -> (buf: Self::Buffer)
        requires
            elems@.len() == nrows.extent() * ncols.extent(),
        ensures
            buf@ == elems@,
            buf.nrows() == nrows.extent(),
            buf.ncols() == ncols.extent(),
            buf.wf(),
    ;

    /// Builds a buffer of shape `(nrows, ncols)` holding exactly the given
    /// elements, or refuses: the result is `None` exactly when the element
    /// count differs from `nrows * ncols`, so a mismatched sequence can never
    /// end up truncated or padded in a buffer.
    fn try_allocate_from_iterator(nrows: R, ncols: C, elems: Vec<T>) -> (buf: Option<
        Self::Buffer,
    >)
        ensures
            match buf {
                Some(b) => {
                    &&& elems@.len() == nrows.extent() * ncols.extent()
                    &&& b@ == elems@
                    &&& b.nrows() == nrows.extent()
                    &&& b.ncols() == ncols.extent()
                    &&& b.wf()
                },
                None => elems@.len() != nrows.extent() * ncols.extent(),
            },
    {
        let count = elems.len();
        match nrows.value().checked_mul(ncols.value()) {
            Some(total) if total == count => Some(
                Self::allocate_from_iterator(nrows, ncols, elems),
            ),
            _ => None,
        }
    }
}

/// A strategy for turning a buffer of shape `(RFrom, CFrom)` into a buffer of
/// shape `(RTo, CTo)`, preserving the elements the two shapes share.
pub trait Reallocator<T: Scalar, RFrom: Dim, CFrom: Dim, RTo: Dim, CTo: Dim>: BaseAllocator<
    T,
    RFrom,
    CFrom,
> + BaseAllocator<T, RTo, CTo> {
    /// Consumes a buffer and builds one of the target shape from its
    /// elements: every position the two shapes share, counted in storage
    /// order, keeps its element, and every position past the old contents
    /// holds a duplicate of `fill`. See
    /// [`lemma_realloc_seq_identity`](crate::storage::lemma_realloc_seq_identity),
    /// [`lemma_realloc_seq_shrink`](crate::storage::lemma_realloc_seq_shrink) and
    /// [`lemma_realloc_seq_grow`](crate::storage::lemma_realloc_seq_grow) for
    /// the laws of the contents function.
    ///
    /// The target shape must fit in a machine integer;
    /// [`try_reallocate_copy`](Reallocator::try_reallocate_copy) checks that
    /// bound at run time instead.
    fn reallocate_copy(
        rto: RTo,
        cto: CTo,
        buf: <Self as BaseAllocator<T, RFrom, CFrom>>::Buffer,
        fill: T,
    ) -> (res: <Self as BaseAllocator<T, RTo, CTo>>::Buffer)
        requires
            rto.extent() * cto.extent() <= usize::MAX,
        ensures
            res@ == realloc_seq(buf@, rto.extent() * cto.extent(), fill),
            res.nrows() == rto.extent(),
            res.ncols() == cto.extent(),
            res.wf(),
    ;

    /// Reallocates like [`reallocate_copy`](Reallocator::reallocate_copy),
    /// or refuses: the result is `None` exactly when the target shape's
    /// total element count overflows a machine integer.
    fn try_reallocate_copy(
        rto: RTo,
        cto: CTo,
        buf: <Self as BaseAllocator<T, RFrom, CFrom>>::Buffer,
        fill: T,
    ) -> (res: Option<<Self as BaseAllocator<T, RTo, CTo>>::Buffer>)
        ensures
            match res {
                Some(b) => {
                    &&& rto.extent() * cto.extent() <= usize::MAX
                    &&& b@ == realloc_seq(buf@, rto.extent() * cto.extent(), fill)
                    &&& b.nrows() == rto.extent()
                    &&& b.ncols() == cto.extent()
                    &&& b.wf()
                },
                None => rto.extent() * cto.extent() > usize::MAX,
            },
    {
        match rto.value().checked_mul(cto.value()) {
            Some(_) => Some(Self::reallocate_copy(rto, cto, buf, fill)),
            None => None,
        }
    }
}

} // verus!

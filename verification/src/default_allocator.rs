//! The default matrix data storage allocator.
//!
//! It picks a fixed-capacity buffer for matrices whose two dimensions are
//! fixed at compile time, and a heap-backed buffer for matrices with at least
//! one dimension known only at run time.

use vstd::prelude::*;

use crate::allocator::{BaseAllocator, Reallocator};
use crate::dimension::{Const, Dim, DimName, Dynamic};
use crate::scalar::Scalar;
use crate::storage::{realloc_vec, ArrayStorage, Storage, VecStorage};

verus! {

/// An allocator based on [`ArrayStorage`] and [`VecStorage`] for
/// statically-sized and dynamically-sized matrices respectively.
pub struct DefaultAllocator;

// Static - Static
impl<T, const R: usize, const C: usize> BaseAllocator<T, Const<R>, Const<C>> for DefaultAllocator {
    type Buffer = ArrayStorage<T, R, C>;

    fn allocate_from_iterator(nrows: Const<R>, ncols: Const<C>, elems: Vec<T>) -> (buf:
        ArrayStorage<T, R, C>) {
        ArrayStorage::from_vec(elems)
    }
}

// Dynamic - Static
// Dynamic - Dynamic
impl<T, C: Dim> BaseAllocator<T, Dynamic, C> for DefaultAllocator {
    type Buffer = VecStorage<T, Dynamic, C>;

    fn allocate_from_iterator(nrows: Dynamic, ncols: C, elems: Vec<T>) -> (buf: VecStorage<
        T,
        Dynamic,
        C,
    >) {
        VecStorage::new(nrows, ncols, elems)
    }
}

// Static - Dynamic
impl<T, R: DimName> BaseAllocator<T, R, Dynamic> for DefaultAllocator {
    type Buffer = VecStorage<T, R, Dynamic>;

    fn allocate_from_iterator(nrows: R, ncols: Dynamic, elems: Vec<T>) -> (buf: VecStorage<
        T,
        R,
        Dynamic,
    >) {
        VecStorage::new(nrows, ncols, elems)
    }
}

// Anything -> Static x Static
impl<T: Scalar, RFrom: Dim, CFrom: Dim, const RTO: usize, const CTO: usize> Reallocator<
    T,
    RFrom,
    CFrom,
    Const<RTO>,
    Const<CTO>,
> for DefaultAllocator where Self: BaseAllocator<T, RFrom, CFrom> {
    fn reallocate_copy(
        rto: Const<RTO>,
        cto: Const<CTO>,
        buf: <Self as BaseAllocator<T, RFrom, CFrom>>::Buffer,
        fill: T,
    ) -> (res: ArrayStorage<T, RTO, CTO>) {
        let data = buf.into_vec();
        let len_to = rto.value() * cto.value();
        ArrayStorage::from_vec(realloc_vec(data, len_to, fill))
    }
}

// Static x Static -> Dynamic x Any
impl<T: Scalar, CTo: Dim, const RFROM: usize, const CFROM: usize> Reallocator<
    T,
    Const<RFROM>,
    Const<CFROM>,
    Dynamic,
    CTo,
> for DefaultAllocator {
    fn reallocate_copy(
        rto: Dynamic,
        cto: CTo,
        buf: ArrayStorage<T, RFROM, CFROM>,
        fill: T,
    ) -> (res: VecStorage<T, Dynamic, CTo>) {
        let data = buf.into_vec();
        let len_to = rto.value() * cto.value();
        VecStorage::new(rto, cto, realloc_vec(data, len_to, fill))
    }
}

// Static x Static -> Static x Dynamic
impl<T: Scalar, RTo: DimName, const RFROM: usize, const CFROM: usize> Reallocator<
    T,
    Const<RFROM>,
    Const<CFROM>,
    RTo,
    Dynamic,
> for DefaultAllocator {
    fn reallocate_copy(
        rto: RTo,
        cto: Dynamic,
        buf: ArrayStorage<T, RFROM, CFROM>,
        fill: T,
    ) -> (res: VecStorage<T, RTo, Dynamic>) {
        let data = buf.into_vec();
        let len_to = rto.value() * cto.value();
        VecStorage::new(rto, cto, realloc_vec(data, len_to, fill))
    }
}

// All conversions from a dynamic buffer to a dynamic buffer.
impl<T: Scalar, CFrom: Dim, CTo: Dim> Reallocator<T, Dynamic, CFrom, Dynamic, CTo>
    for DefaultAllocator {
    fn reallocate_copy(
        rto: Dynamic,
        cto: CTo,
        buf: VecStorage<T, Dynamic, CFrom>,
        fill: T,
    ) -> (res: VecStorage<T, Dynamic, CTo>) {
        let len_to = rto.value() * cto.value();
        let new_buf = buf.resize(len_to, fill);
        VecStorage::new(rto, cto, new_buf)
    }
}

impl<T: Scalar, CFrom: Dim, RTo: DimName> Reallocator<T, Dynamic, CFrom, RTo, Dynamic>
    for DefaultAllocator {
    fn reallocate_copy(
        rto: RTo,
        cto: Dynamic,
        buf: VecStorage<T, Dynamic, CFrom>,
        fill: T,
    ) -> (res: VecStorage<T, RTo, Dynamic>) {
        let len_to = rto.value() * cto.value();
        let new_buf = buf.resize(len_to, fill);
        VecStorage::new(rto, cto, new_buf)
    }
}

impl<T: Scalar, RFrom: DimName, CTo: Dim> Reallocator<T, RFrom, Dynamic, Dynamic, CTo>
    for DefaultAllocator {
    fn reallocate_copy(
        rto: Dynamic,
        cto: CTo,
        buf: VecStorage<T, RFrom, Dynamic>,
        fill: T,
    ) -> (res: VecStorage<T, Dynamic, CTo>) {
        let len_to = rto.value() * cto.value();
        let new_buf = buf.resize(len_to, fill);
        VecStorage::new(rto, cto, new_buf)
    }
}

impl<T: Scalar, RFrom: DimName, RTo: DimName> Reallocator<T, RFrom, Dynamic, RTo, Dynamic>
    for DefaultAllocator {
    fn reallocate_copy(
        rto: RTo,
        cto: Dynamic,
        buf: VecStorage<T, RFrom, Dynamic>,
        fill: T,
    ) -> (res: VecStorage<T, RTo, Dynamic>) {
        let len_to = rto.value() * cto.value();
        let new_buf = buf.resize(len_to, fill);
        VecStorage::new(rto, cto, new_buf)
    }
}

} // verus!

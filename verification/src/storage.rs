//! Contiguous element buffers and the reallocation contents function.

use vstd::prelude::*;

use crate::dimension::Dim;
use crate::scalar::Scalar;

verus! {

/// Contiguous storage of matrix elements.
///
/// A buffer's view is the sequence of its elements in storage (column-major)
/// order; a well-formed buffer holds exactly one element per position of its
/// shape.
pub trait Storage<T>: View<V = Seq<T>> + Sized {
    /// The number of rows of the stored matrix.
    spec fn nrows(&self) -> nat;

    /// The number of columns of the stored matrix.
    spec fn ncols(&self) -> nat;

    /// The buffer holds exactly one element per position of its shape.
    spec fn wf(&self) -> bool;

    /// A well-formed buffer holds exactly `nrows * ncols` elements.
    proof fn lemma_wf_len(&self)
        requires
            self.wf(),
        ensures
            self@.len() == self.nrows() * self.ncols(),
    ;

    /// Borrows the elements as a slice, in storage order.
    fn as_slice(&self) -> (s: &[T])
        ensures
            s@ == self@,
    ;

    /// Surrenders the elements as a plain vector, in storage order.
    fn into_vec(self) -> (v: Vec<T>)
        ensures
            v@ == self@,
    ;
}

/// The linear position, in storage order, of the element at row `i` and
/// column `j` of a matrix with `nrows` rows. Storage order is column-major:
/// the row index varies fastest.
pub open spec fn linear_index(i: nat, j: nat, nrows: nat) -> nat {
    i + j * nrows
}

/// The contents of a buffer of `src` elements reallocated to `new_len` slots:
/// every position that exists on both sides keeps its element, and every
/// position past the end of `src` holds `fill`.
pub open spec fn realloc_seq<T>(src: Seq<T>, new_len: nat, fill: T) -> Seq<T> {
    Seq::new(new_len, |i: int| if i < src.len() { src[i] } else { fill })
}

/// Law: reallocating to the same total length keeps the contents unchanged.
pub proof fn lemma_realloc_seq_identity<T>(src: Seq<T>, fill: T)
    ensures
        realloc_seq(src, src.len(), fill) == src,
{
    assert(realloc_seq(src, src.len(), fill) =~= src);
}

/// Law: reallocating to a smaller total length keeps exactly the leading
/// `new_len` elements, in storage order.
pub proof fn lemma_realloc_seq_shrink<T>(src: Seq<T>, new_len: nat, fill: T)
    requires
        new_len <= src.len(),
    ensures
        realloc_seq(src, new_len, fill) == src.take(new_len as int),
{
    assert(realloc_seq(src, new_len, fill) =~= src.take(new_len as int));
}

/// Law: reallocating to a larger total length keeps the whole contents as a
/// prefix, and every slot past them holds `fill`.
pub proof fn lemma_realloc_seq_grow<T>(src: Seq<T>, new_len: nat, fill: T)
    requires
        src.len() <= new_len,
    ensures
        realloc_seq(src, new_len, fill).take(src.len() as int) == src,
        forall|i: int| src.len() <= i < new_len ==> realloc_seq(src, new_len, fill)[i] == fill,
{
    assert(realloc_seq(src, new_len, fill).take(src.len() as int) =~= src);
}

/// Reallocates a plain vector to `new_len` slots: the overlapping prefix is
/// kept and every slot past the old contents holds a duplicate of `fill`.
pub(crate) fn realloc_vec<T: Scalar>(src: Vec<T>, new_len: usize, fill: T) -> (v: Vec<T>)
    ensures
        v@ == realloc_seq(src@, new_len as nat, fill),
{
    let ghost src0 = src@;
    let mut v = src;
    if new_len <= v.len() {
        v.truncate(new_len);
        proof {
            assert(v@ =~= realloc_seq(src0, new_len as nat, fill));
        }
    } else {
        proof {
            assert(v@ =~= realloc_seq(src0, v@.len(), fill));
        }
        while v.len() < new_len
            invariant
                src0.len() <= v@.len() <= new_len,
                v@ == realloc_seq(src0, v@.len(), fill),
            decreases new_len - v.len(),
        {
            v.push(fill.inlined_clone());
            proof {
                assert(v@ =~= realloc_seq(src0, v@.len(), fill));
            }
        }
        proof {
            assert(v@ =~= realloc_seq(src0, new_len as nat, fill));
        }
    }
    v
}

/// A fixed-capacity buffer for a matrix whose two extents `R` and `C` are
/// both fixed at compile time. The capacity is baked into the type: the
/// buffer always holds exactly `R * C` elements.
pub struct ArrayStorage<T, const R: usize, const C: usize> {
    data: Vec<T>,
}

impl<T, const R: usize, const C: usize> View for ArrayStorage<T, R, C> {
    type V = Seq<T>;

    closed spec fn view(&self) -> Seq<T> {
        self.data@
    }
}

impl<T, const R: usize, const C: usize> ArrayStorage<T, R, C> {
    /// Wraps exactly `R * C` elements, given in storage order.
    pub fn from_vec(data: Vec<T>) -> (s: Self)
        requires
            data@.len() == R * C,
        ensures
            s@ == data@,
            s.wf(),
    {
        ArrayStorage { data }
    }

    /// The number of elements the buffer holds.
    pub fn len(&self) -> (n: usize)
        ensures
            n == self@.len(),
    {
        self.data.len()
    }

    /// Borrows the element at linear position `i` in storage order.
    pub fn get_linear(&self, i: usize) -> (e: &T)
        requires
            i < self@.len(),
        ensures
            *e == self@[i as int],
    {
        &self.data[i]
    }

    /// Overwrites the element at linear position `i` in storage order.
    pub fn set_linear(&mut self, i: usize, value: T)
        requires
            i < old(self)@.len(),
        ensures
            final(self)@ == old(self)@.update(i as int, value),
            final(self).wf() == old(self).wf(),
    {
        self.data[i] = value;
    }

    /// Borrows the element at row `i`, column `j`.
    pub fn get_at(&self, i: usize, j: usize) -> (e: &T)
        requires
            self.wf(),
            i < self.nrows(),
            j < self.ncols(),
        ensures
            *e == self@[linear_index(i as nat, j as nat, self.nrows()) as int],
    {
        let n = self.data.len();
        proof {
            assert(i + j * (R as int) < n as int) by (nonlinear_arith)
                requires
                    i < R as int,
                    j < C as int,
                    n as int == (R as int) * (C as int),
            ;
        }
        &self.data[i + j * R]
    }
}

impl<T, const R: usize, const C: usize> Storage<T> for ArrayStorage<T, R, C> {
    open spec fn nrows(&self) -> nat {
        R as nat
    }

    open spec fn ncols(&self) -> nat {
        C as nat
    }

    open spec fn wf(&self) -> bool {
        self@.len() == R * C
    }

    proof fn lemma_wf_len(&self) {
    }

    fn as_slice(&self) -> (s: &[T]) {
        self.data.as_slice()
    }

    fn into_vec(self) -> (v: Vec<T>) {
        self.data
    }
}

/// A heap-backed buffer for a matrix with at least one run-time extent. It
/// stores the two dimension descriptors of its shape beside the elements.
pub struct VecStorage<T, R: Dim, C: Dim> {
    data: Vec<T>,
    nrows: R,
    ncols: C,
}

impl<T, R: Dim, C: Dim> View for VecStorage<T, R, C> {
    type V = Seq<T>;

    closed spec fn view(&self) -> Seq<T> {
        self.data@
    }
}

impl<T, R: Dim, C: Dim> VecStorage<T, R, C> {
    /// Wraps elements given in storage order; there must be exactly one per
    /// position of the shape `(nrows, ncols)`.
    pub fn new(nrows: R, ncols: C, data: Vec<T>) -> (s: Self)
        requires
            data@.len() == nrows.extent() * ncols.extent(),
        ensures
            s@ == data@,
            s.nrows() == nrows.extent(),
            s.ncols() == ncols.extent(),
            s.wf(),
    {
        VecStorage { data, nrows, ncols }
    }

    /// The number of elements the buffer holds.
    pub fn len(&self) -> (n: usize)
        ensures
            n == self@.len(),
    {
        self.data.len()
    }

    /// Borrows the element at linear position `i` in storage order.
    pub fn get_linear(&self, i: usize) -> (e: &T)
        requires
            i < self@.len(),
        ensures
            *e == self@[i as int],
    {
        &self.data[i]
    }

    /// Overwrites the element at linear position `i` in storage order.
    pub fn set_linear(&mut self, i: usize, value: T)
        requires
            i < old(self)@.len(),
        ensures
            final(self)@ == old(self)@.update(i as int, value),
            final(self).nrows() == old(self).nrows(),
            final(self).ncols() == old(self).ncols(),
            final(self).wf() == old(self).wf(),
    {
        self.data[i] = value;
    }

    /// Borrows the element at row `i`, column `j`.
    pub fn get_at(&self, i: usize, j: usize) -> (e: &T)
        requires
            self.wf(),
            i < self.nrows(),
            j < self.ncols(),
        ensures
            *e == self@[linear_index(i as nat, j as nat, self.nrows()) as int],
    {
        let r = self.nrows.value();
        let n = self.data.len();
        proof {
            let c = self.ncols();
            assert(i + j * (r as int) < n as int) by (nonlinear_arith)
                requires
                    i < r as int,
                    j < c,
                    n as int == (r as int) * c,
            ;
        }
        &self.data[i + j * r]
    }
}

impl<T: Scalar, R: Dim, C: Dim> VecStorage<T, R, C> {
    /// Consumes the buffer and reallocates its backing vector to `new_len`
    /// slots, reusing the allocation where it can: the overlapping prefix is
    /// kept and every slot past the old contents holds a duplicate of `fill`.
    pub fn resize(self, new_len: usize, fill: T) -> (v: Vec<T>)
        ensures
            v@ == realloc_seq(self@, new_len as nat, fill),
    {
        realloc_vec(self.data, new_len, fill)
    }
}

impl<T, R: Dim, C: Dim> Storage<T> for VecStorage<T, R, C> {
    closed spec fn nrows(&self) -> nat {
        self.nrows.extent()
    }

    closed spec fn ncols(&self) -> nat {
        self.ncols.extent()
    }

    closed spec fn wf(&self) -> bool {
        self@.len() == self.nrows() * self.ncols()
    }

    proof fn lemma_wf_len(&self) {
    }

    fn as_slice(&self) -> (s: &[T]) {
        self.data.as_slice()
    }

    fn into_vec(self) -> (v: Vec<T>) {
        self.data
    }
}

} // verus!

//! Kinematic-vector storage and small numeric helpers.
//!
//! Per-axis data lives in a container that either has a fixed size known at
//! compile time (stack storage) or a size chosen at run time (heap storage);
//! all algorithms see it as a sequence of length equal to the number of
//! degrees of freedom.

use vstd::prelude::*;

verus! {

/// The square of a value.
pub fn pow2(v: i64) -> (r: i64)
    requires
        -3037000499 <= v <= 3037000499,
    ensures
        r == v * v,
{
    proof {
        assert(-3037000499 <= v <= 3037000499 ==> -9223372036854775807 <= v * v
            <= 9223372030926249001) by (nonlinear_arith);
    }
    v * v
}

/// A per-axis container that stores its elements either on the stack with a
/// fixed size `N`, or on the heap with a size chosen at run time.
#[derive(Debug, Clone)]
pub enum DataArrayOrVec<T: core::fmt::Debug, const N: usize> {
    /// Stack storage with a fixed-size array.
    Stack([T; N]),
    /// Heap storage with a dynamically sized vector.
    Heap(Vec<T>),
}

impl<T: core::fmt::Debug, const N: usize> View for DataArrayOrVec<T, N> {
    type V = Seq<T>;

    open spec fn view(&self) -> Seq<T> {
        match self {
            DataArrayOrVec::Stack(a) => a@,
            DataArrayOrVec::Heap(v) => v@,
        }
    }
}

impl<T: Copy + core::fmt::Debug, const N: usize> DataArrayOrVec<T, N> {
    /// Create a container filled with `initial`.
    ///
    /// With `N > 0` the container is a stack array of size `N` and `dofs` is
    /// ignored; with `N == 0` it is a heap vector whose length is `dofs`, or
    /// one when `dofs` is absent.
    pub fn new(dofs: Option<usize>, initial: T) -> (r: Self)
        ensures
            N > 0 ==> r@.len() == N,
            N == 0 ==> r@.len() == dofs.unwrap_or(1),
            forall|i: int| 0 <= i < r@.len() ==> r@[i] == initial,
    {
        let size: usize = match dofs {
            Some(d) => d,
            None => 1,
        };
        if N > 0 {
            DataArrayOrVec::Stack([initial; N])
        } else {
            let mut v: Vec<T> = Vec::new();
            let mut i: usize = 0;
            while i < size
                invariant
                    i <= size,
                    v@.len() == i,
                    forall|k: int| 0 <= k < i ==> v@[k] == initial,
                decreases size - i,
            {
                v.push(initial);
                i = i + 1;
            }
            DataArrayOrVec::Heap(v)
        }
    }

    /// The number of elements held.
    pub fn len(&self) -> (r: usize)
        ensures
            r == self@.len(),
    {
        match self {
            DataArrayOrVec::Stack(a) => N,
            DataArrayOrVec::Heap(v) => v.len(),
        }
    }

    /// The element at `index`, or nothing when `index` is out of range.
    pub fn get(&self, index: usize) -> (r: Option<&T>)
        ensures
            index < self@.len() ==> (r matches Some(x) && *x == self@[index as int]),
            index >= self@.len() ==> r is None,
    {
        match self {
            DataArrayOrVec::Stack(a) => {
                if index < N {
                    Some(&a[index])
                } else {
                    None
                }
            },
            DataArrayOrVec::Heap(v) => {
                if index < v.len() {
                    Some(&v[index])
                } else {
                    None
                }
            },
        }
    }

    /// The elements in order, as a vector.
    pub fn iter(&self) -> (r: Vec<T>)
        ensures
            r@ == self@,
    {
        let mut out: Vec<T> = Vec::new();
        match self {
            DataArrayOrVec::Stack(a) => {
                let mut i: usize = 0;
                while i < N
                    invariant
                        i <= N,
                        a@.len() == N,
                        out@ == a@.subrange(0, i as int),
                    decreases N - i,
                {
                    out.push(a[i]);
                    proof {
                        assert(out@ =~= a@.subrange(0, i + 1 as int));
                    }
                    i = i + 1;
                }
                proof {
                    assert(out@ =~= a@);
                }
            },
            DataArrayOrVec::Heap(v) => {
                let mut i: usize = 0;
                while i < v.len()
                    invariant
                        i <= v@.len(),
                        out@ == v@.subrange(0, i as int),
                    decreases v@.len() - i,
                {
                    out.push(v[i]);
                    proof {
                        assert(out@ =~= v@.subrange(0, i + 1 as int));
                    }
                    i = i + 1;
                }
                proof {
                    assert(out@ =~= v@);
                }
            },
        }
        out
    }

    /// Replace the element at `index` with `value`.
    pub fn set(&mut self, index: usize, value: T)
        requires
            index < old(self)@.len(),
        ensures
            final(self)@ == old(self)@.update(index as int, value),
    {
        match self {
            DataArrayOrVec::Stack(a) => {
                a[index] = value;
            },
            DataArrayOrVec::Heap(v) => {
                v[index] = value;
            },
        }
    }
}

} // verus!

//! Fixed-capacity circular window used for moving averages.
//!
//! Patterns and motion detection share this primitive: a window of the last
//! `capacity` samples supporting sum, mean, head (newest) and tail (oldest).

use vstd::prelude::*;

use crate::math::div_trunc;
use crate::math::div_trunc64;
use crate::math::sat_add64;
use crate::math::sat_add_spec;

verus! {

/// Element type usable in a moving-average window: it supports a
/// componentwise sum and division by a sample count.  The three spec
/// functions give the mathematical meaning of the executable methods.
pub trait Blend: Sized + Copy {
    /// Meaning of `blend_add`.
    spec fn add_spec(self, other: Self) -> Self;

    /// Meaning of `blend_div`.
    spec fn div_spec(self, n: int) -> Self;

    /// Meaning of `blend_zero`.
    spec fn zero_spec() -> Self;

    /// Componentwise sum of two elements.
    fn blend_add(self, other: Self) -> (r: Self)
        ensures
            r == self.add_spec(other),
    ;

    /// Division of every component by a positive sample count.
    fn blend_div(self, n: usize) -> (r: Self)
        requires
            1 <= n <= i64::MAX,
        ensures
            r == self.div_spec(n as int),
    ;

    /// The additive starting point for sums.
    fn blend_zero() -> (r: Self)
        ensures
            r == Self::zero_spec(),
    ;
}

impl Blend for i64 {
    open spec fn add_spec(self, other: i64) -> i64 {
        sat_add_spec(self as int, other as int) as i64
    }

    open spec fn div_spec(self, n: int) -> i64 {
        div_trunc(self as int, n) as i64
    }

    open spec fn zero_spec() -> i64 {
        0
    }

    fn blend_add(self, other: i64) -> (r: i64) {
        sat_add64(self, other)
    }

    fn blend_div(self, n: usize) -> (r: i64) {
        div_trunc64(self, n)
    }

    fn blend_zero() -> (r: i64) {
        0
    }
}

/// Left-to-right sum of a sequence of elements, starting from zero.
pub open spec fn sum_spec<T: Blend>(s: Seq<T>) -> T
    decreases s.len(),
{
    if s.len() == 0 {
        T::zero_spec()
    } else {
        sum_spec(s.drop_last()).add_spec(s.last())
    }
}

/// Fixed-capacity circular window over elements of type `T`.
///
/// Until `capacity` values have been pushed, the getters return `None`;
/// once full, every further push overwrites the oldest value.
pub struct CircularBuffer<T> {
    /// Storage; grows up to `capacity` and is then written circularly.
    buffer: Vec<T>,
    /// Next storage slot to overwrite once the buffer is full.
    ptr: usize,
    /// Number of samples in a full window.
    capacity: usize,
}

impl<T: Blend> CircularBuffer<T> {
    /// The stored values in raw storage order.
    pub closed spec fn raw(&self) -> Seq<T> {
        self.buffer@
    }

    /// The storage slot the next overwrite lands in.
    pub closed spec fn rot(&self) -> int {
        self.ptr as int
    }

    /// The number of samples in a full window.
    pub closed spec fn cap(&self) -> int {
        self.capacity as int
    }

    /// Structural invariant.
    pub closed spec fn wf(&self) -> bool {
        &&& 1 <= self.capacity <= i64::MAX
        &&& self.buffer@.len() <= self.capacity
        &&& self.ptr < self.capacity
        &&& (self.buffer@.len() < self.capacity ==> self.ptr == 0)
    }

    /// The stored values ordered oldest to newest.
    pub open spec fn contents(&self) -> Seq<T> {
        self.raw().subrange(self.rot(), self.raw().len() as int) + self.raw().subrange(
            0,
            self.rot(),
        )
    }

    /// Whether a full window of samples has been seen.
    pub open spec fn is_full_spec(&self) -> bool {
        self.contents().len() == self.cap()
    }

    /// What `mean` returns: the oldest-first sum of the window divided by
    /// the capacity, once the window is full.
    pub open spec fn mean_spec(&self) -> Option<T> {
        if self.is_full_spec() {
            Some(sum_spec(self.contents()).div_spec(self.cap()))
        } else {
            None
        }
    }

    /// What `head` returns: the newest value, once the window is full.
    pub open spec fn head_spec(&self) -> Option<T> {
        if self.is_full_spec() {
            Some(self.contents().last())
        } else {
            None
        }
    }

    /// What `tail` returns: the oldest value, once the window is full.
    pub open spec fn tail_spec(&self) -> Option<T> {
        if self.is_full_spec() {
            Some(self.contents()[0])
        } else {
            None
        }
    }

    /// Create a new circular buffer with the specified capacity.
    pub fn new(capacity: usize) -> (r: Self)
        requires
            1 <= capacity <= i64::MAX,
        ensures
            r.wf(),
            r.contents() == Seq::<T>::empty(),
            r.raw() == Seq::<T>::empty(),
            r.rot() == 0,
            r.cap() == capacity,
    {
        let r = Self { buffer: Vec::new(), ptr: 0, capacity };
        proof {
            assert(r.contents() =~= Seq::<T>::empty());
        }
        r
    }

    /// Push a new element, overwriting the oldest when the window is full.
    pub fn push(&mut self, value: T)
        requires
            old(self).wf(),
        ensures
            final(self).wf(),
            final(self).cap() == old(self).cap(),
            old(self).contents().len() < old(self).cap() ==> {
                &&& final(self).raw() == old(self).raw().push(value)
                &&& final(self).contents() == old(self).contents().push(value)
            },
            old(self).contents().len() == old(self).cap() ==> {
                &&& final(self).raw() == old(self).raw().update(old(self).rot(), value)
                &&& final(self).contents() == old(self).contents().subrange(
                    1,
                    old(self).cap(),
                ).push(value)
            },
    {
        if self.buffer.len() < self.capacity {
            self.buffer.push(value);
            proof {
                assert(self.contents() =~= old(self).contents().push(value));
            }
        } else {
            let ghost pre = *self;
            self.buffer[self.ptr] = value;
            self.ptr = if self.ptr + 1 == self.capacity {
                0
            } else {
                self.ptr + 1
            };
            proof {
                let c = pre.cap();
                assert(self.contents() =~= pre.contents().subrange(1, c).push(value));
            }
        }
    }

    /// Empty the window; the capacity is kept.
    pub fn clear(&mut self)
        requires
            old(self).wf(),
        ensures
            final(self).wf(),
            final(self).cap() == old(self).cap(),
            final(self).contents() == Seq::<T>::empty(),
            final(self).raw() == Seq::<T>::empty(),
            final(self).rot() == 0,
    {
        self.buffer.clear();
        self.ptr = 0;
        proof {
            assert(self.contents() =~= Seq::<T>::empty());
        }
    }

    /// How many samples the window currently holds.
    pub fn len(&self) -> (r: usize)
        requires
            self.wf(),
        ensures
            r == self.contents().len(),
    {
        self.buffer.len()
    }

    /// Whether a full window of samples has been seen.
    pub fn is_full(&self) -> (r: bool)
        requires
            self.wf(),
        ensures
            r == self.is_full_spec(),
    {
        self.buffer.len() == self.capacity
    }

    /// If the window is full, an immutable reference to the raw storage
    /// (in storage order, not oldest-first order); `None` until then.
    pub fn buffer(&self) -> (r: Option<&Vec<T>>)
        requires
            self.wf(),
        ensures
            match r {
                Some(b) => self.is_full_spec() && b@ == self.raw(),
                None => !self.is_full_spec(),
            },
    {
        if self.buffer.len() == self.capacity {
            Some(&self.buffer)
        } else {
            None
        }
    }

    /// If the window is full, the mean of the contained values (summed
    /// oldest first, divided by the capacity); `None` until then.
    pub fn mean(&self) -> (r: Option<T>)
        requires
            self.wf(),
        ensures
            r == self.mean_spec(),
    {
        if self.buffer.len() == self.capacity {
            let n = self.buffer.len();
            let p = self.ptr;
            let mut total = T::blend_zero();
            let mut i: usize = 0;
            proof {
                assert(self.contents().take(0) =~= Seq::<T>::empty());
            }
            while i < n
                invariant
                    self.wf(),
                    n == self.buffer@.len(),
                    n == self.capacity,
                    p == self.ptr,
                    i <= n,
                    total == sum_spec(self.contents().take(i as int)),
                decreases n - i,
            {
                let idx = if i < n - p {
                    p + i
                } else {
                    i - (n - p)
                };
                proof {
                    self.lemma_contents_cover();
                    assert(self.contents()[i as int] == self.raw()[idx as int]);
                    assert(self.contents().take(i + 1).drop_last() =~= self.contents().take(
                        i as int,
                    ));
                }
                total = total.blend_add(self.buffer[idx]);
                i += 1;
            }
            proof {
                assert(self.contents().take(n as int) =~= self.contents());
            }
            Some(total.blend_div(self.capacity))
        } else {
            None
        }
    }

    /// If the window is full, the most recently written value; `None` until
    /// then.
    pub fn head(&self) -> (r: Option<T>)
        requires
            self.wf(),
        ensures
            r == self.head_spec(),
    {
        if self.buffer.len() == self.capacity {
            let ptr = if self.ptr == 0 {
                self.capacity - 1
            } else {
                self.ptr - 1
            };
            Some(self.buffer[ptr])
        } else {
            None
        }
    }

    /// If the window is full, the oldest value; `None` until then.
    pub fn tail(&self) -> (r: Option<T>)
        requires
            self.wf(),
        ensures
            r == self.tail_spec(),
    {
        if self.buffer.len() == self.capacity {
            Some(self.buffer[self.ptr])
        } else {
            None
        }
    }
}

impl<T: Blend> CircularBuffer<T> {
    /// Structural facts of a well-formed buffer, for callers that cannot
    /// see the representation.
    pub proof fn lemma_wf_facts(&self)
        requires
            self.wf(),
        ensures
            1 <= self.cap() <= i64::MAX,
            self.raw().len() <= self.cap(),
            self.contents().len() == self.raw().len(),
            0 <= self.rot() < self.cap(),
            self.raw().len() < self.cap() ==> self.rot() == 0,
    {
    }

    /// How the oldest-first contents map onto the raw storage: entry `i`
    /// of the contents is the raw entry `rot + i`, wrapping around.
    pub proof fn lemma_contents_cover(&self)
        requires
            self.wf(),
        ensures
            self.contents().len() == self.raw().len(),
            forall|i: int|
                0 <= i < self.contents().len() ==> #[trigger] self.contents()[i] == if i
                    < self.raw().len() - self.rot() {
                    self.raw()[self.rot() + i]
                } else {
                    self.raw()[i - (self.raw().len() - self.rot())]
                },
    {
    }
}

/// The sum of a sequence of equal values `v` is `len * v`, as long as that
/// product stays in range.
proof fn lemma_sum_constant(s: Seq<i64>, v: i64)
    requires
        forall|i: int| 0 <= i < s.len() ==> s[i] == v,
        i64::MIN <= s.len() * v <= i64::MAX,
    ensures
        sum_spec(s) as int == s.len() * v,
    decreases s.len(),
{
    if s.len() == 0 {
    } else {
        let n = s.len() as int;
        assert((n - 1) * v == n * v - v) by (nonlinear_arith);
        assert(forall|i: int| 0 <= i < s.drop_last().len() ==> s.drop_last()[i] == v);
        if v >= 0 {
            assert(0 <= (n - 1) * v <= n * v) by (nonlinear_arith)
                requires
                    n >= 1 && v >= 0,
            ;
        } else {
            assert(n * v <= (n - 1) * v <= 0) by (nonlinear_arith)
                requires
                    n >= 1 && v < 0,
            ;
        }
        lemma_sum_constant(s.drop_last(), v);
    }
}

/// Law: a full window holding only the value `v` has mean `v`, head `v` and
/// tail `v` (the sum `capacity * v` must fit the element type).  This is the
/// state a buffer reaches after `capacity` pushes of `v`.
pub proof fn lemma_constant_window(b: CircularBuffer<i64>, v: i64)
    requires
        b.wf(),
        b.is_full_spec(),
        forall|i: int| 0 <= i < b.contents().len() ==> b.contents()[i] == v,
        i64::MIN <= b.cap() * v <= i64::MAX,
    ensures
        b.mean_spec() == Some(v),
        b.head_spec() == Some(v),
        b.tail_spec() == Some(v),
{
    let n = b.cap();
    lemma_sum_constant(b.contents(), v);
    let s = sum_spec(b.contents()) as int;
    assert(s == n * v);
    if v >= 0 {
        assert((n * v) / n == v) by (nonlinear_arith)
            requires
                n >= 1,
        ;
    } else {
        assert((n * (-v)) / n == -v) by (nonlinear_arith)
            requires
                n >= 1,
        ;
        assert(-(n * v) == n * (-v)) by (nonlinear_arith);
    }
    assert(div_trunc(s, n) == v);
}

} // verus!

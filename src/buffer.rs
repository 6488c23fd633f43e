//! The host-side array buffer and its algorithms: slicing, indexed assignment
//! with nil padding, splicing, and reversal.

use crate::value::Value;
use std::collections::VecDeque;
use vstd::prelude::*;

verus! {

/// `k` nils.
pub open spec fn nils(k: nat) -> Seq<Value> {
    Seq::new(k, |_i: int| Value::Nil)
}

/// `a`, extended with nils to length `k` if it is shorter.
pub open spec fn padded(a: Seq<Value>, k: int) -> Seq<Value> {
    if k > a.len() {
        a + nils((k - a.len()) as nat)
    } else {
        a
    }
}

/// The elements of `a` from position `k` on; empty when `k` is past the end.
pub open spec fn from(a: Seq<Value>, k: int) -> Seq<Value> {
    if k < a.len() {
        a.subrange(k, a.len() as int)
    } else {
        Seq::empty()
    }
}

/// Up to `len` elements of `a` starting at `start`, clipped to the end of `a`.
pub open spec fn slice_of(a: Seq<Value>, start: int, len: int) -> Seq<Value> {
    if start >= a.len() {
        Seq::empty()
    } else if start + len < a.len() {
        a.subrange(start, start + len)
    } else {
        a.subrange(start, a.len() as int)
    }
}

/// `a` with `v` written at position `i`, padded with nils first if `i` is
/// past the end.
pub open spec fn assigned(a: Seq<Value>, i: int, v: Value) -> Seq<Value> {
    padded(a, i + 1).update(i, v)
}

/// The result of replacing `len` elements of `a` at `start` by `other`.
///
/// A zero `len` inserts; a `start` past the end fills the gap with nils and
/// appends; a replacement that ends strictly before the end of `a` keeps what
/// follows the replaced range; otherwise `other` becomes the tail.
pub open spec fn spliced(a: Seq<Value>, start: int, len: int, other: Seq<Value>) -> Seq<Value> {
    if len == 0 {
        padded(a, start).subrange(0, start) + other + from(padded(a, start), start)
    } else if start > a.len() {
        padded(a, start) + other
    } else if start + other.len() < a.len() {
        a.subrange(0, start) + other + from(a, start + len)
    } else {
        a.subrange(0, start) + other
    }
}

/// `a` in reverse order.
pub open spec fn reversed(a: Seq<Value>) -> Seq<Value> {
    Seq::new(a.len(), |k: int| a[a.len() - 1 - k])
}

/// The host struct behind a guest `Array`: an ordered buffer of values.
pub struct Array {
    pub buffer: VecDeque<Value>,
}

impl View for Array {
    type V = Seq<Value>;

    open spec fn view(&self) -> Seq<Value> {
        self.buffer@
    }
}

impl Array {
    /// An empty array.
    pub fn new() -> (r: Array)
        ensures
            r@ == Seq::<Value>::empty(),
    {
        Array { buffer: VecDeque::new() }
    }

    /// An empty array with room for `capacity` elements.
    pub fn with_capacity(capacity: usize) -> (r: Array)
        ensures
            r@ == Seq::<Value>::empty(),
    {
        Array { buffer: VecDeque::with_capacity(capacity) }
    }

    /// An array holding `values` in order.
    pub fn from_values(values: &[Value]) -> (r: Array)
        ensures
            r@ == values@,
    {
        let mut buffer = VecDeque::with_capacity(values.len());
        let mut j: usize = 0;
        while j < values.len()
            invariant
                j <= values@.len(),
                buffer@ == values@.subrange(0, j as int),
            decreases values@.len() - j,
        {
            buffer.push_back(values[j]);
            j += 1;
            assert(buffer@ =~= values@.subrange(0, j as int));
        }
        assert(values@.subrange(0, values@.len() as int) =~= values@);
        Array { buffer }
    }

    /// Number of elements.
    pub fn len(&self) -> (r: usize)
        ensures
            r == self@.len(),
    {
        self.buffer.len()
    }

    /// Whether the array has no elements.
    pub fn is_empty(&self) -> (r: bool)
        ensures
            r == (self@.len() == 0),
    {
        self.buffer.len() == 0
    }

    /// The element at `i`, if there is one.
    pub fn get(&self, i: usize) -> (r: Option<Value>)
        ensures
            r == (if i < self@.len() {
                Some(self@[i as int])
            } else {
                None
            }),
    {
        if i < self.buffer.len() {
            Some(self.buffer[i])
        } else {
            None
        }
    }

    /// The elements, in order, as a `Vec`.
    pub fn to_vec(&self) -> (r: Vec<Value>)
        ensures
            r@ == self@,
    {
        let mut out: Vec<Value> = Vec::with_capacity(self.buffer.len());
        let mut j: usize = 0;
        while j < self.buffer.len()
            invariant
                j <= self@.len(),
                out@ == self@.subrange(0, j as int),
            decreases self@.len() - j,
        {
            out.push(self.buffer[j]);
            j += 1;
            assert(out@ =~= self@.subrange(0, j as int));
        }
        assert(self@.subrange(0, self@.len() as int) =~= self@);
        out
    }

    /// A new array with the same elements, taken before any later mutation.
    pub fn snapshot(&self) -> (r: Array)
        ensures
            r@ == self@,
    {
        self.slice(0, self.buffer.len())
    }

    /// A new array with up to `len` elements starting at `start`, clipped to
    /// the end; never padded.
    pub fn slice(&self, start: usize, len: usize) -> (r: Array)
        ensures
            r@ == slice_of(self@, start as int, len as int),
    {
        let n = self.buffer.len();
        let mut buffer = VecDeque::new();
        if start >= n {
            return Array { buffer };
        }
        let end = if len < n - start {
            start + len
        } else {
            n
        };
        let mut j = start;
        while j < end
            invariant
                start <= j <= end <= n,
                n == self@.len(),
                buffer@ == self@.subrange(start as int, j as int),
            decreases end - j,
        {
            buffer.push_back(self.buffer[j]);
            j += 1;
            assert(buffer@ =~= self@.subrange(start as int, j as int));
        }
        Array { buffer }
    }

    /// Appends `v`.
    pub fn push(&mut self, v: Value)
        ensures
            final(self)@ == old(self)@.push(v),
    {
        self.buffer.push_back(v);
    }

    /// Removes and returns the last element, if any.
    pub fn pop(&mut self) -> (r: Option<Value>)
        ensures
            old(self)@.len() == 0 ==> r == None::<Value> && final(self)@ == old(self)@,
            old(self)@.len() > 0 ==> r == Some(old(self)@.last()) && final(self)@ == old(
                self,
            )@.drop_last(),
    {
        self.buffer.pop_back()
    }

    /// Inserts `v` at the front.
    pub fn unshift(&mut self, v: Value)
        ensures
            final(self)@ == seq![v] + old(self)@,
    {
        self.buffer.push_front(v);
    }

    /// Removes and returns the first element, if any.
    pub fn shift(&mut self) -> (r: Option<Value>)
        ensures
            old(self)@.len() == 0 ==> r == None::<Value> && final(self)@ == old(self)@,
            old(self)@.len() > 0 ==> r == Some(old(self)@[0]) && final(self)@ == old(self)@.subrange(
                1,
                old(self)@.len() as int,
            ),
    {
        self.buffer.pop_front()
    }

    /// Removes up to `count` elements from the front, stopping early when the
    /// buffer empties, and returns them in order as a new array.
    pub fn shift_n(&mut self, count: usize) -> (r: Array)
        ensures
            r@ == old(self)@.subrange(0, vstd::math::min(count as int, old(self)@.len() as int)),
            final(self)@ == old(self)@.subrange(
                vstd::math::min(count as int, old(self)@.len() as int),
                old(self)@.len() as int,
            ),
    {
        let ghost a = self@;
        let k = if count < self.buffer.len() {
            count
        } else {
            self.buffer.len()
        };
        let mut popped = VecDeque::with_capacity(k);
        let mut j: usize = 0;
        while j < k
            invariant
                k <= a.len(),
                j <= k,
                popped@ == a.subrange(0, j as int),
                self@ == a.subrange(j as int, a.len() as int),
            decreases k - j,
        {
            if let Some(item) = self.buffer.pop_front() {
                popped.push_back(item);
            }
            j += 1;
            assert(popped@ =~= a.subrange(0, j as int));
            assert(self@ =~= a.subrange(j as int, a.len() as int));
        }
        Array { buffer: popped }
    }

    /// Removes every element.
    pub fn clear(&mut self)
        ensures
            final(self)@ == Seq::<Value>::empty(),
    {
        self.buffer.clear();
    }

    /// Replaces the element at `i`, which must be in bounds.
    fn overwrite(&mut self, i: usize, v: Value)
        requires
            i < old(self)@.len(),
        ensures
            final(self)@ == old(self)@.update(i as int, v),
    {
        let ghost a = self@;
        self.buffer.remove(i);
        self.buffer.insert(i, v);
        assert(self@ =~= a.update(i as int, v));
    }

    /// Extends with nils up to length `k`; no change if already that long.
    fn pad_to(&mut self, k: usize)
        ensures
            final(self)@ == padded(old(self)@, k as int),
    {
        let ghost a = self@;
        while self.buffer.len() < k
            invariant
                a.len() <= self@.len(),
                self@.len() <= k || self@ == a,
                self@ == a + nils((self@.len() - a.len()) as nat),
            decreases k - self@.len(),
        {
            self.buffer.push_back(Value::Nil);
            assert(self@ =~= a + nils((self@.len() - a.len()) as nat));
        }
        assert(a + nils(0) =~= a);
    }

    /// Appends every element of `other`, read from `other` as it stands.
    pub fn extend_from(&mut self, other: &Array)
        ensures
            final(self)@ == old(self)@ + other@,
    {
        let ghost a = self@;
        let m = other.buffer.len();
        let mut j: usize = 0;
        while j < m
            invariant
                m == other@.len(),
                j <= m,
                self@ == a + other@.subrange(0, j as int),
            decreases m - j,
        {
            self.buffer.push_back(other.buffer[j]);
            j += 1;
            assert(self@ =~= a + other@.subrange(0, j as int));
        }
        assert(other@.subrange(0, m as int) =~= other@);
    }

    /// Writes `v` at `i`, first padding with nils to length `i + 1` if `i`
    /// is past the end.
    pub fn set(&mut self, i: usize, v: Value)
        requires
            i < usize::MAX,
        ensures
            final(self)@ == assigned(old(self)@, i as int, v),
    {
        self.pad_to(i + 1);
        self.overwrite(i, v);
    }

    /// Writes `other[0..k]` positionally from `start` on: overwriting while
    /// the position is inside the buffer, appending once it reaches the end.
    fn write_from(&mut self, start: usize, other: &Array, k: usize)
        requires
            start <= old(self)@.len(),
            k <= other@.len(),
            start + k <= usize::MAX,
        ensures
            final(self)@ == old(self)@.subrange(0, start as int) + other@.subrange(0, k as int)
                + from(old(self)@, start + k),
    {
        let ghost a = self@;
        let mut j: usize = 0;
        while j < k
            invariant
                start <= a.len(),
                k <= other@.len(),
                start + k <= usize::MAX,
                j <= k,
                self@ == a.subrange(0, start as int) + other@.subrange(0, j as int) + from(
                    a,
                    start + j,
                ),
            decreases k - j,
        {
            let item = other.buffer[j];
            let ghost before = self@;
            if start + j < self.buffer.len() {
                self.overwrite(start + j, item);
            } else {
                self.buffer.push_back(item);
            }
            j += 1;
            assert(self@ =~= a.subrange(0, start as int) + other@.subrange(0, j as int) + from(
                a,
                start + j,
            ));
        }
    }

    /// Inserts `other[from_k..]` at `at`, shifting what follows to the right.
    fn insert_from(&mut self, at: usize, other: &Array, from_k: usize)
        requires
            at <= old(self)@.len(),
            from_k <= other@.len(),
            at + (other@.len() - from_k) <= usize::MAX,
        ensures
            final(self)@ == old(self)@.subrange(0, at as int) + other@.subrange(
                from_k as int,
                other@.len() as int,
            ) + old(self)@.subrange(at as int, old(self)@.len() as int),
    {
        let ghost a = self@;
        let m = other.buffer.len();
        let mut j: usize = from_k;
        while j < m
            invariant
                m == other@.len(),
                at <= a.len(),
                from_k <= j <= m,
                at + (m - from_k) <= usize::MAX,
                self@ == a.subrange(0, at as int) + other@.subrange(from_k as int, j as int)
                    + a.subrange(at as int, a.len() as int),
            decreases m - j,
        {
            self.buffer.insert(at + (j - from_k), other.buffer[j]);
            j += 1;
            assert(self@ =~= a.subrange(0, at as int) + other@.subrange(from_k as int, j as int)
                + a.subrange(at as int, a.len() as int));
        }
    }

    /// Removes `count` elements at `at`.
    fn remove_range(&mut self, at: usize, count: usize)
        requires
            at + count <= old(self)@.len(),
        ensures
            final(self)@ == old(self)@.subrange(0, at as int) + old(self)@.subrange(
                at + count,
                old(self)@.len() as int,
            ),
    {
        let ghost a = self@;
        let mut j: usize = 0;
        while j < count
            invariant
                at + count <= a.len(),
                j <= count,
                self@ == a.subrange(0, at as int) + a.subrange(at + j, a.len() as int),
            decreases count - j,
        {
            self.buffer.remove(at);
            j += 1;
            assert(self@ =~= a.subrange(0, at as int) + a.subrange(at + j, a.len() as int));
        }
    }

    /// Replaces `len` elements at `start` by the elements of `other`.
    ///
    /// With `len == 0` the elements are inserted at `start`. With `start`
    /// past the end the gap is filled with nils and `other` is appended.
    /// When `start + other.len()` is strictly inside the buffer the replaced
    /// range is overwritten, then shrunk or grown to fit `other`. Otherwise
    /// `other` is written positionally from `start`, appending past the end.
    pub fn splice(&mut self, start: usize, len: usize, other: &Array)
        requires
            start + other@.len() <= usize::MAX,
        ensures
            final(self)@ == spliced(old(self)@, start as int, len as int, other@),
    {
        let ghost a = self@;
        let n = self.buffer.len();
        let m = other.buffer.len();
        if len == 0 {
            self.pad_to(start);
            self.insert_from(start, other, 0);
            proof {
                let p = padded(a, start as int);
                assert(other@.subrange(0, m as int) =~= other@);
                assert(from(p, start as int) =~= p.subrange(start as int, p.len() as int));
            }
        } else if start > n {
            self.pad_to(start);
            self.insert_from(start, other, 0);
            proof {
                let p = padded(a, start as int);
                assert(p.subrange(0, start as int) =~= p);
                assert(other@.subrange(0, m as int) =~= other@);
                assert(self@ =~= p + other@);
            }
        } else if start + m < n {
            if m == len {
                self.write_from(start, other, m);
                assert(other@.subrange(0, m as int) =~= other@);
            } else if m < len {
                self.write_from(start, other, m);
                let ghost w = self@;
                let room = n - (start + m);
                let count = if len - m < room {
                    len - m
                } else {
                    room
                };
                self.remove_range(start + m, count);
                proof {
                    assert(other@.subrange(0, m as int) =~= other@);
                    assert(self@ =~= a.subrange(0, start as int) + other@ + from(
                        a,
                        start + len,
                    ));
                }
            } else {
                self.write_from(start, other, len);
                self.insert_from(start + len, other, len);
                proof {
                    assert(self@ =~= a.subrange(0, start as int) + other@ + from(
                        a,
                        start + len,
                    ));
                }
            }
        } else {
            self.write_from(start, other, m);
            proof {
                assert(other@.subrange(0, m as int) =~= other@);
                assert(from(a, start + m) =~= Seq::<Value>::empty());
                assert(self@ =~= a.subrange(0, start as int) + other@);
            }
        }
    }

    /// A new array with the elements in reverse order.
    pub fn reverse(&self) -> (r: Array)
        ensures
            r@ == reversed(self@),
    {
        let n = self.buffer.len();
        let mut buffer = VecDeque::with_capacity(n);
        let mut k: usize = 0;
        while k < n
            invariant
                n == self@.len(),
                k <= n,
                buffer@ == reversed(self@).subrange(0, k as int),
            decreases n - k,
        {
            buffer.push_back(self.buffer[n - 1 - k]);
            k += 1;
            assert(buffer@ =~= reversed(self@).subrange(0, k as int));
        }
        assert(reversed(self@).subrange(0, n as int) =~= reversed(self@));
        Array { buffer }
    }

    /// Reverses the buffer in place by swapping from both ends toward the
    /// middle until the two positions meet or cross.
    pub fn reverse_in_place(&mut self)
        ensures
            final(self)@ == reversed(old(self)@),
    {
        let ghost a = self@;
        let n = self.buffer.len();
        if n == 0 {
            assert(self@ =~= reversed(a));
            return ;
        }
        let mut front: usize = 0;
        let mut back: usize = n - 1;
        while front < back
            invariant
                n == a.len(),
                self@.len() == n,
                front + back == n - 1,
                front <= back + 1,
                forall|k: int| 0 <= k < front ==> self@[k] == a[n - 1 - k],
                forall|k: int| back < k < n ==> self@[k] == a[n - 1 - k],
                forall|k: int| front <= k <= back ==> self@[k] == a[k],
            decreases n - front,
        {
            let x = self.buffer[front];
            let y = self.buffer[back];
            self.overwrite(front, y);
            self.overwrite(back, x);
            front += 1;
            back -= 1;
        }
        assert(self@ =~= reversed(a));
    }
}

/// Reversing twice restores every element to its place.
pub proof fn lemma_reverse_twice(a: Seq<Value>)
    ensures
        reversed(reversed(a)) == a,
{
    assert(reversed(reversed(a)) =~= a);
}

/// Pushing onto an empty buffer and then popping gives back the pushed value
/// and leaves the buffer empty.
pub proof fn lemma_push_then_pop(v: Value)
    ensures
        Seq::<Value>::empty().push(v).len() > 0,
        Seq::<Value>::empty().push(v).last() == v,
        Seq::<Value>::empty().push(v).drop_last() == Seq::<Value>::empty(),
{
    assert(Seq::<Value>::empty().push(v).drop_last() =~= Seq::<Value>::empty());
}

} // verus!

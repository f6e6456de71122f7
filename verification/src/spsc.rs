//! A bounded, fixed-capacity circular buffer for exactly one producer and one
//! consumer.
//!
//! The buffer holds `capacity` slots, of which `capacity - 1` are usable: one
//! slot stays permanently free as a sentinel, so that equal cursors always mean
//! "empty" and never "full". The capacity must be a power of two and at least 2.
//! Items move in on `push` and move out on `pop`, oldest first.
//!
//! The read and write cursors each stay below `capacity`; the occupied count is
//! their difference modulo `capacity`, so full and empty tests stay correct
//! across arbitrarily many wraps of the physical array.

use vstd::prelude::*;

verus! {

/// The ways a ring-buffer operation can fail.
#[derive(Debug, PartialEq)]
pub enum BufferError {
    /// A push found no free slot; the caller may retry after the consumer drains.
    Full,
    /// A pop found no occupied slot; the caller may retry after the producer fills.
    Empty,
    /// Construction was attempted with a capacity that is 0, 1, or not a power of two.
    InvalidCapacity,
}

/// Whether `n` is a power of two.
pub open spec fn is_pow2(n: int) -> bool
    decreases n,
{
    if n <= 0 {
        false
    } else if n == 1 {
        true
    } else {
        n % 2 == 0 && is_pow2(n / 2)
    }
}

/// Runtime test for `is_pow2`, by stripping factors of two.
fn check_pow2(n: usize) -> (r: bool)
    ensures
        r == is_pow2(n as int),
{
    if n == 0 {
        return false;
    }
    let mut m: usize = n;
    while m % 2 == 0
        invariant
            1 <= m,
            is_pow2(n as int) == is_pow2(m as int),
        decreases m,
    {
        m = m / 2;
    }
    m == 1
}

/// The items a queue holding `q` hands out when it is drained one item at a
/// time: the oldest item, then whatever draining the rest hands out.
pub open spec fn drained<T>(q: Seq<T>) -> Seq<T>
    decreases q.len(),
{
    if q.len() == 0 {
        Seq::empty()
    } else {
        seq![q.first()] + drained(q.drop_first())
    }
}

/// A single-producer/single-consumer circular buffer.
///
/// One statically designated thread must do all pushes and one other all pops;
/// the type does not check that at runtime. Every operation here takes the
/// buffer exclusively, states exactly what it returns and how the contents
/// change, and never gives up an item: a rejected push leaves the buffer as it
/// was, and a pop hands the oldest item out by value.
pub struct RingBuffer<T> {
    buffer: Vec<Option<T>>,
    capacity: usize,
    head: usize,
    tail: usize,
}

impl<T> RingBuffer<T> {
    /// The physical slot of the `j`-th occupied entry, counting from the oldest.
    closed spec fn slot(self, j: int) -> int {
        if self.head + j < self.capacity {
            self.head + j
        } else {
            self.head + j - self.capacity
        }
    }

    /// How many entries the buffer holds: the cursor difference modulo `capacity`.
    closed spec fn occupied(self) -> int {
        if self.tail >= self.head {
            self.tail - self.head
        } else {
            self.tail + self.capacity - self.head
        }
    }

    /// The fixed slot count chosen at construction.
    pub closed spec fn spec_capacity(self) -> int {
        self.capacity as int
    }

    /// Structural invariant: valid capacity, cursors in range, and every
    /// occupied slot filled.
    pub closed spec fn wf(self) -> bool {
        &&& self.buffer@.len() == self.capacity
        &&& 2 <= self.capacity
        &&& is_pow2(self.capacity as int)
        &&& self.head < self.capacity
        &&& self.tail < self.capacity
        &&& forall|j: int|
            0 <= j < self.occupied() ==> (#[trigger] self.buffer@[self.slot(j)]) is Some
    }
}

impl<T> View for RingBuffer<T> {
    type V = Seq<T>;

    /// The buffered items, oldest first.
    closed spec fn view(&self) -> Seq<T> {
        Seq::new(self.occupied() as nat, |j: int| self.buffer@[self.slot(j)]->0)
    }
}

impl<T> RingBuffer<T> {
    /// Creates a buffer of `capacity` slots, `capacity - 1` of them usable.
    ///
    /// Rejects any capacity that is 0, 1, or not a power of two.
    pub fn new(capacity: usize) -> (r: Result<Self, BufferError>)
        ensures
            match r {
                Ok(rb) => {
                    &&& 2 <= capacity
                    &&& is_pow2(capacity as int)
                    &&& rb.wf()
                    &&& rb.spec_capacity() == capacity
                    &&& rb@ == Seq::<T>::empty()
                },
                Err(e) => {
                    &&& e == BufferError::InvalidCapacity
                    &&& !(2 <= capacity && is_pow2(capacity as int))
                },
            },
    {
        if capacity < 2 || !check_pow2(capacity) {
            return Err(BufferError::InvalidCapacity);
        }
        let mut buffer: Vec<Option<T>> = Vec::new();
        let mut i: usize = 0;
        while i < capacity
            invariant
                i <= capacity,
                buffer@.len() == i,
            decreases capacity - i,
        {
            buffer.push(None);
            i = i + 1;
        }
        let rb = RingBuffer { buffer, capacity, head: 0, tail: 0 };
        proof {
            assert(rb@ =~= Seq::<T>::empty());
        }
        Ok(rb)
    }

    /// How many items the buffer holds.
    ///
    /// Under concurrent use this is an advisory snapshot: the true count may
    /// change as soon as the other role acts.
    pub fn len(&self) -> (n: usize)
        requires
            self.wf(),
        ensures
            n == self@.len(),
    {
        if self.tail >= self.head {
            self.tail - self.head
        } else {
            self.capacity - (self.head - self.tail)
        }
    }

    /// Whether the buffer holds no items. Advisory under concurrent use.
    pub fn empty(&self) -> (r: bool)
        requires
            self.wf(),
        ensures
            r == (self@.len() == 0),
    {
        self.head == self.tail
    }

    /// Whether the buffer holds `capacity - 1` items, so the next push would be
    /// rejected. Advisory under concurrent use.
    pub fn full(&self) -> (r: bool)
        requires
            self.wf(),
        ensures
            r == (self@.len() == self.spec_capacity() - 1),
    {
        self.len() == self.capacity - 1
    }

    /// Stores `item` behind the newest entry. Producer role only.
    ///
    /// When the buffer already holds `capacity - 1` items the push is rejected
    /// with `Full` and the contents stay as they were; otherwise the item is
    /// appended.
    pub fn push(&mut self, item: T) -> (r: Result<(), BufferError>)
        requires
            old(self).wf(),
        ensures
            final(self).wf(),
            final(self).spec_capacity() == old(self).spec_capacity(),
            old(self)@.len() == old(self).spec_capacity() - 1 ==> {
                &&& r == Err::<(), BufferError>(BufferError::Full)
                &&& final(self)@ == old(self)@
            },
            old(self)@.len() < old(self).spec_capacity() - 1 ==> {
                &&& r == Ok::<(), BufferError>(())
                &&& final(self)@ == old(self)@.push(item)
            },
    {
        let n = self.len();
        if n == self.capacity - 1 {
            return Err(BufferError::Full);
        }
        self.buffer[self.tail] = Some(item);
        self.tail = if self.tail + 1 == self.capacity {
            0
        } else {
            self.tail + 1
        };
        proof {
            assert(forall|j: int|
                0 <= j <= old(self).occupied() ==> final(self).slot(j) == old(self).slot(j));
            assert(old(self).slot(old(self).occupied()) == old(self).tail as int);
            assert(forall|j: int|
                0 <= j < old(self).occupied() ==> old(self).slot(j) != old(self).tail as int);
            assert(forall|j: int|
                0 <= j < final(self).occupied()
                    ==> (#[trigger] final(self).buffer@[final(self).slot(j)]) is Some);
            assert(final(self)@ =~= old(self)@.push(item));
        }
        Ok(())
    }

    /// Removes and returns the oldest item. Consumer role only.
    ///
    /// When the buffer holds nothing the pop is rejected with `Empty`;
    /// otherwise the first item moves out and the rest keep their order, so
    /// successive pops return items exactly in push order.
    pub fn pop(&mut self) -> (r: Result<T, BufferError>)
        requires
            old(self).wf(),
        ensures
            final(self).wf(),
            final(self).spec_capacity() == old(self).spec_capacity(),
            old(self)@.len() == 0 ==> {
                &&& r == Err::<T, BufferError>(BufferError::Empty)
                &&& final(self)@ == old(self)@
            },
            old(self)@.len() > 0 ==> {
                &&& r == Ok::<T, BufferError>(old(self)@[0])
                &&& final(self)@ == old(self)@.drop_first()
            },
    {
        if self.head == self.tail {
            return Err(BufferError::Empty);
        }
        let slot = &mut self.buffer[self.head];
        let taken = slot.take();
        self.head = if self.head + 1 == self.capacity {
            0
        } else {
            self.head + 1
        };
        match taken {
            Some(v) => {
                proof {
                    assert(forall|j: int|
                        0 <= j < final(self).occupied()
                            ==> final(self).slot(j) == old(self).slot(j + 1));
                    assert(forall|j: int|
                        1 <= j <= old(self).occupied()
                            ==> old(self).slot(j) != old(self).head as int);
                    assert(forall|j: int|
                        0 <= j < final(self).occupied()
                            ==> (#[trigger] final(self).buffer@[final(self).slot(j)]) is Some);
                    assert(final(self)@ =~= old(self)@.drop_first());
                }
                Ok(v)
            },
            None => {
                proof {
                    assert(old(self).slot(0) == old(self).head);
                    assert(false);
                }
                Err(BufferError::Empty)
            },
        }
    }

    /// The sentinel discipline: a well-formed buffer never holds more than
    /// `capacity - 1` items, so one slot always stays free and equal cursors
    /// can only mean an empty buffer.
    pub proof fn lemma_usable_capacity(self)
        requires
            self.wf(),
        ensures
            0 <= self@.len() <= self.spec_capacity() - 1,
    {
    }

    /// First-in-first-out delivery: popping a buffer that holds the items `q`
    /// leaves `q.skip(1)`, so after `k` pops the contents are `q.skip(k)` and
    /// the next pop returns `q[k]` — items come out in exactly the order they
    /// went in. The items popped so far together with the items still held are
    /// exactly the items pushed: none is duplicated and none is lost.
    pub proof fn lemma_fifo(q: Seq<T>, k: int)
        requires
            0 <= k < q.len(),
        ensures
            q.skip(k).len() == q.len() - k,
            q.skip(k)[0] == q[k],
            q.skip(k).drop_first() == q.skip(k + 1),
            q.take(k) + q.skip(k) == q,
    {
        assert(q.skip(k).drop_first() =~= q.skip(k + 1));
        assert(q.take(k) + q.skip(k) =~= q);
    }

    /// Draining a buffer that holds the items `q` — popping one item at a time
    /// until it is empty — yields exactly `q`: every pushed item comes out,
    /// exactly once, in push order.
    pub proof fn lemma_fifo_drain(q: Seq<T>)
        ensures
            drained(q) == q,
        decreases q.len(),
    {
        if q.len() == 0 {
            assert(drained(q) =~= q);
        } else {
            Self::lemma_fifo_drain(q.drop_first());
            assert(drained(q) =~= q);
        }
    }
}

} // verus!

//! A bounded ring for one producer and one consumer.
//!
//! The producer owns the head index and the consumer the tail index; each sits
//! on a cache line of its own. One cell always stays empty, so that equal
//! indices mean an empty ring.

use crossbeam_utils::CachePadded;
use vstd::prelude::*;

verus! {

/// A declaration of the padding wrapper of the `crossbeam-utils` crate.
#[verifier::external_type_specification]
#[verifier::external_body]
#[verifier::reject_recursive_types(T)]
pub struct ExCachePadded<T>(CachePadded<T>);

/// The value that a padded cell holds.
pub uninterp spec fn padded_value(cell: CachePadded<usize>) -> usize;

/// Calls `CachePadded::new`: a cell that holds the value.
#[verifier::external_body]
fn pad(value: usize) -> (cell: CachePadded<usize>)
    ensures
        padded_value(cell) == value,
{
    CachePadded::new(value)
}

/// Calls `CachePadded::deref`: the value that the cell holds.
#[verifier::external_body]
fn read_padded(cell: &CachePadded<usize>) -> (value: usize)
    ensures
        value == padded_value(*cell),
{
    **cell
}

/// The ring; it can hold `N - 1` elements.
pub struct SpscRing<T, const N: usize> {
    slots: Vec<Option<T>>,
    head: CachePadded<usize>,
    tail: CachePadded<usize>,
}

/// A capacity that a ring can have: a power of two, at least two.
pub open spec fn valid_capacity(n: usize) -> bool {
    n >= 2 && n & ((n - 1) as usize) == 0
}

/// The cell `i` places after `start` in a ring of `n` cells.
pub open spec fn cell_after(start: int, i: int, n: int) -> int {
    if start + i >= n {
        start + i - n
    } else {
        start + i
    }
}

/// How many elements lie between the two indices of a ring of `n` cells.
pub open spec fn occupied(head: int, tail: int, n: int) -> int {
    if head >= tail {
        head - tail
    } else {
        head - tail + n
    }
}

proof fn lemma_mask_wraps(n: usize, x: usize)
    requires
        valid_capacity(n),
        x <= n,
    ensures
        x & ((n - 1) as usize) == if x == n {
            0usize
        } else {
            x
        },
{
    assert(x & ((n - 1) as usize) == if x == n {
        0usize
    } else {
        x
    }) by (bit_vector)
        requires
            n >= 2,
            n & ((n - 1) as usize) == 0,
            x <= n,
    ;
}

/// Something that is done to a ring.
pub enum RingOp<T> {
    Push(T),
    Overwrite(T),
    Pop,
}

/// What a ring with room for so many elements holds after one operation.
pub open spec fn after_op<T>(held: Seq<T>, room: int, op: RingOp<T>) -> Seq<T> {
    match op {
        RingOp::Push(value) => if held.len() < room {
            held.push(value)
        } else {
            held
        },
        RingOp::Overwrite(value) => if held.len() < room {
            held.push(value)
        } else {
            held.drop_first().push(value)
        },
        RingOp::Pop => if held.len() > 0 {
            held.drop_first()
        } else {
            held
        },
    }
}

/// The elements that one operation puts in: one or none.
pub open spec fn enters<T>(held: Seq<T>, room: int, op: RingOp<T>) -> Seq<T> {
    match op {
        RingOp::Push(value) => if held.len() < room {
            seq![value]
        } else {
            Seq::empty()
        },
        RingOp::Overwrite(value) => seq![value],
        RingOp::Pop => Seq::empty(),
    }
}

/// The elements that one operation takes out: one or none.
pub open spec fn leaves<T>(held: Seq<T>, room: int, op: RingOp<T>) -> Seq<T> {
    match op {
        RingOp::Push(_) => Seq::empty(),
        RingOp::Overwrite(_) => if held.len() < room {
            Seq::empty()
        } else {
            seq![held[0]]
        },
        RingOp::Pop => if held.len() > 0 {
            seq![held[0]]
        } else {
            Seq::empty()
        },
    }
}

/// What a ring holds after some operations.
pub open spec fn after_ops<T>(start: Seq<T>, room: int, ops: Seq<RingOp<T>>) -> Seq<T>
    decreases ops.len(),
{
    if ops.len() == 0 {
        start
    } else {
        after_op(after_ops(start, room, ops.drop_last()), room, ops.last())
    }
}

/// The elements that some operations put in, in order.
pub open spec fn entered<T>(start: Seq<T>, room: int, ops: Seq<RingOp<T>>) -> Seq<T>
    decreases ops.len(),
{
    if ops.len() == 0 {
        Seq::empty()
    } else {
        let earlier = ops.drop_last();
        entered(start, room, earlier) + enters(after_ops(start, room, earlier), room, ops.last())
    }
}

/// The elements that some operations took out, in order.
pub open spec fn left<T>(start: Seq<T>, room: int, ops: Seq<RingOp<T>>) -> Seq<T>
    decreases ops.len(),
{
    if ops.len() == 0 {
        Seq::empty()
    } else {
        let earlier = ops.drop_last();
        left(start, room, earlier) + leaves(after_ops(start, room, earlier), room, ops.last())
    }
}

impl<T, const N: usize> View for SpscRing<T, N> {
    type V = Seq<T>;

    /// The elements from the oldest to the newest.
    closed spec fn view(&self) -> Seq<T> {
        let head = padded_value(self.head) as int;
        let tail = padded_value(self.tail) as int;
        Seq::new(
            occupied(head, tail, N as int) as nat,
            |i: int| self.slots@[cell_after(tail, i, N as int)].unwrap(),
        )
    }
}

impl<T, const N: usize> SpscRing<T, N> {
    /// A ring between two operations.
    pub closed spec fn wf(&self) -> bool {
        let head = padded_value(self.head) as int;
        let tail = padded_value(self.tail) as int;
        &&& valid_capacity(N)
        &&& self.slots@.len() == N
        &&& head < N
        &&& tail < N
        &&& forall|i: int|
            0 <= i < occupied(head, tail, N as int)
                ==> self.slots@[#[trigger] cell_after(tail, i, N as int)] is Some
    }

    /// An empty ring.
    pub fn new() -> (ring: Self)
        requires
            valid_capacity(N),
        ensures
            ring.wf(),
            ring@ == Seq::<T>::empty(),
    {
        Self::with_empty_cells()
    }

    fn with_empty_cells() -> (ring: Self)
        ensures
            valid_capacity(N) ==> ring.wf(),
            ring@ == Seq::<T>::empty(),
    {
        let mut slots: Vec<Option<T>> = Vec::with_capacity(N);
        let mut i: usize = 0;
        while i < N
            invariant
                i <= N,
                slots@.len() == i,
            decreases N - i,
        {
            slots.push(None);
            i = i + 1;
        }
        let ring = SpscRing { slots, head: pad(0), tail: pad(0) };
        assert(ring@ =~= Seq::<T>::empty());
        ring
    }

    fn next_index(index: usize) -> (next: usize)
        requires
            valid_capacity(N),
            index < N,
        ensures
            next == cell_after(index as int, 1, N as int),
    {
        proof {
            lemma_mask_wraps(N, (index + 1) as usize);
        }
        (index + 1) & (N - 1)
    }

    /// Adds an element at the end; a full ring hands it back.
    pub fn try_push(&mut self, value: T) -> (r: Result<(), T>)
        requires
            old(self).wf(),
        ensures
            final(self).wf(),
            old(self)@.len() <= N - 1,
            final(self)@ == after_op(old(self)@, N - 1, RingOp::Push(value)),
            match r {
                Ok(_) => old(self)@.len() < N - 1,
                Err(back) => old(self)@.len() == N - 1 && back == value,
            },
    {
        let head: usize = read_padded(&self.head);
        let next: usize = Self::next_index(head);
        if next == read_padded(&self.tail) {
            return Err(value);
        }
        self.slots[head] = Some(value);
        self.head = pad(next);
        proof {
            let tail = padded_value(self.tail) as int;
            let n = N as int;
            let before = old(self)@.len() as int;
            assert(cell_after(tail, before, n) == head);
            assert forall|i: int| 0 <= i < before implies #[trigger] cell_after(tail, i, n)
                != head by {}
            assert(self@ =~= old(self)@.push(value));
        }
        Ok(())
    }

    /// Adds an element at the end; a full ring gives up its oldest element for
    /// it, which is handed back.
    pub fn push_overwrite(&mut self, value: T) -> (evicted: Option<T>)
        requires
            old(self).wf(),
        ensures
            final(self).wf(),
            final(self)@ == after_op(old(self)@, N - 1, RingOp::Overwrite(value)),
            match evicted {
                None => old(self)@.len() < N - 1,
                Some(oldest) => old(self)@.len() == N - 1 && oldest == old(self)@[0],
            },
    {
        match self.try_push(value) {
            Ok(_) => None,
            Err(value) => {
                let evicted = self.try_pop();
                let _ = self.try_push(value);
                evicted
            },
        }
    }

    /// Removes the oldest element, if there is one.
    pub fn try_pop(&mut self) -> (r: Option<T>)
        requires
            old(self).wf(),
        ensures
            final(self).wf(),
            N >= 2,
            final(self)@ == after_op(old(self)@, N - 1, RingOp::Pop),
            match r {
                None => old(self)@.len() == 0,
                Some(value) => old(self)@.len() > 0 && value == old(self)@[0],
            },
    {
        let tail: usize = read_padded(&self.tail);
        if tail == read_padded(&self.head) {
            return None;
        }
        assert(self.slots@[cell_after(tail as int, 0, N as int)] is Some);
        let value = self.slots[tail].take();
        let next: usize = Self::next_index(tail);
        self.tail = pad(next);
        proof {
            let n = N as int;
            let left = old(self)@.len() - 1;
            assert forall|i: int| 0 <= i < left implies #[trigger] cell_after(next as int, i, n)
                == cell_after(tail as int, i + 1, n) && cell_after(next as int, i, n) != tail by {}
            assert(self@ =~= old(self)@.drop_first());
        }
        value
    }

    /// Whether the ring holds no element.
    pub fn is_empty(&self) -> (empty: bool)
        requires
            self.wf(),
        ensures
            empty == (self@.len() == 0),
    {
        read_padded(&self.head) == read_padded(&self.tail)
    }
}

impl<T, const N: usize> Default for SpscRing<T, N> {
    fn default() -> (ring: Self)
        ensures
            valid_capacity(N) ==> ring.wf(),
            ring@ == Seq::<T>::empty(),
    {
        Self::with_empty_cells()
    }
}

/// Elements come out in the order in which they went in, each once: however pushes,
/// overwriting pushes and pops follow one another, what the ring held at first and
/// what went in since is, in this order, what came out and what the ring holds.
pub proof fn law_first_in_first_out<T>(start: Seq<T>, room: int, ops: Seq<RingOp<T>>)
    requires
        room >= 1,
        start.len() <= room,
    ensures
        start + entered(start, room, ops) == left(start, room, ops) + after_ops(start, room, ops),
        after_ops(start, room, ops).len() <= room,
    decreases ops.len(),
{
    if ops.len() > 0 {
        let earlier = ops.drop_last();
        law_first_in_first_out(start, room, earlier);
        let held = after_ops(start, room, earlier);
        let went_in = entered(start, room, earlier);
        let came_out = left(start, room, earlier);
        let op = ops.last();
        assert(start + (went_in + enters(held, room, op)) =~= (came_out + held) + enters(
            held,
            room,
            op,
        ));
        assert(held + enters(held, room, op) =~= leaves(held, room, op) + after_op(held, room, op));
        assert(start + entered(start, room, ops) =~= left(start, room, ops) + after_ops(
            start,
            room,
            ops,
        ));
    } else {
        assert(start + entered(start, room, ops) =~= left(start, room, ops) + after_ops(
            start,
            room,
            ops,
        ));
    }
}

/// A push adds its element behind the others while there is room, and changes nothing
/// otherwise. An overwriting push always adds it, and takes the oldest element out where
/// there is no room. A pop takes the oldest element out of a ring that holds one.
pub proof fn law_operations_touch_the_ends<T>(held: Seq<T>, room: int, value: T)
    requires
        room >= 1,
        held.len() <= room,
    ensures
        held.len() < room ==> after_op(held, room, RingOp::Push(value)) == held.push(value),
        held.len() == room ==> after_op(held, room, RingOp::Push(value)) == held,
        after_op(held, room, RingOp::Overwrite(value)).last() == value,
        held.len() < room ==> after_op(held, room, RingOp::Overwrite(value)).drop_last() == held,
        held.len() == room ==> after_op(held, room, RingOp::Overwrite(value)).drop_last()
            == held.skip(1),
        held.len() > 0 ==> seq![held[0]] + after_op(held, room, RingOp::Pop) == held,
        held.len() == 0 ==> after_op(held, room, RingOp::<T>::Pop) == held,
{
    assert(held.push(value).drop_last() =~= held);
    if held.len() > 0 {
        assert(held.drop_first().push(value).drop_last() =~= held.skip(1));
        assert(seq![held[0]] + held.drop_first() =~= held);
    }
}

} // verus!

//! A fixed set of reference-counted frame slots with a bit mask of free ones.

use vstd::prelude::*;

use crate::error::{ErrorModel, WincapError, WincapResult};
use crate::text::{decimal, push_number, push_str};

verus! {

/// The most slots that a pool can hold.
pub const MAX_SLOTS: u32 = 8;

/// The texture flags that make a texture shareable through an NT handle
/// guarded by a keyed mutex.
pub const SHARED_HANDLE_FLAGS: u32 = 0x900;

/// One slot: the resource that it stands for (a texture and its fence), the
/// shared handle of that texture if it has one, and the number of holders.
pub struct FrameSlot<R> {
    pub resource: R,
    pub shared_nt: Option<usize>,
    pub index: u32,
    pub refcount: u32,
}

/// The pool. A slot is free while its bit in the mask is set.
pub struct FramePool<R> {
    slots: Vec<FrameSlot<R>>,
    free_mask: u32,
    wanted: u32,
}

/// The state of one slot: how many hold it, and whether it is marked free.
pub struct SlotState {
    pub count: u32,
    pub free: bool,
}

/// The states after slot `k` was taken by its first holder.
pub open spec fn take_at(states: Seq<SlotState>, k: int) -> Seq<SlotState> {
    states.update(k, SlotState { count: 1, free: false })
}

/// The states after slot `k` gained a holder.
pub open spec fn retain_at(states: Seq<SlotState>, k: int) -> Seq<SlotState> {
    states.update(k, SlotState { count: states[k].count.wrapping_add(1), free: states[k].free })
}

/// The states after slot `k` lost a holder; the last one to go frees the slot.
pub open spec fn release_at(states: Seq<SlotState>, k: int) -> Seq<SlotState> {
    states.update(
        k,
        SlotState {
            count: states[k].count.wrapping_sub(1),
            free: states[k].free || states[k].count == 1,
        },
    )
}

/// Slot `k` is the free slot of the lowest index.
pub open spec fn is_first_free(states: Seq<SlotState>, k: int) -> bool {
    &&& 0 <= k < states.len()
    &&& states[k].free
    &&& forall|i: int| 0 <= i < k ==> !(#[trigger] states[i]).free
}

/// No slot is free.
pub open spec fn none_free(states: Seq<SlotState>) -> bool {
    forall|i: int| 0 <= i < states.len() ==> !(#[trigger] states[i]).free
}

/// A slot is free exactly when nobody holds it.
pub open spec fn balanced(states: Seq<SlotState>) -> bool {
    forall|i: int|
        0 <= i < states.len() ==> ((#[trigger] states[i]).free <==> states[i].count == 0)
}

/// Bit `i` of a mask.
pub open spec fn has_bit(mask: u32, i: int) -> bool {
    0 <= i < 32 && (mask >> (i as u32)) & 1 == 1
}

proof fn lemma_clear_bit(mask: u32, b: u32)
    requires
        b < 32,
    ensures
        forall|i: int| #[trigger]
            has_bit(mask & !(1u32 << b), i) == (has_bit(mask, i) && i != b),
{
    assert forall|i: int| #[trigger]
        has_bit(mask & !(1u32 << b), i) == (has_bit(mask, i) && i != b) by {
        if 0 <= i < 32 {
            let j = i as u32;
            assert(((mask & !(1u32 << b)) >> j) & 1 == if j == b {
                0
            } else {
                (mask >> j) & 1
            }) by (bit_vector)
                requires
                    b < 32,
                    j < 32,
            ;
        }
    }
}

proof fn lemma_set_bit(mask: u32, b: u32)
    requires
        b < 32,
    ensures
        forall|i: int| #[trigger]
            has_bit(mask | (1u32 << b), i) == (has_bit(mask, i) || i == b),
{
    assert forall|i: int| #[trigger]
        has_bit(mask | (1u32 << b), i) == (has_bit(mask, i) || i == b) by {
        if 0 <= i < 32 {
            let j = i as u32;
            assert(((mask | (1u32 << b)) >> j) & 1 == if j == b {
                1
            } else {
                (mask >> j) & 1
            }) by (bit_vector)
                requires
                    b < 32,
                    j < 32,
            ;
        }
    }
}

proof fn lemma_low_bits(n: u32)
    requires
        n < 32,
    ensures
        (1u32 << n) >= 1,
        forall|i: int| #[trigger] has_bit(((1u32 << n) - 1) as u32, i) == (0 <= i < n),
{
    assert((1u32 << n) >= 1) by (bit_vector)
        requires
            n < 32,
    ;
    assert forall|i: int| #[trigger]
        has_bit(((1u32 << n) - 1) as u32, i) == (0 <= i < n) by {
        if 0 <= i < 32 {
            let j = i as u32;
            assert(((((1u32 << n) - 1) as u32) >> j) & 1 == if j < n {
                1u32
            } else {
                0u32
            }) by (bit_vector)
                requires
                    n < 32,
                    j < 32,
            ;
        }
    }
}

proof fn lemma_zero_mask()
    ensures
        forall|i: int| !#[trigger] has_bit(0u32, i),
{
    assert forall|i: int| !#[trigger] has_bit(0u32, i) by {
        if 0 <= i < 32 {
            let j = i as u32;
            assert((0u32 >> j) & 1 == 0) by (bit_vector);
        }
    }
}

/// The lowest set bit of a mask and the mask without it.
pub fn pick_free(mask: u32) -> (r: Option<(u32, u32)>)
    ensures
        match r {
            None => forall|i: int| !#[trigger] has_bit(mask, i),
            Some((bit, rest)) => {
                &&& has_bit(mask, bit as int)
                &&& forall|i: int| 0 <= i < bit ==> !#[trigger] has_bit(mask, i)
                &&& forall|i: int| #[trigger] has_bit(rest, i) == (has_bit(mask, i) && i != bit)
            },
        },
{
    if mask == 0 {
        proof {
            lemma_zero_mask();
        }
        return None;
    }
    let bit: u32 = mask.trailing_zeros();
    proof {
        vstd::std_specs::bits::axiom_u32_trailing_zeros(mask);
        lemma_clear_bit(mask, bit);
        assert forall|i: int| 0 <= i < bit implies !#[trigger] has_bit(mask, i) by {
            let j = i as u32;
            assert((mask >> j) & 1u32 == 0u32);
        }
    }
    let rest: u32 = mask & !(1u32 << bit);
    Some((bit, rest))
}

impl<R> FramePool<R> {
    /// The slots in the order of their indices.
    pub closed spec fn slots(&self) -> Seq<FrameSlot<R>> {
        self.slots@
    }

    /// The number of slots that the pool is to have.
    pub closed spec fn wanted(&self) -> u32 {
        self.wanted
    }

    /// A pool that still lacks slots.
    pub open spec fn filling(&self) -> bool {
        self.indexed() && self.slots().len() < self.wanted() <= MAX_SLOTS
    }

    /// Whether slot `i` is marked free.
    pub closed spec fn is_free(&self, i: int) -> bool {
        has_bit(self.free_mask, i)
    }

    /// The states of the slots, by index.
    pub open spec fn states(&self) -> Seq<SlotState> {
        Seq::new(
            self.slots().len(),
            |i: int| SlotState { count: self.slots()[i].refcount, free: self.is_free(i) },
        )
    }

    /// No more slots than allowed, and each one carries its own position.
    pub open spec fn indexed(&self) -> bool {
        &&& self.slots().len() <= MAX_SLOTS
        &&& forall|i: int| 0 <= i < self.slots().len() ==> (#[trigger] self.slots()[i]).index == i
    }

    /// Only slots that exist are marked free.
    pub open spec fn mask_fits(&self) -> bool {
        forall|i: int| #[trigger] self.is_free(i) ==> 0 <= i < self.slots().len()
    }

    /// A pool between two operations.
    pub open spec fn wf(&self) -> bool {
        self.indexed() && self.mask_fits()
    }

    /// `self` has the slots of `other`, up to the number of their holders, and was asked
    /// for as many.
    pub open spec fn same_slots(&self, other: &Self) -> bool {
        &&& self.wanted() == other.wanted()
        &&& self.slots().len() == other.slots().len()
        &&& forall|i: int|
            0 <= i < self.slots().len() ==> {
                &&& (#[trigger] self.slots()[i]).resource == other.slots()[i].resource
                &&& self.slots()[i].shared_nt == other.slots()[i].shared_nt
                &&& self.slots()[i].index == other.slots()[i].index
            }
    }

    /// A pool without slots.
    pub fn new() -> (pool: Self)
        ensures
            pool.slots() == Seq::<FrameSlot<R>>::empty(),
            pool.wanted() == 0,
            pool.wf(),
    {
        proof {
            lemma_zero_mask();
        }
        FramePool { slots: Vec::new(), free_mask: 0, wanted: 0 }
    }

    /// Starts to fill the pool: checks the number of slots asked for, drops the
    /// slots that the pool held, and returns the flags with which each texture
    /// is to be created. The marks stay as they were until the last slot is there.
    pub fn init(&mut self, count: u32, misc_flags: u32, create_shared_handle: bool) -> (r:
        WincapResult<u32>)
        ensures
            match r {
                Ok(flags) => {
                    &&& 1 <= count <= MAX_SLOTS
                    &&& flags == if create_shared_handle {
                        misc_flags | SHARED_HANDLE_FLAGS
                    } else {
                        misc_flags
                    }
                    &&& final(self).slots() == Seq::<FrameSlot<R>>::empty()
                    &&& final(self).wanted() == count
                    &&& final(self).filling()
                    &&& forall|i: int| #[trigger] final(self).is_free(i) == old(self).is_free(i)
                },
                Err(e) => {
                    &&& count == 0 || count > MAX_SLOTS
                    &&& e@ == (ErrorModel::General {
                        component: "frame_pool"@,
                        message: "count must be 1..8, got "@ + decimal(count as nat),
                    })
                    &&& *final(self) == *old(self)
                },
            },
            r is Ok <==> 1 <= count <= 8,
            create_shared_handle ==> (r matches Ok(flags) ==> flags == misc_flags | 0x900),
    {
        if count == 0 || count > MAX_SLOTS {
            let mut message = String::new();
            push_str(&mut message, "count must be 1..8, got ");
            push_number(&mut message, count as u64, 10, 0, false);
            assert(message@ =~= "count must be 1..8, got "@ + decimal(count as nat));
            return Err(WincapError::General { component: "frame_pool", message });
        }
        let flags: u32 = if create_shared_handle {
            misc_flags | SHARED_HANDLE_FLAGS
        } else {
            misc_flags
        };
        self.slots.clear();
        self.wanted = count;
        Ok(flags)
    }

    /// Adds the next slot around a resource that was created for it. The answer says
    /// whether more slots are to follow; with the last one, all become free.
    pub fn slot_created(&mut self, resource: R, shared_nt: Option<usize>) -> (more: bool)
        requires
            old(self).filling(),
        ensures
            final(self).slots() == old(self).slots().push(
                FrameSlot {
                    resource,
                    shared_nt,
                    index: old(self).slots().len() as u32,
                    refcount: 0,
                },
            ),
            final(self).wanted() == old(self).wanted(),
            more == (final(self).slots().len() < final(self).wanted()),
            more ==> final(self).filling(),
            more ==> forall|i: int| #[trigger] final(self).is_free(i) == old(self).is_free(i),
            !more ==> final(self).slots().len() == final(self).wanted() && final(self).wf(),
            !more ==> forall|i: int| #[trigger]
                final(self).is_free(i) == (0 <= i < final(self).slots().len()),
    {
        let index: u32 = self.slots.len() as u32;
        self.slots.push(FrameSlot { resource, shared_nt, index, refcount: 0 });
        let n: u32 = index + 1;
        if n < self.wanted {
            return true;
        }
        proof {
            lemma_low_bits(n);
        }
        self.free_mask = (1u32 << n) - 1;
        false
    }

    /// Empties the pool and hands out the shared handles that its slots had, in
    /// slot order, to be closed.
    pub fn shutdown(&mut self) -> (handles: Vec<usize>)
        ensures
            handles@ == shared_handles(old(self).slots()),
            final(self).slots() == Seq::<FrameSlot<R>>::empty(),
            final(self).wanted() == 0,
            final(self).wf(),
    {
        let mut handles: Vec<usize> = Vec::new();
        let mut i: usize = 0;
        while i < self.slots.len()
            invariant
                i <= self.slots@.len(),
                self.slots@ == old(self).slots@,
                handles@ == shared_handles(self.slots@.take(i as int)),
            decreases self.slots@.len() - i,
        {
            proof {
                assert(self.slots@.take(i + 1).drop_last() =~= self.slots@.take(i as int));
            }
            if let Some(handle) = self.slots[i].shared_nt {
                handles.push(handle);
            }
            i = i + 1;
        }
        proof {
            assert(self.slots@.take(i as int) =~= self.slots@);
            lemma_zero_mask();
        }
        self.slots.clear();
        self.free_mask = 0;
        self.wanted = 0;
        handles
    }

    /// Takes the free slot of the lowest index, with one holder.
    pub fn acquire(&mut self) -> (r: Option<u32>)
        requires
            old(self).wf(),
        ensures
            final(self).wf(),
            final(self).same_slots(old(self)),
            match r {
                None => none_free(old(self).states()) && final(self).states() == old(
                    self,
                ).states(),
                Some(k) => is_first_free(old(self).states(), k as int) && final(self).states()
                    == take_at(old(self).states(), k as int),
            },
    {
        match pick_free(self.free_mask) {
            None => {
                assert(none_free(self.states())) by {
                    assert forall|i: int| 0 <= i < self.states().len() implies !(
                    #[trigger] self.states()[i]).free by {
                        assert(!has_bit(self.free_mask, i));
                    }
                }
                None
            },
            Some((bit, rest)) => {
                assert(old(self).is_free(bit as int));
                self.free_mask = rest;
                self.slots[bit as usize].refcount = 1;
                assert forall|i: int| i != bit implies #[trigger] self.is_free(i) == old(
                    self,
                ).is_free(i) by {
                    assert(has_bit(rest, i) == (has_bit(old(self).free_mask, i) && i != bit));
                }
                assert(!has_bit(rest, bit as int));
                assert forall|i: int| 0 <= i < bit implies !(#[trigger] old(self).states()[i]).free by {
                    assert(!has_bit(old(self).free_mask, i));
                }
                assert(self.states() =~= take_at(old(self).states(), bit as int));
                Some(bit)
            },
        }
    }

    /// Adds a holder to a slot.
    pub fn retain(&mut self, index: u32)
        requires
            old(self).wf(),
            index < old(self).slots().len(),
        ensures
            final(self).wf(),
            final(self).same_slots(old(self)),
            final(self).states() == retain_at(old(self).states(), index as int),
    {
        let count: u32 = self.slots[index as usize].refcount;
        self.slots[index as usize].refcount = count.wrapping_add(1);
        assert(forall|i: int| #[trigger] self.is_free(i) == old(self).is_free(i));
        assert(self.states() =~= retain_at(old(self).states(), index as int));
    }

    /// Drops a holder of a slot; the last one to go makes the slot free.
    pub fn release(&mut self, index: u32)
        requires
            old(self).wf(),
            index < old(self).slots().len(),
        ensures
            final(self).wf(),
            final(self).same_slots(old(self)),
            final(self).states() == release_at(old(self).states(), index as int),
    {
        let count: u32 = self.slots[index as usize].refcount;
        self.slots[index as usize].refcount = count.wrapping_sub(1);
        if count == 1 {
            proof {
                lemma_set_bit(self.free_mask, index);
            }
            self.free_mask = self.free_mask | (1u32 << index);
        }
        assert forall|i: int| i != index implies #[trigger] self.is_free(i) == old(self).is_free(
            i,
        ) by {
            assert(has_bit(self.free_mask, i) == has_bit(old(self).free_mask, i));
        }
        assert(self.is_free(index as int) == (old(self).is_free(index as int) || count == 1));
        assert(self.states() =~= release_at(old(self).states(), index as int));
    }

    /// The number of slots.
    pub fn capacity(&self) -> (n: u32)
        requires
            self.indexed(),
        ensures
            n == self.slots().len(),
    {
        self.slots.len() as u32
    }

    /// The slot of an index, if there is one.
    pub fn get_slot(&self, index: u32) -> (slot: Option<&FrameSlot<R>>)
        ensures
            match slot {
                Some(s) => index < self.slots().len() && *s == self.slots()[index as int],
                None => index >= self.slots().len(),
            },
    {
        if (index as usize) < self.slots.len() {
            Some(&self.slots[index as usize])
        } else {
            None
        }
    }
}

/// A slot that is taken, and one that is taken after it, are different slots:
/// a slot is not handed out again while it has a holder.
pub proof fn law_taken_slots_are_distinct(states: Seq<SlotState>, a: int, b: int)
    requires
        is_first_free(states, a),
        is_first_free(take_at(states, a), b),
    ensures
        a != b,
{
}

/// While marks and counts agree, a pool refuses a slot exactly when every slot
/// has a holder.
pub proof fn law_exhausted_when_all_held(states: Seq<SlotState>)
    requires
        balanced(states),
    ensures
        none_free(states) <==> forall|i: int|
            0 <= i < states.len() ==> (#[trigger] states[i]).count > 0,
{
}

/// Marks and counts stay in agreement: over taking a slot, over adding a
/// holder to a slot that has one, and over dropping one.
pub proof fn law_marks_follow_counts(states: Seq<SlotState>, k: int)
    requires
        balanced(states),
        0 <= k < states.len(),
    ensures
        states[k].free ==> balanced(take_at(states, k)),
        1 <= states[k].count < u32::MAX ==> balanced(retain_at(states, k)),
        1 <= states[k].count ==> balanced(release_at(states, k)),
{
}

/// Giving back a slot that was taken leaves the pool as it was.
pub proof fn law_release_undoes_acquire(states: Seq<SlotState>, k: int)
    requires
        balanced(states),
        is_first_free(states, k),
    ensures
        release_at(take_at(states, k), k) == states,
{
    assert(release_at(take_at(states, k), k) =~= states);
}

/// Dropping a holder that was added to a held slot leaves the pool as it was,
/// and the slot does not become free in between.
pub proof fn law_release_undoes_retain(states: Seq<SlotState>, k: int)
    requires
        balanced(states),
        0 <= k < states.len(),
        1 <= states[k].count < u32::MAX,
    ensures
        !retain_at(states, k)[k].free,
        release_at(retain_at(states, k), k) == states,
{
    assert(release_at(retain_at(states, k), k) =~= states);
}

/// The shared handles of a run of slots, in order.
pub open spec fn shared_handles<R>(slots: Seq<FrameSlot<R>>) -> Seq<usize>
    decreases slots.len(),
{
    if slots.len() == 0 {
        Seq::empty()
    } else {
        match slots.last().shared_nt {
            Some(handle) => shared_handles(slots.drop_last()).push(handle),
            None => shared_handles(slots.drop_last()),
        }
    }
}

/// A slot that is taken has one holder and is not free; one more or one fewer holder changes
/// the count by one, and the last holder to go frees the slot. No other slot changes.
pub proof fn law_holders_are_counted(states: Seq<SlotState>, k: int, j: int)
    requires
        0 <= k < states.len(),
        0 <= j < states.len(),
    ensures
        take_at(states, k).len() == states.len(),
        retain_at(states, k).len() == states.len(),
        release_at(states, k).len() == states.len(),
        take_at(states, k)[k].count == 1 && !take_at(states, k)[k].free,
        states[k].count < u32::MAX ==> retain_at(states, k)[k].count == states[k].count + 1,
        retain_at(states, k)[k].free == states[k].free,
        states[k].count > 0 ==> release_at(states, k)[k].count == states[k].count - 1,
        release_at(states, k)[k].free <==> states[k].free || states[k].count == 1,
        j != k ==> {
            &&& take_at(states, k)[j] == states[j]
            &&& retain_at(states, k)[j] == states[j]
            &&& release_at(states, k)[j] == states[j]
        },
{
}

/// The shared handles are those of the slots that have one, in the order of the slots.
pub proof fn law_handles_come_in_slot_order<R>(
    a: Seq<FrameSlot<R>>,
    b: Seq<FrameSlot<R>>,
    slot: FrameSlot<R>,
)
    ensures
        shared_handles(a + b) == shared_handles(a) + shared_handles(b),
        slot.shared_nt matches Some(handle) ==> shared_handles(seq![slot]) == seq![handle],
        slot.shared_nt is None ==> shared_handles(seq![slot]) == Seq::<usize>::empty(),
    decreases b.len(),
{
    if b.len() == 0 {
        assert(a + b =~= a);
        assert(shared_handles(a) + shared_handles(b) =~= shared_handles(a));
    } else {
        assert((a + b).drop_last() =~= a + b.drop_last());
        law_handles_come_in_slot_order(a, b.drop_last(), slot);
        assert(shared_handles(a + b) =~= shared_handles(a) + shared_handles(b));
    }
    assert(seq![slot].drop_last() =~= Seq::empty());
    reveal_with_fuel(shared_handles, 2);
    if let Some(handle) = slot.shared_nt {
        assert(shared_handles(seq![slot]) =~= seq![handle]);
    }
}

/// The slot that is taken is free, and no free one lies below it; there is such a slot as soon
/// as any slot is free.
pub proof fn law_lowest_free_slot_is_taken(states: Seq<SlotState>, k: int, j: int)
    requires
        0 <= j < states.len(),
        states[j].free,
    ensures
        is_first_free(states, k) ==> 0 <= k <= j && states[k].free,
        exists|i: int| is_first_free(states, i) && 0 <= i <= j,
        !none_free(states),
    decreases j,
{
    if exists|i: int| 0 <= i < j && (#[trigger] states[i]).free {
        let i = choose|i: int| 0 <= i < j && (#[trigger] states[i]).free;
        law_lowest_free_slot_is_taken(states, k, i);
    } else {
        assert(is_first_free(states, j));
    }
}

/// Nothing is free exactly if every slot is marked as taken.
pub proof fn law_nothing_is_free(states: Seq<SlotState>, j: int)
    requires
        none_free(states),
        0 <= j < states.len(),
    ensures
        !states[j].free,
        !is_first_free(states, j),
{
}

} // verus!

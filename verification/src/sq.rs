//! The submission ring: the producer half of the protocol.
//!
//! The user owns the shadow head and tail and writes the kernel-visible tail and the
//! index array. The kernel owns the kernel-visible head and the flags word. The ring
//! holds its own copy of the kernel-visible cells; whoever maps the real memory moves
//! the cells between the two.

use crate::err::InitError;
use crate::io_uring_sqe;
use crate::ring::{
    distance,
    is_power_of_two,
    lemma_mask_is_slot,
    lemma_slot_of_advanced,
    lemma_slots_distinct,
    slot_index,
    slots_between,
    window_slots,
};
use crate::IORING_SQ_NEED_WAKEUP;
use vstd::arithmetic::power2::is_pow2;
use vstd::prelude::*;

verus! {

/// The submission ring.
pub struct SubmissionQueue {
    khead: u32,
    ktail: u32,
    kflags: u32,
    kring_mask: u32,
    kring_entries: u32,
    array: Vec<u32>,
    sqes: Vec<io_uring_sqe>,
    head: u32,
    tail: u32,
    sqe_cache: Vec<u32>,
}

/// What a submission ring is, as plain values.
pub struct SqView {
    /// The capacity: the number of slots.
    pub entries: u32,
    /// The shadow head: the last head that was taken over from the kernel.
    pub head: u32,
    /// The shadow tail: one past the last position handed out.
    pub tail: u32,
    /// The kernel-visible head cell, which only the kernel writes.
    pub kernel_head: u32,
    /// The kernel-visible tail cell, which only the user writes.
    pub kernel_tail: u32,
    /// The kernel-visible flags word, which only the kernel writes.
    pub kernel_flags: u32,
    /// The index array: for each ring slot, the entry that the kernel is to read.
    pub array: Seq<u32>,
    /// The entry array.
    pub sqes: Seq<io_uring_sqe>,
    /// The free list of reclaimed slots, last reclaimed last.
    pub cache: Seq<u32>,
}

/// Whether every slot in `slots` lies inside a ring of `entries` slots.
pub open spec fn slots_in_ring(slots: Seq<u32>, entries: u32) -> bool {
    forall|i: int| 0 <= i < slots.len() ==> #[trigger] slots[i] < entries
}

impl SqView {
    /// The entries handed out and not yet known to be consumed: `tail - head` modulo 2^32.
    pub open spec fn pending(self) -> int {
        distance(self.head, self.tail)
    }

    pub open spec fn space_left(self) -> int {
        self.entries - self.pending()
    }

    pub open spec fn is_full(self) -> bool {
        self.space_left() == 0
    }

    /// The slot that the next acquisition hands out.
    pub open spec fn next_slot(self) -> int {
        slot_index(self.tail, self.entries)
    }

    /// Whether `slot` holds an entry that was handed out and is not yet known to be consumed.
    pub open spec fn outstanding(self, slot: int) -> bool {
        exists|k: u32|
            k < self.pending() && slot_index(#[trigger] self.head.wrapping_add(k), self.entries)
                == slot
    }

    pub open spec fn wf(self) -> bool {
        &&& is_pow2(self.entries as int)
        &&& self.array.len() == self.entries
        &&& self.sqes.len() == self.entries
        &&& self.pending() <= self.entries
        &&& slots_in_ring(self.cache, self.entries)
    }

    /// A new ring of `entries` slots: every cell zero, every entry zeroed, nothing cached.
    pub open spec fn fresh(entries: u32) -> SqView {
        SqView {
            entries,
            head: 0,
            tail: 0,
            kernel_head: 0,
            kernel_tail: 0,
            kernel_flags: 0,
            array: Seq::new(entries as nat, |i: int| 0u32),
            sqes: Seq::new(entries as nat, |i: int| io_uring_sqe::zeroed()),
            cache: Seq::empty(),
        }
    }

    /// The ring after one acquisition: the slot is recorded in the index array and the
    /// shadow tail moves on. The entry itself is as it was.
    pub open spec fn acquired(self) -> SqView {
        SqView {
            tail: self.tail.wrapping_add(1),
            array: self.array.update(self.next_slot(), self.next_slot() as u32),
            ..self
        }
    }

    /// The ring with the entry in `slot` replaced.
    pub open spec fn with_entry(self, slot: int, sqe: io_uring_sqe) -> SqView {
        SqView { sqes: self.sqes.update(slot, sqe), ..self }
    }

    /// The ring after its tail was published to the kernel.
    pub open spec fn published(self) -> SqView {
        SqView { kernel_tail: self.tail, ..self }
    }

    /// Whether `head` is a head the kernel can have reached: it lies between the shadow
    /// head and the shadow tail.
    pub open spec fn reachable_head(self, head: u32) -> bool {
        distance(self.head, head) <= self.pending()
    }

    /// The ring after the kernel-visible head was taken over. A head that the kernel
    /// cannot have reached is not taken over.
    pub open spec fn refreshed(self) -> SqView {
        if self.reachable_head(self.kernel_head) {
            SqView { head: self.kernel_head, ..self }
        } else {
            self
        }
    }

    /// The ring after `n` acquisitions in a row.
    pub open spec fn acquired_n(self, n: nat) -> SqView
        decreases n,
    {
        if n == 0 {
            self
        } else {
            self.acquired_n((n - 1) as nat).acquired()
        }
    }
}

impl View for SubmissionQueue {
    type V = SqView;

    closed spec fn view(&self) -> SqView {
        SqView {
            entries: self.kring_entries,
            head: self.head,
            tail: self.tail,
            kernel_head: self.khead,
            kernel_tail: self.ktail,
            kernel_flags: self.kflags,
            array: self.array@,
            sqes: self.sqes@,
            cache: self.sqe_cache@,
        }
    }
}

impl SubmissionQueue {
    #[verifier::type_invariant]
    pub closed spec fn inv(&self) -> bool {
        &&& self@.wf()
        &&& self.kring_mask == self.kring_entries - 1
    }

    /// Builds a ring of `sq_entries` slots, which must be a power of two.
    pub fn new(sq_entries: u32) -> (r: Result<Self, InitError>)
        ensures
            r.is_ok() <==> is_pow2(sq_entries as int),
            r matches Ok(sq) ==> sq@ == SqView::fresh(sq_entries) && sq@.wf(),
            r matches Err(e) ==> e == InitError::InvalidParameters,
    {
        if !is_power_of_two(sq_entries) {
            return Err(InitError::InvalidParameters);
        }
        let mut array: Vec<u32> = Vec::new();
        let mut sqes: Vec<io_uring_sqe> = Vec::new();
        let mut i: u32 = 0;
        while i < sq_entries
            invariant
                i <= sq_entries,
                array@ =~= Seq::new(i as nat, |k: int| 0u32),
                sqes@ =~= Seq::new(i as nat, |k: int| io_uring_sqe::zeroed()),
            decreases sq_entries - i,
        {
            array.push(0);
            sqes.push(io_uring_sqe::default());
            i += 1;
        }
        let sq = SubmissionQueue {
            khead: 0,
            ktail: 0,
            kflags: 0,
            kring_mask: sq_entries - 1,
            kring_entries: sq_entries,
            array,
            sqes,
            head: 0,
            tail: 0,
            sqe_cache: Vec::new(),
        };
        assert(sq@.cache =~= Seq::<u32>::empty());
        Ok(sq)
    }

    #[must_use]
    pub fn ring_mask(&self) -> (mask: u32)
        ensures
            self@.wf(),
            mask == self@.entries - 1,
    {
        proof {
            use_type_invariant(self);
        }
        self.kring_mask
    }

    #[must_use]
    pub fn ring_entries(&self) -> (entries: u32)
        ensures
            self@.wf(),
            entries == self@.entries,
    {
        proof {
            use_type_invariant(self);
        }
        self.kring_entries
    }

    /// Reads the kernel-visible head cell.
    pub fn get_khead(&self) -> (head: u32)
        ensures
            head == self@.kernel_head,
    {
        self.khead
    }

    /// Reads the kernel-visible tail cell.
    pub fn get_ktail(&self) -> (tail: u32)
        ensures
            tail == self@.kernel_tail,
    {
        self.ktail
    }

    fn set_ktail(&mut self, value: u32)
        ensures
            final(self)@ == (SqView { kernel_tail: value, ..old(self)@ }),
    {
        proof {
            use_type_invariant(&*self);
        }
        self.ktail = value;
    }

    /// The kernel's side: records the head that the kernel has written to its cell.
    pub fn set_khead(&mut self, value: u32)
        ensures
            final(self)@ == (SqView { kernel_head: value, ..old(self)@ }),
    {
        proof {
            use_type_invariant(&*self);
        }
        self.khead = value;
    }

    /// The kernel's side: records the flags word that the kernel has written.
    pub fn set_kflags(&mut self, value: u32)
        ensures
            final(self)@ == (SqView { kernel_flags: value, ..old(self)@ }),
    {
        proof {
            use_type_invariant(&*self);
        }
        self.kflags = value;
    }

    /// The index array, slot by slot.
    pub fn index_array(&self) -> (array: &[u32])
        ensures
            array@ == self@.array,
    {
        self.array.as_slice()
    }

    /// The entry array, slot by slot.
    pub fn entries(&self) -> (sqes: &[io_uring_sqe])
        ensures
            sqes@ == self@.sqes,
    {
        self.sqes.as_slice()
    }

    /// The ring slots that were published and that the mapped memory does not hold yet:
    /// those of the positions from `written`, the tail that the memory holds, up to the
    /// kernel-visible tail, in their order and no more than one round of the ring. For
    /// each of them the entry that the index array names and the index itself are to
    /// be written out before the tail is.
    pub fn unwritten_slots(&self, written: u32) -> (slots: Vec<u32>)
        ensures
            slots@ == window_slots(written, self@.kernel_tail, self@.entries),
            slots@.len() <= self@.entries,
            forall|i: int| 0 <= i < slots@.len() ==> slots@[i] < self@.entries,
    {
        proof {
            use_type_invariant(self);
        }
        slots_between(written, self.ktail, self.kring_entries)
    }

    #[must_use]
    pub fn space_left(&self) -> (space: u32)
        ensures
            self@.wf(),
            space == self@.space_left(),
    {
        proof {
            use_type_invariant(self);
        }
        let tail = self.tail;
        let head = self.head;
        self.kring_entries - tail.wrapping_sub(head)
    }

    /// Hands out the next slot, or nothing when the ring is full. The slot is recorded
    /// in the index array and the shadow tail moves on; the entry is handed out as it
    /// stands, for the caller to fill.
    #[must_use]
    pub fn peek_sqe(&mut self) -> (r: Option<&mut io_uring_sqe>)
        ensures
            old(self)@.wf(),
            final(self)@.wf(),
            r.is_none() <==> old(self)@.is_full(),
            r.is_none() ==> final(self)@ == old(self)@,
            r.is_some() ==> {
                let slot = old(self)@.next_slot();
                &&& 0 <= slot < old(self)@.entries
                &&& *r.unwrap() == old(self)@.sqes[slot]
                &&& final(self)@ == old(self)@.acquired().with_entry(slot, *final(r.unwrap()))
            },
    {
        proof {
            use_type_invariant(&*self);
        }
        let tail = self.tail;
        let head = self.head;

        if tail == head.wrapping_add(self.kring_entries) {
            return None;
        }
        let index = tail & self.kring_mask;
        proof {
            lemma_mask_is_slot(tail, self.kring_entries);
        }

        // Tell the kernel which entry fills this ring slot.
        self.array[index as usize] = index;
        self.tail = tail.wrapping_add(1);

        let sqe = &mut self.sqes[index as usize];
        Some(sqe)
    }

    /// Moves the shadow tail forward by `count` without touching entries or index array.
    pub fn advance(&mut self, count: u32)
        requires
            count <= old(self)@.space_left(),
        ensures
            final(self)@ == (SqView { tail: old(self)@.tail.wrapping_add(count), ..old(self)@ }),
            final(self)@.pending() == old(self)@.pending() + count,
            final(self)@.wf(),
    {
        proof {
            use_type_invariant(&*self);
        }
        let tail = self.tail;
        self.tail = tail.wrapping_add(count);
    }

    /// Whether the kernel asks to be woken before it looks at the ring again.
    #[must_use]
    pub fn needs_flush(&self) -> (r: bool)
        ensures
            r == (self@.kernel_flags & IORING_SQ_NEED_WAKEUP != 0),
    {
        self.kflags & IORING_SQ_NEED_WAKEUP != 0
    }

    #[must_use]
    pub fn is_full(&self) -> (full: bool)
        ensures
            self@.wf(),
            full == self@.is_full(),
    {
        self.space_left() == 0
    }

    /// Copies `sqe` into the next slot and hands the slot out. A full ring takes
    /// nothing: its tail, its entries and its index array stay as they are.
    pub fn write_sqe(&mut self, sqe: &io_uring_sqe)
        ensures
            old(self)@.is_full() ==> final(self)@ == old(self)@,
            !old(self)@.is_full() ==> final(self)@ == old(self)@.acquired().with_entry(
                old(self)@.next_slot(),
                *sqe,
            ),
            final(self)@.wf(),
    {
        proof {
            use_type_invariant(&*self);
        }
        let tail = self.tail;
        if tail == self.head.wrapping_add(self.kring_entries) {
            return;
        }
        let index = tail & self.kring_mask;
        proof {
            lemma_mask_is_slot(tail, self.kring_entries);
        }

        let target = &mut self.sqes[index as usize];
        target.opcode = sqe.opcode;
        target.flags = sqe.flags;
        target.ioprio = sqe.ioprio;
        target.fd = sqe.fd;
        target.off = sqe.off;
        target.addr = sqe.addr;
        target.len = sqe.len;
        target.rw_flags = sqe.rw_flags;
        target.user_data = sqe.user_data;
        target.buf_index = sqe.buf_index;
        target.personality = sqe.personality;
        target.splice_fd_in = sqe.splice_fd_in;
        target.addr3 = sqe.addr3;
        target.__pad2 = sqe.__pad2;

        self.array[index as usize] = index;

        let new_tail = tail.wrapping_add(1);
        self.tail = new_tail;
    }

    /// Publishes the shadow tail to the kernel-visible tail cell and returns the number
    /// of entries handed out and not yet known to be consumed.
    pub fn update_kernel_tail(&mut self) -> (to_submit: u32)
        ensures
            final(self)@ == old(self)@.published(),
            to_submit == old(self)@.pending(),
            final(self)@.kernel_tail == final(self)@.tail,
            final(self)@.wf(),
    {
        proof {
            use_type_invariant(&*self);
        }
        let tail = self.tail;
        let head = self.head;
        let to_submit = tail.wrapping_sub(head);
        self.set_ktail(tail);
        to_submit
    }

    /// Takes the kernel-visible head over into the shadow head. A head outside the
    /// entries that were handed out is one the kernel cannot have reached, and is left
    /// aside: the shadow head then stays.
    pub fn update_from_kernel(&mut self)
        ensures
            final(self)@ == old(self)@.refreshed(),
            distance(old(self)@.head, final(self)@.head) <= old(self)@.pending(),
            final(self)@.pending() == old(self)@.pending() - distance(
                old(self)@.head,
                final(self)@.head,
            ),
            final(self)@.wf(),
    {
        proof {
            use_type_invariant(&*self);
        }
        let khead = self.get_khead();
        if khead.wrapping_sub(self.head) <= self.tail.wrapping_sub(self.head) {
            self.head = khead;
        }
    }

    /// Puts a consumed slot on the free list, with its entry zeroed. A slot outside the
    /// ring, or one whose entry is still outstanding, is refused.
    pub fn reclaim_sqe(&mut self, index: u32) -> (accepted: bool)
        ensures
            accepted <==> index < old(self)@.entries && !old(self)@.outstanding(index as int),
            accepted ==> final(self)@ == (SqView {
                cache: old(self)@.cache.push(index),
                ..old(self)@.with_entry(index as int, io_uring_sqe::zeroed())
            }),
            !accepted ==> final(self)@ == old(self)@,
            final(self)@.wf(),
    {
        proof {
            use_type_invariant(&*self);
        }
        if index >= self.kring_entries {
            return false;
        }
        let pending = self.tail.wrapping_sub(self.head);
        let offset = index.wrapping_sub(self.head) & self.kring_mask;
        proof {
            self.lemma_outstanding(index, offset);
        }
        if offset < pending {
            return false;
        }
        self.sqes[index as usize] = io_uring_sqe::default();
        // The list is moved out while it grows: the ring stays whole at every point
        // where a failed allocation could leave it.
        let mut cache: Vec<u32> = Vec::new();
        core::mem::swap(&mut self.sqe_cache, &mut cache);
        cache.push(index);
        core::mem::swap(&mut self.sqe_cache, &mut cache);
        true
    }

    proof fn lemma_outstanding(&self, index: u32, offset: u32)
        requires
            self.inv(),
            index < self.kring_entries,
            offset == index.wrapping_sub(self.head) & self.kring_mask,
        ensures
            self@.outstanding(index as int) <==> offset < self@.pending(),
    {
        let n = self.kring_entries;
        let head = self.head;
        let back = index.wrapping_sub(head);
        lemma_mask_is_slot(back, n);
        // `offset` steps after the head lies the slot `index`.
        lemma_slot_of_advanced(head, offset, n);
        lemma_slot_of_advanced(head, back, n);
        lemma_slot_of_advanced(back, head, n);
        vstd::arithmetic::div_mod::lemma_add_mod_noop(head as int, back as int, n as int);
        vstd::arithmetic::div_mod::lemma_add_mod_noop(head as int, offset as int, n as int);
        vstd::arithmetic::div_mod::lemma_mod_twice(back as int, n as int);
        assert(back.wrapping_add(head) == index);
        vstd::arithmetic::div_mod::lemma_small_mod(index as nat, n as nat);
        assert(slot_index(head.wrapping_add(offset), n) == index);
        if self@.outstanding(index as int) {
            let k = choose|k: u32|
                k < self@.pending() && slot_index(#[trigger] head.wrapping_add(k), n) == index;
            if k < offset {
                lemma_slots_distinct(head, k, offset, n);
            } else if offset < k {
                lemma_slots_distinct(head, offset, k, n);
            }
        }
    }

    /// Takes the slot reclaimed last off the free list.
    pub fn get_cached_sqe(&mut self) -> (slot: Option<u32>)
        ensures
            old(self)@.cache.len() == 0 ==> slot.is_none() && final(self)@ == old(self)@,
            old(self)@.cache.len() > 0 ==> slot == Some(old(self)@.cache.last()) && final(self)@
                == (SqView { cache: old(self)@.cache.drop_last(), ..old(self)@ }),
            slot matches Some(i) ==> i < old(self)@.entries,
            final(self)@.wf(),
    {
        proof {
            use_type_invariant(&*self);
        }
        let mut cache: Vec<u32> = Vec::new();
        core::mem::swap(&mut self.sqe_cache, &mut cache);
        let slot = cache.pop();
        core::mem::swap(&mut self.sqe_cache, &mut cache);
        slot
    }

    /// Empties the free list.
    pub fn clear_sqe_cache(&mut self)
        ensures
            final(self)@ == (SqView { cache: Seq::empty(), ..old(self)@ }),
            final(self)@.wf(),
    {
        proof {
            use_type_invariant(&*self);
        }
        let mut cache: Vec<u32> = Vec::new();
        core::mem::swap(&mut self.sqe_cache, &mut cache);
    }

    /// The number of slots on the free list.
    pub fn cached_sqe_count(&self) -> (count: usize)
        ensures
            count == self@.cache.len(),
    {
        self.sqe_cache.len()
    }

    /// The entry in `index`, to be filled in place; nothing for an index outside the ring.
    pub fn sqe_mut(&mut self, index: u32) -> (r: Option<&mut io_uring_sqe>)
        ensures
            r.is_some() <==> index < old(self)@.entries,
            r.is_none() ==> final(self)@ == old(self)@,
            r.is_some() ==> {
                &&& *r.unwrap() == old(self)@.sqes[index as int]
                &&& final(self)@ == old(self)@.with_entry(index as int, *final(r.unwrap()))
            },
            final(self)@.wf(),
    {
        proof {
            use_type_invariant(&*self);
        }
        if index >= self.kring_entries {
            return None;
        }
        Some(&mut self.sqes[index as usize])
    }
}

/// In every well-formed ring the free and the pending slots make up the capacity:
/// `space_left + (tail - head) == capacity`, with neither part negative.
pub proof fn lemma_space_accounting(s: SqView)
    requires
        s.wf(),
    ensures
        s.space_left() + s.pending() == s.entries,
        0 <= s.space_left() <= s.entries,
        0 <= s.pending() <= s.entries,
{
}

/// Every step of the protocol leads from a well-formed ring to a well-formed ring: an
/// acquisition while the ring is not full, a publication, a refresh from the kernel
/// whatever the kernel-visible head holds, and any write of the kernel to its cells.
pub proof fn lemma_steps_keep_wf(s: SqView, kernel_head: u32, kernel_flags: u32)
    requires
        s.wf(),
    ensures
        !s.is_full() ==> s.acquired().wf(),
        s.published().wf(),
        s.refreshed().wf(),
        (SqView { kernel_head, kernel_flags, ..s }).wf(),
{
    if !s.is_full() {
        lemma_mask_is_slot(s.tail, s.entries);
    }
}

/// `n` acquisitions in a row, none of them on a full ring, move the tail forward by `n`
/// and leave capacity and head alone; the ring stays well-formed.
pub proof fn lemma_acquired_n(s: SqView, n: nat)
    requires
        s.wf(),
        n <= s.space_left(),
    ensures
        s.acquired_n(n).wf(),
        s.acquired_n(n).entries == s.entries,
        s.acquired_n(n).head == s.head,
        s.acquired_n(n).kernel_head == s.kernel_head,
        s.acquired_n(n).tail == s.tail.wrapping_add(n as u32),
        s.acquired_n(n).pending() == s.pending() + n,
    decreases n,
{
    if n > 0 {
        let before = s.acquired_n((n - 1) as nat);
        lemma_acquired_n(s, (n - 1) as nat);
        lemma_mask_is_slot(before.tail, before.entries);
    }
}

/// Acquisitions in a row hand out distinct slots: of `n` acquisitions that find room,
/// the one numbered `i` and the one numbered `j` get different slots.
pub proof fn lemma_acquired_slots_distinct(s: SqView, n: nat, i: nat, j: nat)
    requires
        s.wf(),
        n <= s.space_left(),
        i < j < n,
    ensures
        s.acquired_n(i).next_slot() != s.acquired_n(j).next_slot(),
{
    lemma_acquired_n(s, i);
    lemma_acquired_n(s, j);
    lemma_slots_distinct(s.tail, i as u32, j as u32, s.entries);
}

/// In a well-formed ring no two outstanding positions share a slot.
pub proof fn lemma_outstanding_slots_distinct(s: SqView, i: u32, j: u32)
    requires
        s.wf(),
        i < j < s.pending(),
    ensures
        slot_index(s.head.wrapping_add(i), s.entries) != slot_index(
            s.head.wrapping_add(j),
            s.entries,
        ),
{
    lemma_slots_distinct(s.head, i, j, s.entries);
}

/// A publication after `n` acquisitions makes the kernel-visible tail equal to the
/// shadow tail and counts what is pending: the `n` new entries and those that were
/// pending before. Where nothing was pending before, the count is `n`.
pub proof fn lemma_publish_counts_acquisitions(s: SqView, n: nat)
    requires
        s.wf(),
        n <= s.space_left(),
    ensures
        s.acquired_n(n).published().kernel_tail == s.acquired_n(n).published().tail,
        s.acquired_n(n).published().pending() == s.pending() + n,
        s.pending() == 0 ==> s.acquired_n(n).published().pending() == n,
{
    lemma_acquired_n(s, n);
}

/// A refresh from the kernel never moves the shadow head backward: the head moves
/// forward by at most what was pending, and what is pending shrinks by as much.
pub proof fn lemma_refresh_moves_forward(s: SqView)
    requires
        s.wf(),
    ensures
        distance(s.head, s.refreshed().head) <= s.pending(),
        s.refreshed().pending() == s.pending() - distance(s.head, s.refreshed().head),
        s.refreshed().space_left() >= s.space_left(),
        s.refreshed().tail == s.tail,
{
}

} // verus!

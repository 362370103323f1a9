//! The completion ring: the consumer half of the protocol.
//!
//! The kernel owns the kernel-visible tail, the overflow counter and the entries. The
//! user owns the shadow head and tail and writes the kernel-visible head. The ring
//! holds its own copy of the kernel-visible cells; whoever maps the real memory moves
//! the cells between the two.

use crate::err::InitError;
use crate::io_uring_cqe;
use crate::ring::{
    distance,
    is_power_of_two,
    lemma_mask_is_slot,
    slot_index,
    slots_between,
    window_slots,
};
use vstd::arithmetic::power2::is_pow2;
use vstd::prelude::*;

verus! {

/// The completion ring.
pub struct CompletionQueue {
    khead: u32,
    ktail: u32,
    kring_mask: u32,
    kring_entries: u32,
    koverflow: u32,
    cqes: Vec<io_uring_cqe>,
    head: u32,
    tail: u32,
}

/// What a completion ring is, as plain values.
pub struct CqView {
    /// The capacity: the number of slots.
    pub entries: u32,
    /// The shadow head: the position of the first entry not yet marked as seen.
    pub head: u32,
    /// The shadow tail: the last tail that was taken over from the kernel.
    pub tail: u32,
    /// The kernel-visible head cell, which only the user writes.
    pub kernel_head: u32,
    /// The kernel-visible tail cell, which only the kernel writes.
    pub kernel_tail: u32,
    /// The kernel's count of completions that it dropped because the ring was full.
    pub kernel_overflow: u32,
    /// The entry array, which only the kernel fills.
    pub cqes: Seq<io_uring_cqe>,
}

impl CqView {
    /// The unread entries: `tail - head` modulo 2^32.
    pub open spec fn available(self) -> int {
        distance(self.head, self.tail)
    }

    pub open spec fn is_empty(self) -> bool {
        self.available() == 0
    }

    /// The slot of the first unread entry.
    pub open spec fn head_slot(self) -> int {
        slot_index(self.head, self.entries)
    }

    /// The unread entry that lies `i` positions after the head.
    pub open spec fn unread(self, i: int) -> io_uring_cqe {
        self.cqes[slot_index(self.head.wrapping_add(i as u32), self.entries)]
    }

    pub open spec fn wf(self) -> bool {
        &&& is_pow2(self.entries as int)
        &&& self.cqes.len() == self.entries
    }

    /// A new ring of `entries` slots: every cell zero, every entry zeroed.
    pub open spec fn fresh(entries: u32) -> CqView {
        CqView {
            entries,
            head: 0,
            tail: 0,
            kernel_head: 0,
            kernel_tail: 0,
            kernel_overflow: 0,
            cqes: Seq::new(entries as nat, |i: int| io_uring_cqe::zeroed()),
        }
    }

    /// The ring after the kernel-visible tail was taken over.
    pub open spec fn refreshed(self) -> CqView {
        CqView { tail: self.kernel_tail, ..self }
    }

    /// The ring after `count` entries were marked as seen.
    pub open spec fn advanced(self, count: u32) -> CqView {
        CqView { head: self.head.wrapping_add(count), ..self }
    }

    /// The ring after its head was published to the kernel.
    pub open spec fn published(self) -> CqView {
        CqView { kernel_head: self.head, ..self }
    }

    /// The kernel's side: the ring after the kernel posted `cqe`. The entry fills the
    /// slot of the kernel's tail, and that tail moves on.
    pub open spec fn posted(self, cqe: io_uring_cqe) -> CqView {
        CqView {
            cqes: self.cqes.update(slot_index(self.kernel_tail, self.entries), cqe),
            kernel_tail: self.kernel_tail.wrapping_add(1),
            ..self
        }
    }
}

impl View for CompletionQueue {
    type V = CqView;

    closed spec fn view(&self) -> CqView {
        CqView {
            entries: self.kring_entries,
            head: self.head,
            tail: self.tail,
            kernel_head: self.khead,
            kernel_tail: self.ktail,
            kernel_overflow: self.koverflow,
            cqes: self.cqes@,
        }
    }
}

impl CompletionQueue {
    #[verifier::type_invariant]
    pub closed spec fn inv(&self) -> bool {
        &&& self@.wf()
        &&& self.kring_mask == self.kring_entries - 1
    }

    /// Builds a ring of `cq_entries` slots, which must be a power of two.
    pub fn new(cq_entries: u32) -> (r: Result<Self, InitError>)
        ensures
            r.is_ok() <==> is_pow2(cq_entries as int),
            r matches Ok(cq) ==> cq@ == CqView::fresh(cq_entries) && cq@.wf(),
            r matches Err(e) ==> e == InitError::InvalidParameters,
    {
        if !is_power_of_two(cq_entries) {
            return Err(InitError::InvalidParameters);
        }
        let mut cqes: Vec<io_uring_cqe> = Vec::new();
        let mut i: u32 = 0;
        while i < cq_entries
            invariant
                i <= cq_entries,
                cqes@ =~= Seq::new(i as nat, |k: int| io_uring_cqe::zeroed()),
            decreases cq_entries - i,
        {
            cqes.push(io_uring_cqe { user_data: 0, res: 0, flags: 0 });
            i += 1;
        }
        Ok(
            CompletionQueue {
                khead: 0,
                ktail: 0,
                kring_mask: cq_entries - 1,
                kring_entries: cq_entries,
                koverflow: 0,
                cqes,
                head: 0,
                tail: 0,
            },
        )
    }

    #[must_use]
    pub fn ring_mask(&self) -> (mask: u32)
        ensures
            self@.wf(),
            mask == self@.entries - 1,
    {
        proof {
            use_type_invariant(self);
        }
        self.kring_mask
    }

    #[must_use]
    pub fn ring_entries(&self) -> (entries: u32)
        ensures
            self@.wf(),
            entries == self@.entries,
    {
        proof {
            use_type_invariant(self);
        }
        self.kring_entries
    }

    /// Reads the kernel-visible head cell.
    pub fn get_khead(&self) -> (head: u32)
        ensures
            head == self@.kernel_head,
    {
        self.khead
    }

    /// Reads the kernel-visible tail cell.
    pub fn get_ktail(&self) -> (tail: u32)
        ensures
            tail == self@.kernel_tail,
    {
        self.ktail
    }

    /// Reads the shadow head.
    pub fn get_shadow_head(&self) -> (head: u32)
        ensures
            head == self@.head,
    {
        self.head
    }

    /// Writes the kernel-visible head cell.
    pub fn set_khead(&mut self, value: u32)
        ensures
            final(self)@ == (CqView { kernel_head: value, ..old(self)@ }),
    {
        proof {
            use_type_invariant(&*self);
        }
        self.khead = value;
    }

    /// The kernel's side: records the tail that the kernel has written to its cell.
    pub fn set_ktail(&mut self, value: u32)
        ensures
            final(self)@ == (CqView { kernel_tail: value, ..old(self)@ }),
    {
        proof {
            use_type_invariant(&*self);
        }
        self.ktail = value;
    }

    /// The kernel's side: records the overflow count that the kernel has written.
    pub fn set_koverflow(&mut self, value: u32)
        ensures
            final(self)@ == (CqView { kernel_overflow: value, ..old(self)@ }),
    {
        proof {
            use_type_invariant(&*self);
        }
        self.koverflow = value;
    }

    /// The kernel's side: records the entry that the kernel has written to slot `index`.
    /// An index outside the ring is refused.
    pub fn set_cqe(&mut self, index: u32, cqe: io_uring_cqe) -> (accepted: bool)
        ensures
            accepted <==> index < old(self)@.entries,
            accepted ==> final(self)@ == (CqView {
                cqes: old(self)@.cqes.update(index as int, cqe),
                ..old(self)@
            }),
            !accepted ==> final(self)@ == old(self)@,
            final(self)@.wf(),
    {
        proof {
            use_type_invariant(&*self);
        }
        if index >= self.kring_entries {
            return false;
        }
        self.cqes[index as usize] = cqe;
        true
    }

    /// The slots that the kernel has filled and that the ring has not taken in yet:
    /// those of the positions from the kernel-visible tail that the ring holds up to
    /// `tail`, the tail that the kernel has written, in their order and no more than one
    /// round of the ring. Their entries are to be taken in before the tail is.
    pub fn unread_slots(&self, tail: u32) -> (slots: Vec<u32>)
        ensures
            slots@ == window_slots(self@.kernel_tail, tail, self@.entries),
            slots@.len() <= self@.entries,
            forall|i: int| 0 <= i < slots@.len() ==> slots@[i] < self@.entries,
    {
        proof {
            use_type_invariant(self);
        }
        slots_between(self.ktail, tail, self.kring_entries)
    }

    /// The entry array, slot by slot.
    pub fn entries(&self) -> (cqes: &[io_uring_cqe])
        ensures
            cqes@ == self@.cqes,
    {
        self.cqes.as_slice()
    }

    /// Takes the kernel-visible tail over into the shadow tail.
    pub fn update_kernel_tail(&mut self)
        ensures
            final(self)@ == old(self)@.refreshed(),
            final(self)@.wf(),
    {
        proof {
            use_type_invariant(&*self);
        }
        let ktail = self.get_ktail();
        self.tail = ktail;
    }

    #[must_use]
    pub fn events_available(&self) -> (count: u32)
        ensures
            count == self@.available(),
    {
        let tail = self.tail;
        let head = self.head;
        tail.wrapping_sub(head)
    }

    /// The first unread entry, or nothing when the ring is empty. The head stays.
    #[must_use]
    pub fn peek(&self) -> (r: Option<&io_uring_cqe>)
        ensures
            self@.wf(),
            r.is_none() <==> self@.is_empty(),
            r matches Some(cqe) ==> 0 <= self@.head_slot() < self@.entries && *cqe
                == self@.cqes[self@.head_slot()],
    {
        proof {
            use_type_invariant(self);
        }
        let tail = self.tail;
        let head = self.head;

        if tail == head {
            return None;
        }
        let index = head & self.kring_mask;
        proof {
            lemma_mask_is_slot(head, self.kring_entries);
        }
        let cqe = &self.cqes[index as usize];
        Some(cqe)
    }

    /// The first unread entry, open to change, or nothing when the ring is empty.
    #[must_use]
    pub fn peek_mut(&mut self) -> (r: Option<&mut io_uring_cqe>)
        ensures
            old(self)@.wf(),
            final(self)@.wf(),
            r.is_none() <==> old(self)@.is_empty(),
            r.is_none() ==> final(self)@ == old(self)@,
            r.is_some() ==> {
                let slot = old(self)@.head_slot();
                &&& 0 <= slot < old(self)@.entries
                &&& *r.unwrap() == old(self)@.cqes[slot]
                &&& final(self)@ == (CqView {
                    cqes: old(self)@.cqes.update(slot, *final(r.unwrap())),
                    ..old(self)@
                })
            },
    {
        proof {
            use_type_invariant(&*self);
        }
        let tail = self.tail;
        let head = self.head;

        if tail == head {
            return None;
        }
        let index = head & self.kring_mask;
        proof {
            lemma_mask_is_slot(head, self.kring_entries);
        }
        let cqe = &mut self.cqes[index as usize];
        Some(cqe)
    }

    /// Marks `count` entries as seen: the shadow head moves forward. The kernel learns
    /// of it only when the head is published.
    pub fn advance(&mut self, count: u32)
        ensures
            final(self)@ == old(self)@.advanced(count),
            final(self)@.wf(),
    {
        proof {
            use_type_invariant(&*self);
        }
        let head = self.head;
        self.head = head.wrapping_add(count);
    }

    /// Publishes the shadow head to the kernel-visible head cell: the slots before it
    /// go back to the kernel.
    pub fn publish_head(&mut self)
        ensures
            final(self)@ == old(self)@.published(),
            final(self)@.kernel_head == final(self)@.head,
            final(self)@.wf(),
    {
        proof {
            use_type_invariant(&*self);
        }
        let head = self.head;
        self.set_khead(head);
    }

    #[must_use]
    pub fn is_empty(&self) -> (empty: bool)
        ensures
            empty == self@.is_empty(),
    {
        self.events_available() == 0
    }

    /// The kernel's count of completions that it dropped because the ring was full.
    #[must_use]
    pub fn overflow_count(&self) -> (count: u32)
        ensures
            count == self@.kernel_overflow,
    {
        self.koverflow
    }
}

/// Marking entries as seen consumes them: after `count` of the unread entries were
/// marked, `count` fewer are unread, and none is left where all were marked.
pub proof fn lemma_advance_consumes(s: CqView, count: u32)
    requires
        count <= s.available(),
    ensures
        s.advanced(count).available() == s.available() - count,
        count == s.available() ==> s.advanced(count).is_empty(),
{
}

/// No step of the user changes what the kernel owns: taking over the tail, marking
/// entries as seen and publishing the head leave the kernel's tail, its overflow
/// count and the entries as they are.
pub proof fn lemma_user_steps_keep_kernel_cells(s: CqView, count: u32)
    ensures
        s.refreshed().kernel_tail == s.kernel_tail && s.refreshed().kernel_overflow
            == s.kernel_overflow && s.refreshed().cqes == s.cqes,
        s.advanced(count).kernel_tail == s.kernel_tail && s.advanced(count).kernel_overflow
            == s.kernel_overflow && s.advanced(count).cqes == s.cqes,
        s.published().kernel_tail == s.kernel_tail && s.published().kernel_overflow
            == s.kernel_overflow && s.published().cqes == s.cqes,
{
}

} // verus!

//! The geometry of a ring pair as the kernel reports it at setup: the capacities, and
//! for each shared cell its byte offset inside its mapping. The geometry is checked
//! once, before anything is built on it.

use crate::err::InitError;
use crate::ring::is_power_of_two;
use vstd::arithmetic::power2::is_pow2;
use vstd::prelude::*;

verus! {

/// The size in bytes of one submission entry in the kernel's layout.
pub const SQE_SIZE: u64 = 64;

/// The size in bytes of one completion entry in the kernel's layout.
pub const CQE_SIZE: u64 = 16;

/// The size in bytes of one slot of the index array.
pub const INDEX_SIZE: u64 = 4;

/// Byte offsets of the submission ring's cells inside its mapping.
#[derive(Debug, Copy, Clone)]
pub struct io_sqring_offsets {
    pub head: u32,
    pub tail: u32,
    pub ring_mask: u32,
    pub ring_entries: u32,
    pub flags: u32,
    pub dropped: u32,
    pub array: u32,
}

/// Byte offsets of the completion ring's cells inside its mapping.
#[derive(Debug, Copy, Clone)]
pub struct io_cqring_offsets {
    pub head: u32,
    pub tail: u32,
    pub ring_mask: u32,
    pub ring_entries: u32,
    pub overflow: u32,
    pub cqes: u32,
    pub flags: u32,
}

/// What is asked of the kernel at setup, and what it answers.
#[derive(Debug, Copy, Clone)]
pub struct io_uring_params {
    pub sq_entries: u32,
    pub cq_entries: u32,
    pub flags: u32,
    pub sq_thread_cpu: u32,
    pub sq_thread_idle: u32,
    pub features: u32,
    pub wq_fd: i32,
    pub sq_off: io_sqring_offsets,
    pub cq_off: io_cqring_offsets,
}

/// The sizes in bytes of the three mappings.
#[derive(Debug, Copy, Clone)]
pub struct RingSizes {
    /// The submission ring's cells and index array.
    pub sq_ring: usize,
    /// The completion ring's cells and entries.
    pub cq_ring: usize,
    /// The submission entries.
    pub sqes: usize,
}

/// Whether the 32-bit cells at `cells` are aligned, end at or before `limit`, and lie
/// at different offsets.
pub open spec fn cells_consistent(cells: Seq<u32>, limit: u32) -> bool {
    &&& forall|i: int|
        0 <= i < cells.len() ==> (#[trigger] cells[i]) % 4 == 0 && cells[i] + 4 <= limit
    &&& forall|i: int, j: int| 0 <= i < j < cells.len() ==> cells[i] != cells[j]
}

fn check_cells(cells: &Vec<u32>, limit: u32) -> (ok: bool)
    ensures
        ok == cells_consistent(cells@, limit),
{
    let n = cells.len();
    let mut i: usize = 0;
    while i < n
        invariant
            n == cells@.len(),
            i <= n,
            forall|a: int| 0 <= a < i ==> (#[trigger] cells@[a]) % 4 == 0 && cells@[a] + 4 <= limit,
            forall|a: int, b: int| 0 <= a < b < n && a < i ==> cells@[a] != cells@[b],
        decreases n - i,
    {
        let cell = cells[i];
        if cell % 4 != 0 || limit < 4 || cell > limit - 4 {
            return false;
        }
        let mut j: usize = i + 1;
        while j < n
            invariant
                n == cells@.len(),
                i < j <= n,
                cell == cells@[i as int],
                forall|b: int| i < b < j ==> cells@[i as int] != cells@[b],
            decreases n - j,
        {
            if cells[j] == cell {
                return false;
            }
            j += 1;
        }
        i += 1;
    }
    true
}

impl io_sqring_offsets {
    /// The cells that lie before the index array.
    pub open spec fn cells(self) -> Seq<u32> {
        seq![self.head, self.tail, self.ring_mask, self.ring_entries, self.flags, self.dropped]
    }

    /// Whether the offsets can be those of a submission ring: the cells are aligned and
    /// distinct and lie before the index array, which is aligned too.
    pub open spec fn consistent(self) -> bool {
        cells_consistent(self.cells(), self.array) && self.array % 4 == 0
    }

    pub fn is_consistent(&self) -> (ok: bool)
        ensures
            ok == self.consistent(),
    {
        let cells = vec![
            self.head,
            self.tail,
            self.ring_mask,
            self.ring_entries,
            self.flags,
            self.dropped,
        ];
        assert(cells@ =~= self.cells());
        check_cells(&cells, self.array) && self.array % 4 == 0
    }
}

impl io_cqring_offsets {
    /// The cells that lie before the entries. The flags word is left aside: a kernel
    /// that has none reports its offset as zero.
    pub open spec fn cells(self) -> Seq<u32> {
        seq![self.head, self.tail, self.ring_mask, self.ring_entries, self.overflow]
    }

    /// Whether the offsets can be those of a completion ring: the cells are aligned and
    /// distinct and lie before the entries, which are aligned for their 64-bit tag.
    pub open spec fn consistent(self) -> bool {
        cells_consistent(self.cells(), self.cqes) && self.cqes % 8 == 0
    }

    pub fn is_consistent(&self) -> (ok: bool)
        ensures
            ok == self.consistent(),
    {
        let cells = vec![self.head, self.tail, self.ring_mask, self.ring_entries, self.overflow];
        assert(cells@ =~= self.cells());
        check_cells(&cells, self.cqes) && self.cqes % 8 == 0
    }
}

impl io_uring_params {
    /// The parameters with every field zero.
    pub open spec fn zeroed() -> io_uring_params {
        io_uring_params {
            sq_entries: 0,
            cq_entries: 0,
            flags: 0,
            sq_thread_cpu: 0,
            sq_thread_idle: 0,
            features: 0,
            wq_fd: 0,
            sq_off: io_sqring_offsets {
                head: 0,
                tail: 0,
                ring_mask: 0,
                ring_entries: 0,
                flags: 0,
                dropped: 0,
                array: 0,
            },
            cq_off: io_cqring_offsets {
                head: 0,
                tail: 0,
                ring_mask: 0,
                ring_entries: 0,
                overflow: 0,
                cqes: 0,
                flags: 0,
            },
        }
    }

    /// The size of the submission ring's mapping: the index array ends it.
    pub open spec fn sq_ring_size(self) -> int {
        self.sq_off.array + self.sq_entries * INDEX_SIZE
    }

    /// The size of the completion ring's mapping: the entries end it.
    pub open spec fn cq_ring_size(self) -> int {
        self.cq_off.cqes + self.cq_entries * CQE_SIZE
    }

    /// The size of the mapping of the submission entries.
    pub open spec fn sqes_size(self) -> int {
        self.sq_entries * SQE_SIZE
    }

    /// Whether the geometry can be built on: both capacities are powers of two, the
    /// offsets of both rings are consistent, and each mapping's size fits in `usize`.
    pub open spec fn consistent(self) -> bool {
        &&& is_pow2(self.sq_entries as int)
        &&& is_pow2(self.cq_entries as int)
        &&& self.sq_off.consistent()
        &&& self.cq_off.consistent()
        &&& self.sq_ring_size() <= usize::MAX
        &&& self.cq_ring_size() <= usize::MAX
        &&& self.sqes_size() <= usize::MAX
    }

    /// Checks the geometry and computes the sizes of the three mappings.
    pub fn layout(&self) -> (r: Result<RingSizes, InitError>)
        ensures
            r.is_ok() <==> self.consistent(),
            r matches Ok(sizes) ==> {
                &&& sizes.sq_ring == self.sq_ring_size()
                &&& sizes.cq_ring == self.cq_ring_size()
                &&& sizes.sqes == self.sqes_size()
            },
            r matches Err(e) ==> e == InitError::InvalidParameters,
    {
        if !is_power_of_two(self.sq_entries) || !is_power_of_two(self.cq_entries) {
            return Err(InitError::InvalidParameters);
        }
        if !self.sq_off.is_consistent() || !self.cq_off.is_consistent() {
            return Err(InitError::InvalidParameters);
        }
        let sq_ring: u64 = self.sq_off.array as u64 + self.sq_entries as u64 * INDEX_SIZE;
        let cq_ring: u64 = self.cq_off.cqes as u64 + self.cq_entries as u64 * CQE_SIZE;
        let sqes: u64 = self.sq_entries as u64 * SQE_SIZE;
        if sq_ring > usize::MAX as u64 || cq_ring > usize::MAX as u64 || sqes > usize::MAX as u64 {
            return Err(InitError::InvalidParameters);
        }
        Ok(RingSizes { sq_ring: sq_ring as usize, cq_ring: cq_ring as usize, sqes: sqes as usize })
    }
}

impl Default for io_uring_params {
    fn default() -> (params: Self)
        ensures
            params == io_uring_params::zeroed(),
    {
        io_uring_params {
            sq_entries: 0,
            cq_entries: 0,
            flags: 0,
            sq_thread_cpu: 0,
            sq_thread_idle: 0,
            features: 0,
            wq_fd: 0,
            sq_off: io_sqring_offsets {
                head: 0,
                tail: 0,
                ring_mask: 0,
                ring_entries: 0,
                flags: 0,
                dropped: 0,
                array: 0,
            },
            cq_off: io_cqring_offsets {
                head: 0,
                tail: 0,
                ring_mask: 0,
                ring_entries: 0,
                overflow: 0,
                cqes: 0,
                flags: 0,
            },
        }
    }
}

} // verus!

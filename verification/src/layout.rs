//! The entries as bytes: the layout in which submission and completion entries lie in
//! the shared mappings. Every field lies at the offset that the kernel gives it, in
//! the field's own width, the lowest byte first as on little-endian machines; a signed
//! field is stored in two's complement.
//!
//! | submission entry | offset | width |   | completion entry | offset | width |
//! |------------------|--------|-------|---|------------------|--------|-------|
//! | `opcode`         | 0      | 1     |   | `user_data`      | 0      | 8     |
//! | `flags`          | 1      | 1     |   | `res`            | 8      | 4     |
//! | `ioprio`         | 2      | 2     |   | `flags`          | 12     | 4     |
//! | `fd`             | 4      | 4     |   |                  |        |       |
//! | `off`            | 8      | 8     |   |                  |        |       |
//! | `addr`           | 16     | 8     |   |                  |        |       |
//! | `len`            | 24     | 4     |   |                  |        |       |
//! | `rw_flags`       | 28     | 4     |   |                  |        |       |
//! | `user_data`      | 32     | 8     |   |                  |        |       |
//! | `buf_index`      | 40     | 2     |   |                  |        |       |
//! | `personality`    | 42     | 2     |   |                  |        |       |
//! | `splice_fd_in`   | 44     | 4     |   |                  |        |       |
//! | `addr3`          | 48     | 8     |   |                  |        |       |
//! | `__pad2`         | 56     | 8     |   |                  |        |       |

use crate::params::{CQE_SIZE, SQE_SIZE};
use crate::{io_uring_cqe, io_uring_sqe};
use vstd::bytes::*;
use vstd::prelude::*;
use vstd::slice::slice_subrange;

verus! {

proof fn lemma_signed_round_trip(x: i32)
    by (bit_vector)
    ensures
        (x as u32) as i32 == x,
{
}

fn read_u16(bytes: &[u8], at: usize) -> (x: u16)
    requires
        at + 2 <= bytes.len(),
    ensures
        x == spec_u16_from_le_bytes(bytes@.subrange(at as int, at + 2)),
{
    u16_from_le_bytes(slice_subrange(bytes, at, at + 2))
}

fn read_u32(bytes: &[u8], at: usize) -> (x: u32)
    requires
        at + 4 <= bytes.len(),
    ensures
        x == spec_u32_from_le_bytes(bytes@.subrange(at as int, at + 4)),
{
    u32_from_le_bytes(slice_subrange(bytes, at, at + 4))
}

fn read_u64(bytes: &[u8], at: usize) -> (x: u64)
    requires
        at + 8 <= bytes.len(),
    ensures
        x == spec_u64_from_le_bytes(bytes@.subrange(at as int, at + 8)),
{
    u64_from_le_bytes(slice_subrange(bytes, at, at + 8))
}

impl io_uring_sqe {
    /// The bytes of the entry in the kernel's layout.
    pub open spec fn encoded(self) -> Seq<u8> {
        seq![self.opcode, self.flags] + spec_u16_to_le_bytes(self.ioprio) + spec_u32_to_le_bytes(
            self.fd as u32,
        ) + spec_u64_to_le_bytes(self.off) + spec_u64_to_le_bytes(self.addr)
            + spec_u32_to_le_bytes(self.len) + spec_u32_to_le_bytes(self.rw_flags as u32)
            + spec_u64_to_le_bytes(self.user_data) + spec_u16_to_le_bytes(self.buf_index)
            + spec_u16_to_le_bytes(self.personality) + spec_u32_to_le_bytes(
            self.splice_fd_in as u32,
        ) + spec_u64_to_le_bytes(self.addr3) + spec_u64_to_le_bytes(self.__pad2)
    }

    /// The entry that lies in `bytes`, field by field at the kernel's offsets.
    pub open spec fn decoded(bytes: Seq<u8>) -> io_uring_sqe {
        io_uring_sqe {
            opcode: bytes[0],
            flags: bytes[1],
            ioprio: spec_u16_from_le_bytes(bytes.subrange(2, 4)),
            fd: spec_u32_from_le_bytes(bytes.subrange(4, 8)) as i32,
            off: spec_u64_from_le_bytes(bytes.subrange(8, 16)),
            addr: spec_u64_from_le_bytes(bytes.subrange(16, 24)),
            len: spec_u32_from_le_bytes(bytes.subrange(24, 28)),
            rw_flags: spec_u32_from_le_bytes(bytes.subrange(28, 32)) as i32,
            user_data: spec_u64_from_le_bytes(bytes.subrange(32, 40)),
            buf_index: spec_u16_from_le_bytes(bytes.subrange(40, 42)),
            personality: spec_u16_from_le_bytes(bytes.subrange(42, 44)),
            splice_fd_in: spec_u32_from_le_bytes(bytes.subrange(44, 48)) as i32,
            addr3: spec_u64_from_le_bytes(bytes.subrange(48, 56)),
            __pad2: spec_u64_from_le_bytes(bytes.subrange(56, 64)),
        }
    }

    /// Writes the entry out in the kernel's layout.
    #[must_use]
    pub fn to_bytes(&self) -> (bytes: Vec<u8>)
        ensures
            bytes@ == self.encoded(),
            bytes@.len() == SQE_SIZE,
    {
        proof {
            lemma_auto_spec_u16_to_from_le_bytes();
            lemma_auto_spec_u32_to_from_le_bytes();
            lemma_auto_spec_u64_to_from_le_bytes();
        }
        let mut bytes: Vec<u8> = Vec::new();
        bytes.push(self.opcode);
        bytes.push(self.flags);
        assert(bytes@ =~= seq![self.opcode, self.flags]);
        let mut field = u16_to_le_bytes(self.ioprio);
        bytes.append(&mut field);
        let mut field = u32_to_le_bytes(#[verifier::truncate] (self.fd as u32));
        bytes.append(&mut field);
        let mut field = u64_to_le_bytes(self.off);
        bytes.append(&mut field);
        let mut field = u64_to_le_bytes(self.addr);
        bytes.append(&mut field);
        let mut field = u32_to_le_bytes(self.len);
        bytes.append(&mut field);
        let mut field = u32_to_le_bytes(#[verifier::truncate] (self.rw_flags as u32));
        bytes.append(&mut field);
        let mut field = u64_to_le_bytes(self.user_data);
        bytes.append(&mut field);
        let mut field = u16_to_le_bytes(self.buf_index);
        bytes.append(&mut field);
        let mut field = u16_to_le_bytes(self.personality);
        bytes.append(&mut field);
        let mut field = u32_to_le_bytes(#[verifier::truncate] (self.splice_fd_in as u32));
        bytes.append(&mut field);
        let mut field = u64_to_le_bytes(self.addr3);
        bytes.append(&mut field);
        let mut field = u64_to_le_bytes(self.__pad2);
        bytes.append(&mut field);
        bytes
    }

    /// Reads an entry from its bytes in the kernel's layout; nothing where `bytes` is
    /// not of an entry's size.
    #[must_use]
    pub fn from_bytes(bytes: &[u8]) -> (sqe: Option<Self>)
        ensures
            sqe.is_some() <==> bytes@.len() == SQE_SIZE,
            sqe matches Some(e) ==> e == Self::decoded(bytes@),
    {
        if bytes.len() != 64 {
            return None;
        }
        Some(
            io_uring_sqe {
                opcode: bytes[0],
                flags: bytes[1],
                ioprio: read_u16(bytes, 2),
                fd: #[verifier::truncate] (read_u32(bytes, 4) as i32),
                off: read_u64(bytes, 8),
                addr: read_u64(bytes, 16),
                len: read_u32(bytes, 24),
                rw_flags: #[verifier::truncate] (read_u32(bytes, 28) as i32),
                user_data: read_u64(bytes, 32),
                buf_index: read_u16(bytes, 40),
                personality: read_u16(bytes, 42),
                splice_fd_in: #[verifier::truncate] (read_u32(bytes, 44) as i32),
                addr3: read_u64(bytes, 48),
                __pad2: read_u64(bytes, 56),
            },
        )
    }
}

impl io_uring_cqe {
    /// The bytes of the entry in the kernel's layout.
    pub open spec fn encoded(self) -> Seq<u8> {
        spec_u64_to_le_bytes(self.user_data) + spec_u32_to_le_bytes(self.res as u32)
            + spec_u32_to_le_bytes(self.flags)
    }

    /// The entry that lies in `bytes`, field by field at the kernel's offsets.
    pub open spec fn decoded(bytes: Seq<u8>) -> io_uring_cqe {
        io_uring_cqe {
            user_data: spec_u64_from_le_bytes(bytes.subrange(0, 8)),
            res: spec_u32_from_le_bytes(bytes.subrange(8, 12)) as i32,
            flags: spec_u32_from_le_bytes(bytes.subrange(12, 16)),
        }
    }

    /// Writes the entry out in the kernel's layout.
    #[must_use]
    pub fn to_bytes(&self) -> (bytes: Vec<u8>)
        ensures
            bytes@ == self.encoded(),
            bytes@.len() == CQE_SIZE,
    {
        proof {
            lemma_auto_spec_u32_to_from_le_bytes();
            lemma_auto_spec_u64_to_from_le_bytes();
        }
        let mut bytes = u64_to_le_bytes(self.user_data);
        let mut field = u32_to_le_bytes(#[verifier::truncate] (self.res as u32));
        bytes.append(&mut field);
        let mut field = u32_to_le_bytes(self.flags);
        bytes.append(&mut field);
        bytes
    }

    /// Reads an entry from its bytes in the kernel's layout; nothing where `bytes` is
    /// not of an entry's size.
    #[must_use]
    pub fn from_bytes(bytes: &[u8]) -> (cqe: Option<Self>)
        ensures
            cqe.is_some() <==> bytes@.len() == CQE_SIZE,
            cqe matches Some(e) ==> e == Self::decoded(bytes@),
    {
        if bytes.len() != 16 {
            return None;
        }
        Some(
            io_uring_cqe {
                user_data: read_u64(bytes, 0),
                res: #[verifier::truncate] (read_u32(bytes, 8) as i32),
                flags: read_u32(bytes, 12),
            },
        )
    }
}

/// Where the fields of a submission entry lie: the bytes of an entry are 64, and each
/// field's bytes stand at the field's offset.
pub proof fn lemma_sqe_layout(sqe: io_uring_sqe)
    ensures
        sqe.encoded().len() == 64,
        sqe.encoded()[0] == sqe.opcode,
        sqe.encoded()[1] == sqe.flags,
        sqe.encoded().subrange(2, 4) == spec_u16_to_le_bytes(sqe.ioprio),
        sqe.encoded().subrange(4, 8) == spec_u32_to_le_bytes(sqe.fd as u32),
        sqe.encoded().subrange(8, 16) == spec_u64_to_le_bytes(sqe.off),
        sqe.encoded().subrange(16, 24) == spec_u64_to_le_bytes(sqe.addr),
        sqe.encoded().subrange(24, 28) == spec_u32_to_le_bytes(sqe.len),
        sqe.encoded().subrange(28, 32) == spec_u32_to_le_bytes(sqe.rw_flags as u32),
        sqe.encoded().subrange(32, 40) == spec_u64_to_le_bytes(sqe.user_data),
        sqe.encoded().subrange(40, 42) == spec_u16_to_le_bytes(sqe.buf_index),
        sqe.encoded().subrange(42, 44) == spec_u16_to_le_bytes(sqe.personality),
        sqe.encoded().subrange(44, 48) == spec_u32_to_le_bytes(sqe.splice_fd_in as u32),
        sqe.encoded().subrange(48, 56) == spec_u64_to_le_bytes(sqe.addr3),
        sqe.encoded().subrange(56, 64) == spec_u64_to_le_bytes(sqe.__pad2),
{
    lemma_auto_spec_u16_to_from_le_bytes();
    lemma_auto_spec_u32_to_from_le_bytes();
    lemma_auto_spec_u64_to_from_le_bytes();
    let b = sqe.encoded();
    assert(b.subrange(2, 4) =~= spec_u16_to_le_bytes(sqe.ioprio));
    assert(b.subrange(4, 8) =~= spec_u32_to_le_bytes(sqe.fd as u32));
    assert(b.subrange(8, 16) =~= spec_u64_to_le_bytes(sqe.off));
    assert(b.subrange(16, 24) =~= spec_u64_to_le_bytes(sqe.addr));
    assert(b.subrange(24, 28) =~= spec_u32_to_le_bytes(sqe.len));
    assert(b.subrange(28, 32) =~= spec_u32_to_le_bytes(sqe.rw_flags as u32));
    assert(b.subrange(32, 40) =~= spec_u64_to_le_bytes(sqe.user_data));
    assert(b.subrange(40, 42) =~= spec_u16_to_le_bytes(sqe.buf_index));
    assert(b.subrange(42, 44) =~= spec_u16_to_le_bytes(sqe.personality));
    assert(b.subrange(44, 48) =~= spec_u32_to_le_bytes(sqe.splice_fd_in as u32));
    assert(b.subrange(48, 56) =~= spec_u64_to_le_bytes(sqe.addr3));
    assert(b.subrange(56, 64) =~= spec_u64_to_le_bytes(sqe.__pad2));
}

/// Where the fields of a completion entry lie: the bytes of an entry are 16, and each
/// field's bytes stand at the field's offset.
pub proof fn lemma_cqe_layout(cqe: io_uring_cqe)
    ensures
        cqe.encoded().len() == 16,
        cqe.encoded().subrange(0, 8) == spec_u64_to_le_bytes(cqe.user_data),
        cqe.encoded().subrange(8, 12) == spec_u32_to_le_bytes(cqe.res as u32),
        cqe.encoded().subrange(12, 16) == spec_u32_to_le_bytes(cqe.flags),
{
    lemma_auto_spec_u32_to_from_le_bytes();
    lemma_auto_spec_u64_to_from_le_bytes();
    let b = cqe.encoded();
    assert(b.subrange(0, 8) =~= spec_u64_to_le_bytes(cqe.user_data));
    assert(b.subrange(8, 12) =~= spec_u32_to_le_bytes(cqe.res as u32));
    assert(b.subrange(12, 16) =~= spec_u32_to_le_bytes(cqe.flags));
}

/// Writing a submission entry out and reading it back gives the entry.
pub proof fn lemma_sqe_round_trip(sqe: io_uring_sqe)
    ensures
        io_uring_sqe::decoded(sqe.encoded()) == sqe,
{
    lemma_sqe_layout(sqe);
    lemma_auto_spec_u16_to_from_le_bytes();
    lemma_auto_spec_u32_to_from_le_bytes();
    lemma_auto_spec_u64_to_from_le_bytes();
    lemma_signed_round_trip(sqe.fd);
    lemma_signed_round_trip(sqe.rw_flags);
    lemma_signed_round_trip(sqe.splice_fd_in);
}

/// Writing a completion entry out and reading it back gives the entry.
pub proof fn lemma_cqe_round_trip(cqe: io_uring_cqe)
    ensures
        io_uring_cqe::decoded(cqe.encoded()) == cqe,
{
    lemma_cqe_layout(cqe);
    lemma_auto_spec_u32_to_from_le_bytes();
    lemma_auto_spec_u64_to_from_le_bytes();
    lemma_signed_round_trip(cqe.res);
}

} // verus!

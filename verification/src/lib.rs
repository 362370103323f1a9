//! User-space access to the Linux io_uring interface: the two rings that a process
//! shares with the kernel, the bookkeeping of their indices, and the engine that turns
//! "prepare, submit, harvest" into ring operations and kernel calls.
//!
//! The library decides and keeps the books; it performs no system call and maps no
//! memory. Its rings hold a copy of the cells that the kernel sees, and the code that
//! owns the mappings and enters the kernel moves values between the two.

#![allow(non_camel_case_types)]

use vstd::prelude::*;

pub mod cq;
pub mod cqe;
pub mod err;
pub mod io_uring;
pub mod layout;
pub mod mmap;
pub mod params;
pub mod ring;
pub mod sq;
pub mod sqe;

pub use cq::CompletionQueue;
pub use cqe::CqeFlags;
pub use err::{EnterError, InitError, IoUringResult};
pub use io_uring::{IoUring, Probe};
pub use mmap::RwMmap;
pub use params::{io_cqring_offsets, io_sqring_offsets, io_uring_params};
pub use sq::SubmissionQueue;
pub use sqe::{Iovec, SqeFlags};

verus! {

pub const IORING_SETUP_IOPOLL: u32 = 0x1;
pub const IORING_SETUP_SQPOLL: u32 = 0x2;
pub const IORING_SETUP_SQ_AFF: u32 = 0x4;
pub const IORING_SETUP_CQSIZE: u32 = 0x8;
pub const IORING_SETUP_CLAMP: u32 = 0x10;
pub const IORING_SETUP_ATTACH_WQ: u32 = 0x20;
pub const IORING_SETUP_R_DISABLED: u32 = 0x40;

pub const IORING_ENTER_GETEVENTS: u32 = 0x1;
pub const IORING_ENTER_SQ_WAKEUP: u32 = 0x2;
pub const IORING_ENTER_SQ_WAIT: u32 = 0x4;
pub const IORING_ENTER_EXT_ARG: u32 = 0x8;
pub const IORING_ENTER_REGISTERED_FD: u32 = 0x10;

pub const IORING_OFF_SQ_RING: u64 = 0;
pub const IORING_OFF_CQ_RING: u64 = 0x0800_0000;
pub const IORING_OFF_SQES: u64 = 0x1000_0000;

pub const AT_FDCWD: i32 = -100;
pub const SOCK_CLOEXEC: i32 = 0x8_0000;

pub const IORING_OP_NOP: u8 = 0;
pub const IORING_OP_READV: u8 = 1;
pub const IORING_OP_WRITEV: u8 = 2;
pub const IORING_OP_FSYNC: u8 = 3;
pub const IORING_OP_READ_FIXED: u8 = 4;
pub const IORING_OP_WRITE_FIXED: u8 = 5;
pub const IORING_OP_POLL_ADD: u8 = 6;
pub const IORING_OP_POLL_REMOVE: u8 = 7;
pub const IORING_OP_SYNC_FILE_RANGE: u8 = 8;
pub const IORING_OP_SENDMSG: u8 = 9;
pub const IORING_OP_RECVMSG: u8 = 10;
pub const IORING_OP_TIMEOUT: u8 = 11;
pub const IORING_OP_TIMEOUT_REMOVE: u8 = 12;
pub const IORING_OP_ACCEPT: u8 = 13;
pub const IORING_OP_ASYNC_CANCEL: u8 = 14;
pub const IORING_OP_LINK_TIMEOUT: u8 = 15;
pub const IORING_OP_CONNECT: u8 = 16;
pub const IORING_OP_FALLOCATE: u8 = 17;
pub const IORING_OP_OPENAT: u8 = 18;
pub const IORING_OP_CLOSE: u8 = 19;
pub const IORING_OP_FILES_UPDATE: u8 = 20;
pub const IORING_OP_STATX: u8 = 21;
pub const IORING_OP_READ: u8 = 22;
pub const IORING_OP_WRITE: u8 = 23;
pub const IORING_OP_FADVISE: u8 = 24;
pub const IORING_OP_MADVISE: u8 = 25;
pub const IORING_OP_SEND: u8 = 26;
pub const IORING_OP_RECV: u8 = 27;
pub const IORING_OP_OPENAT2: u8 = 28;
pub const IORING_OP_EPOLL_CTL: u8 = 29;
pub const IORING_OP_SPLICE: u8 = 30;
pub const IORING_OP_PROVIDE_BUFFERS: u8 = 31;
pub const IORING_OP_REMOVE_BUFFERS: u8 = 32;
pub const IORING_OP_TEE: u8 = 33;
pub const IORING_OP_SHUTDOWN: u8 = 34;
pub const IORING_OP_RENAMEAT: u8 = 35;
pub const IORING_OP_UNLINKAT: u8 = 36;
pub const IORING_OP_MKDIRAT: u8 = 37;
pub const IORING_OP_SYMLINKAT: u8 = 38;
pub const IORING_OP_LINKAT: u8 = 39;
pub const IORING_OP_MSG_RING: u8 = 40;
pub const IORING_OP_FSETXATTR: u8 = 41;
pub const IORING_OP_SETXATTR: u8 = 42;
pub const IORING_OP_FGETXATTR: u8 = 43;
pub const IORING_OP_GETXATTR: u8 = 44;
pub const IORING_OP_SOCKET: u8 = 45;
pub const IORING_OP_URING_CMD: u8 = 46;
pub const IORING_OP_SEND_ZC: u8 = 47;
pub const IORING_OP_SENDMSG_ZC: u8 = 48;

pub const IORING_TIMEOUT_ABS: u32 = 0x1;

pub const IORING_ASYNC_CANCEL_ALL: u32 = 0x1;
pub const IORING_ASYNC_CANCEL_ANY: u32 = 0x4;

pub const IOSQE_FIXED_FILE: u8 = 0x1;
pub const IOSQE_IO_DRAIN: u8 = 0x2;
pub const IOSQE_IO_LINK: u8 = 0x4;
pub const IOSQE_IO_HARDLINK: u8 = 0x8;
pub const IOSQE_ASYNC: u8 = 0x10;
pub const IOSQE_BUFFER_SELECT: u8 = 0x20;
pub const IOSQE_CQE_SKIP_SUCCESS: u8 = 0x40;

pub const IOSQE_SELECT_GROUP: u8 = IOSQE_BUFFER_SELECT;

pub const IORING_CQE_F_BUFFER: u32 = 0x1;
pub const IORING_CQE_F_MORE: u32 = 0x2;
pub const IORING_CQE_F_SOCK_NONEMPTY: u32 = 0x4;
pub const IORING_CQE_F_TIMEOUT: u32 = 0x8;
pub const IORING_CQE_F_NOTIFICATION: u32 = 0x10;

pub const IORING_SQ_NEED_WAKEUP: u32 = 0x1;

pub const IORING_F_SQE128: u32 = 0x1;
pub const IORING_F_CQE32: u32 = 0x2;
pub const IORING_F_CQE32OPT: u32 = 0x4;
pub const IORING_F_SGID: u32 = 0x8;
pub const IORING_F_NO_MMAP: u32 = 0x10;
pub const IORING_F_SINGLE_MMAP: u32 = 0x20;
pub const IORING_F_SUBMIT_STABLE: u32 = 0x40;
pub const IORING_F_RW_BUF_NODROP: u32 = 0x80;
pub const IORING_F_HAVE_SENDZC: u32 = 0x100;
pub const IORING_F_RECVSEND_CACHE: u32 = 0x200;
pub const IORING_F_SOCKET_SENDRCV_NONE: u32 = 0x400;
pub const IORING_F_NATIVE_WORKERS: u32 = 0x800;
pub const IORING_F_REG_REG_RING: u32 = 0x1000;

pub const POLLIN: u16 = 0x0001;
pub const POLLPRI: u16 = 0x0002;
pub const POLLOUT: u16 = 0x0004;
pub const POLLERR: u16 = 0x0008;
pub const POLLHUP: u16 = 0x0010;
pub const POLLNVAL: u16 = 0x0020;
pub const POLLRDNORM: u16 = 0x0040;
pub const POLLRDBAND: u16 = 0x0080;
pub const POLLWRNORM: u16 = 0x0100;
pub const POLLWRBAND: u16 = 0x0200;
pub const POLLMSG: u16 = 0x0400;
pub const POLLREMOVE: u16 = 0x1000;
pub const POLLTICK: u16 = 0x2000;

/// A submission entry: one requested operation, in the field order of the kernel's record.
#[derive(Debug)]
pub struct io_uring_sqe {
    pub opcode: u8,
    pub flags: u8,
    pub ioprio: u16,
    pub fd: i32,
    pub off: u64,
    pub addr: u64,
    pub len: u32,
    pub rw_flags: i32,
    pub user_data: u64,
    pub buf_index: u16,
    pub personality: u16,
    pub splice_fd_in: i32,
    pub addr3: u64,
    pub __pad2: u64,
}

impl io_uring_sqe {
    /// The entry whose every field is zero.
    pub open spec fn zeroed() -> io_uring_sqe {
        io_uring_sqe {
            opcode: 0,
            flags: 0,
            ioprio: 0,
            fd: 0,
            off: 0,
            addr: 0,
            len: 0,
            rw_flags: 0,
            user_data: 0,
            buf_index: 0,
            personality: 0,
            splice_fd_in: 0,
            addr3: 0,
            __pad2: 0,
        }
    }

    #[must_use]
    pub fn new() -> (sqe: Self)
        ensures
            sqe == Self::zeroed(),
    {
        Self::default()
    }
}

impl Default for io_uring_sqe {
    fn default() -> (sqe: Self)
        ensures
            sqe == io_uring_sqe::zeroed(),
    {
        io_uring_sqe {
            opcode: 0,
            flags: 0,
            ioprio: 0,
            fd: 0,
            off: 0,
            addr: 0,
            len: 0,
            rw_flags: 0,
            user_data: 0,
            buf_index: 0,
            personality: 0,
            splice_fd_in: 0,
            addr3: 0,
            __pad2: 0,
        }
    }
}

/// A completion entry: the outcome of one operation, as the kernel reports it.
#[derive(Debug, Clone, Copy)]
pub struct io_uring_cqe {
    pub user_data: u64,
    pub res: i32,
    pub flags: u32,
}

impl io_uring_cqe {
    /// The entry whose every field is zero.
    pub open spec fn zeroed() -> io_uring_cqe {
        io_uring_cqe { user_data: 0, res: 0, flags: 0 }
    }
}

/// A point in time or a span, in seconds and nanoseconds.
#[derive(Debug, Copy, Clone)]
pub struct Timespec {
    pub tv_sec: i64,
    pub tv_nsec: i64,
}

impl Timespec {
    #[must_use]
    pub fn new(tv_sec: i64, tv_nsec: i64) -> (ts: Self)
        ensures
            ts.tv_sec == tv_sec,
            ts.tv_nsec == tv_nsec,
    {
        Self { tv_sec, tv_nsec }
    }
}

/// A buffer, by the address where it starts and its length in bytes.
#[derive(Debug, Copy, Clone)]
pub struct iovec {
    pub iov_base: u64,
    pub iov_len: usize,
}

impl iovec {
    #[must_use]
    pub fn new(base: u64, len: usize) -> (iov: Self)
        ensures
            iov.iov_base == base,
            iov.iov_len == len,
    {
        Self { iov_base: base, iov_len: len }
    }
}

/// An operation that can write itself into a submission entry.
pub trait PrepSqe {
    /// The entry that `prep` makes of `sqe`.
    spec fn prepared(&self, sqe: io_uring_sqe) -> io_uring_sqe;

    fn prep(&self, sqe: &mut io_uring_sqe)
        ensures
            *final(sqe) == self.prepared(*old(sqe)),
    ;
}

/// An operation that can write itself into a submission entry and hands the kernel
/// memory to write to.
pub trait PrepSqeMut {
    /// The entry that `prep` makes of `sqe`.
    spec fn prepared(&self, sqe: io_uring_sqe) -> io_uring_sqe;

    fn prep(&mut self, sqe: &mut io_uring_sqe)
        ensures
            *final(sqe) == old(self).prepared(*old(sqe)),
    ;
}

/// The free slots of a submission ring with the given tail, head and capacity.
#[must_use]
pub fn sq_entries_available(tail: u32, head: u32, ring_entries: u32) -> (free: u32)
    requires
        ring::distance(head, tail) <= ring_entries,
    ensures
        free == ring_entries - ring::distance(head, tail),
{
    ring_entries - tail.wrapping_sub(head)
}

/// The free slots of a completion ring with the given tail, head and capacity.
#[must_use]
pub fn cq_entries_available(tail: u32, head: u32, ring_entries: u32) -> (free: u32)
    requires
        ring::distance(head, tail) <= ring_entries,
    ensures
        free == ring_entries - ring::distance(head, tail),
{
    ring_entries - tail.wrapping_sub(head)
}

} // verus!

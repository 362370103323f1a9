//! The operations: for each kind of request a small value that holds its parameters
//! and writes them into a submission entry, field by field as the kernel reads them.
//!
//! An operation that names memory holds its address as a number. The memory itself
//! stays with the caller, who keeps it alive and in place until the completion arrives.

use crate::{
    io_uring_sqe,
    PrepSqe,
    PrepSqeMut,
    Timespec,
    IORING_ASYNC_CANCEL_ALL,
    IORING_ASYNC_CANCEL_ANY,
    IORING_OP_ACCEPT,
    IORING_OP_ASYNC_CANCEL,
    IORING_OP_CLOSE,
    IORING_OP_CONNECT,
    IORING_OP_FADVISE,
    IORING_OP_FALLOCATE,
    IORING_OP_FSYNC,
    IORING_OP_LINKAT,
    IORING_OP_LINK_TIMEOUT,
    IORING_OP_MADVISE,
    IORING_OP_MKDIRAT,
    IORING_OP_MSG_RING,
    IORING_OP_NOP,
    IORING_OP_OPENAT,
    IORING_OP_POLL_ADD,
    IORING_OP_POLL_REMOVE,
    IORING_OP_PROVIDE_BUFFERS,
    IORING_OP_READ,
    IORING_OP_READV,
    IORING_OP_READ_FIXED,
    IORING_OP_RECV,
    IORING_OP_RECVMSG,
    IORING_OP_REMOVE_BUFFERS,
    IORING_OP_RENAMEAT,
    IORING_OP_SEND,
    IORING_OP_SENDMSG,
    IORING_OP_SHUTDOWN,
    IORING_OP_SPLICE,
    IORING_OP_STATX,
    IORING_OP_SYMLINKAT,
    IORING_OP_TEE,
    IORING_OP_TIMEOUT,
    IORING_OP_TIMEOUT_REMOVE,
    IORING_OP_UNLINKAT,
    IORING_OP_WRITE,
    IORING_OP_WRITEV,
    IORING_OP_WRITE_FIXED,
    IORING_TIMEOUT_ABS,
    IOSQE_ASYNC,
    IOSQE_BUFFER_SELECT,
    IOSQE_CQE_SKIP_SUCCESS,
    IOSQE_FIXED_FILE,
    IOSQE_IO_DRAIN,
    IOSQE_IO_HARDLINK,
    IOSQE_IO_LINK,
};
use vstd::prelude::*;

verus! {

/// `<[T]>::as_ptr` of std, read as a number: the address at which a slice starts.
/// A slice is never null, not even an empty one, so the address is not zero. Nothing
/// more is promised of it: where a slice lies is up to the allocator and the stack.
#[verifier::external_body]
pub(crate) fn slice_addr<T>(s: &[T]) -> (addr: u64)
    ensures
        addr != 0,
{
    s.as_ptr() as u64
}

/// `core::ptr::from_ref` of std, read as a number: the address at which a value lies.
/// A reference is never null, so the address is not zero. Nothing more is promised of
/// it: where a value lies is up to the allocator and the stack.
#[verifier::external_body]
pub(crate) fn ref_addr<T>(r: &T) -> (addr: u64)
    ensures
        addr != 0,
{
    core::ptr::from_ref(r) as usize as u64
}

/// A buffer, by the address where it starts and its length in bytes.
#[derive(Debug, Copy, Clone)]
pub struct Iovec {
    pub iov_base: u64,
    pub iov_len: usize,
}

impl Iovec {
    #[must_use]
    pub fn new(base: u64, len: usize) -> (iov: Self)
        ensures
            iov == (Iovec { iov_base: base, iov_len: len }),
    {
        Self { iov_base: base, iov_len: len }
    }
}

/// The header of a message for `SendMsg` and `RecvMsg`: where the peer's address, the
/// buffers and the control data lie.
#[derive(Debug)]
pub struct MsgHdr {
    pub msg_name: u64,
    pub msg_namelen: u32,
    pub msg_iov: u64,
    pub msg_iovlen: usize,
    pub msg_control: u64,
    pub msg_controllen: u32,
    pub msg_flags: i32,
}

impl MsgHdr {
    /// The header that names nothing.
    pub open spec fn empty() -> MsgHdr {
        MsgHdr {
            msg_name: 0,
            msg_namelen: 0,
            msg_iov: 0,
            msg_iovlen: 0,
            msg_control: 0,
            msg_controllen: 0,
            msg_flags: 0,
        }
    }

    #[must_use]
    pub fn new() -> (hdr: Self)
        ensures
            hdr == Self::empty(),
    {
        Self {
            msg_name: 0,
            msg_namelen: 0,
            msg_iov: 0,
            msg_iovlen: 0,
            msg_control: 0,
            msg_controllen: 0,
            msg_flags: 0,
        }
    }

    #[must_use]
    pub fn with_addr(addr: &mut [u8]) -> (hdr: Self)
        ensures
            hdr.msg_name != 0,
            hdr == (MsgHdr {
                msg_name: hdr.msg_name,
                msg_namelen: old(addr)@.len() as u32,
                ..Self::empty()
            }),
    {
        Self {
            msg_name: slice_addr(addr),
            msg_namelen: #[verifier::truncate] (addr.len() as u32),
            msg_iov: 0,
            msg_iovlen: 0,
            msg_control: 0,
            msg_controllen: 0,
            msg_flags: 0,
        }
    }

    #[must_use]
    pub fn with_iov(iov: &mut [Iovec]) -> (hdr: Self)
        ensures
            hdr.msg_iov != 0,
            hdr == (MsgHdr {
                msg_iov: hdr.msg_iov,
                msg_iovlen: old(iov)@.len() as usize,
                ..Self::empty()
            }),
    {
        Self {
            msg_name: 0,
            msg_namelen: 0,
            msg_iov: slice_addr(iov),
            msg_iovlen: iov.len(),
            msg_control: 0,
            msg_controllen: 0,
            msg_flags: 0,
        }
    }

    #[must_use]
    pub fn with_addr_and_iov(addr: &mut [u8], iov: &mut [Iovec]) -> (hdr: Self)
        ensures
            hdr.msg_name != 0,
            hdr.msg_iov != 0,
            hdr == (MsgHdr {
                msg_name: hdr.msg_name,
                msg_namelen: old(addr)@.len() as u32,
                msg_iov: hdr.msg_iov,
                msg_iovlen: old(iov)@.len() as usize,
                ..Self::empty()
            }),
    {
        Self {
            msg_name: slice_addr(addr),
            msg_namelen: #[verifier::truncate] (addr.len() as u32),
            msg_iov: slice_addr(iov),
            msg_iovlen: iov.len(),
            msg_control: 0,
            msg_controllen: 0,
            msg_flags: 0,
        }
    }

    pub fn set_control(&mut self, control: u64, controllen: u32)
        ensures
            *final(self) == (MsgHdr {
                msg_control: control,
                msg_controllen: controllen,
                ..*old(self)
            }),
    {
        self.msg_control = control;
        self.msg_controllen = controllen;
    }

    pub fn set_flags(&mut self, flags: i32)
        ensures
            *final(self) == (MsgHdr { msg_flags: flags, ..*old(self) }),
    {
        self.msg_flags = flags;
    }
}

/// The flags of a submission entry, one bit each.
#[derive(Debug, Copy, Clone, PartialEq, Eq)]
pub enum SqeFlags {
    FixedFile,
    IoDrain,
    IoLink,
    IoHardlink,
    Async,
    BufferSelect,
    CqeSkipSuccess,
}

impl SqeFlags {
    /// The bit that the flag stands for.
    pub open spec fn mask(self) -> u8 {
        match self {
            SqeFlags::FixedFile => IOSQE_FIXED_FILE,
            SqeFlags::IoDrain => IOSQE_IO_DRAIN,
            SqeFlags::IoLink => IOSQE_IO_LINK,
            SqeFlags::IoHardlink => IOSQE_IO_HARDLINK,
            SqeFlags::Async => IOSQE_ASYNC,
            SqeFlags::BufferSelect => IOSQE_BUFFER_SELECT,
            SqeFlags::CqeSkipSuccess => IOSQE_CQE_SKIP_SUCCESS,
        }
    }

    #[must_use]
    pub fn bits(self) -> (bits: u8)
        ensures
            bits == self.mask(),
    {
        match self {
            SqeFlags::FixedFile => IOSQE_FIXED_FILE,
            SqeFlags::IoDrain => IOSQE_IO_DRAIN,
            SqeFlags::IoLink => IOSQE_IO_LINK,
            SqeFlags::IoHardlink => IOSQE_IO_HARDLINK,
            SqeFlags::Async => IOSQE_ASYNC,
            SqeFlags::BufferSelect => IOSQE_BUFFER_SELECT,
            SqeFlags::CqeSkipSuccess => IOSQE_CQE_SKIP_SUCCESS,
        }
    }
}

/// Starts a set of entry flags with none of them set.
#[must_use]
pub fn sqe_flags() -> (builder: SqeFlagsBuilder)
    ensures
        builder.0 == 0,
{
    SqeFlagsBuilder(0)
}

/// A set of entry flags in the making.
pub struct SqeFlagsBuilder(pub u8);

impl SqeFlagsBuilder {
    #[must_use]
    pub fn with(self, flag: SqeFlags) -> (builder: Self)
        ensures
            builder.0 == self.0 | flag.mask(),
    {
        SqeFlagsBuilder(self.0 | flag.bits())
    }

    #[must_use]
    pub fn bits(self) -> (bits: u8)
        ensures
            bits == self.0,
    {
        self.0
    }
}

/// The operation that does nothing but complete.
pub struct Nop;

impl PrepSqe for Nop {
    open spec fn prepared(&self, sqe: io_uring_sqe) -> io_uring_sqe {
        io_uring_sqe { opcode: IORING_OP_NOP, ..sqe }
    }

    fn prep(&self, sqe: &mut io_uring_sqe) {
        sqe.opcode = IORING_OP_NOP;
    }
}

/// A vectored read: the kernel fills the buffers that an array of `Iovec` names.
pub struct Readv {
    pub fd: i32,
    pub iovec: u64,
    pub nr_vecs: u32,
    pub offset: u64,
    pub flags: u32,
}

impl Readv {
    #[must_use]
    pub fn new(fd: i32, iovec: &[Iovec], offset: u64) -> (op: Self)
        ensures
            op.iovec != 0,
            op.fd == fd,
            op.nr_vecs == iovec@.len() as u32,
            op.offset == offset,
            op.flags == 0,
    {
        Self {
            fd,
            iovec: slice_addr(iovec),
            nr_vecs: #[verifier::truncate] (iovec.len() as u32),
            offset,
            flags: 0,
        }
    }

    pub fn set_flags(&mut self, flags: u32)
        ensures
            *final(self) == (Readv { flags, ..*old(self) }),
    {
        self.flags = flags;
    }
}

impl PrepSqe for Readv {
    open spec fn prepared(&self, sqe: io_uring_sqe) -> io_uring_sqe {
        io_uring_sqe {
            opcode: IORING_OP_READV,
            fd: self.fd,
            off: self.offset,
            addr: self.iovec,
            len: self.nr_vecs,
            rw_flags: self.flags as i32,
            ..sqe
        }
    }

    fn prep(&self, sqe: &mut io_uring_sqe) {
        sqe.opcode = IORING_OP_READV;
        sqe.fd = self.fd;
        sqe.off = self.offset;
        sqe.addr = self.iovec;
        sqe.len = self.nr_vecs;
        sqe.rw_flags = #[verifier::truncate] (self.flags as i32);
    }
}

/// A vectored write: the kernel sends the buffers that an array of `Iovec` names.
pub struct Writev {
    pub fd: i32,
    pub iovec: u64,
    pub nr_vecs: u32,
    pub offset: u64,
    pub flags: u32,
}

impl Writev {
    #[must_use]
    pub fn new(fd: i32, iovec: &[Iovec], offset: u64) -> (op: Self)
        ensures
            op.iovec != 0,
            op.fd == fd,
            op.nr_vecs == iovec@.len() as u32,
            op.offset == offset,
            op.flags == 0,
    {
        Self {
            fd,
            iovec: slice_addr(iovec),
            nr_vecs: #[verifier::truncate] (iovec.len() as u32),
            offset,
            flags: 0,
        }
    }

    pub fn set_flags(&mut self, flags: u32)
        ensures
            *final(self) == (Writev { flags, ..*old(self) }),
    {
        self.flags = flags;
    }
}

impl PrepSqe for Writev {
    open spec fn prepared(&self, sqe: io_uring_sqe) -> io_uring_sqe {
        io_uring_sqe {
            opcode: IORING_OP_WRITEV,
            fd: self.fd,
            off: self.offset,
            addr: self.iovec,
            len: self.nr_vecs,
            rw_flags: self.flags as i32,
            ..sqe
        }
    }

    fn prep(&self, sqe: &mut io_uring_sqe) {
        sqe.opcode = IORING_OP_WRITEV;
        sqe.fd = self.fd;
        sqe.off = self.offset;
        sqe.addr = self.iovec;
        sqe.len = self.nr_vecs;
        sqe.rw_flags = #[verifier::truncate] (self.flags as i32);
    }
}

/// A read into a buffer.
pub struct Read {
    pub fd: i32,
    pub buf: u64,
    pub len: u32,
    pub offset: u64,
}

impl Read {
    #[must_use]
    pub fn new(fd: i32, buf: &mut [u8], offset: u64) -> (op: Self)
        ensures
            op.buf != 0,
            op.fd == fd,
            op.len == old(buf)@.len() as u32,
            op.offset == offset,
    {
        Self { fd, buf: slice_addr(buf), len: #[verifier::truncate] (buf.len() as u32), offset }
    }
}

impl PrepSqeMut for Read {
    open spec fn prepared(&self, sqe: io_uring_sqe) -> io_uring_sqe {
        io_uring_sqe {
            opcode: IORING_OP_READ,
            fd: self.fd,
            off: self.offset,
            addr: self.buf,
            len: self.len,
            ..sqe
        }
    }

    fn prep(&mut self, sqe: &mut io_uring_sqe)
        ensures
            *final(self) == *old(self),
    {
        sqe.opcode = IORING_OP_READ;
        sqe.fd = self.fd;
        sqe.off = self.offset;
        sqe.addr = self.buf;
        sqe.len = self.len;
    }
}

/// A read into a part of a registered buffer.
pub struct ReadFixed {
    pub fd: i32,
    pub buf: u64,
    pub len: u32,
    pub offset: u64,
    pub buf_index: u16,
}

impl ReadFixed {
    #[must_use]
    pub fn new(fd: i32, buf: &mut [u8], offset: u64, buf_index: u16) -> (op: Self)
        ensures
            op.buf != 0,
            op.fd == fd,
            op.len == old(buf)@.len() as u32,
            op.offset == offset,
            op.buf_index == buf_index,
    {
        Self {
            fd,
            buf: slice_addr(buf),
            len: #[verifier::truncate] (buf.len() as u32),
            offset,
            buf_index,
        }
    }
}

impl PrepSqeMut for ReadFixed {
    open spec fn prepared(&self, sqe: io_uring_sqe) -> io_uring_sqe {
        io_uring_sqe {
            opcode: IORING_OP_READ_FIXED,
            fd: self.fd,
            off: self.offset,
            addr: self.buf,
            len: self.len,
            buf_index: self.buf_index,
            ..sqe
        }
    }

    fn prep(&mut self, sqe: &mut io_uring_sqe)
        ensures
            *final(self) == *old(self),
    {
        sqe.opcode = IORING_OP_READ_FIXED;
        sqe.fd = self.fd;
        sqe.off = self.offset;
        sqe.addr = self.buf;
        sqe.len = self.len;
        sqe.buf_index = self.buf_index;
    }
}

/// A write from a part of a registered buffer.
pub struct WriteFixed {
    pub fd: i32,
    pub buf: u64,
    pub len: u32,
    pub offset: u64,
    pub buf_index: u16,
}

impl WriteFixed {
    #[must_use]
    pub fn new(fd: i32, buf: &[u8], offset: u64, buf_index: u16) -> (op: Self)
        ensures
            op.buf != 0,
            op.fd == fd,
            op.len == buf@.len() as u32,
            op.offset == offset,
            op.buf_index == buf_index,
    {
        Self {
            fd,
            buf: slice_addr(buf),
            len: #[verifier::truncate] (buf.len() as u32),
            offset,
            buf_index,
        }
    }
}

impl PrepSqe for WriteFixed {
    open spec fn prepared(&self, sqe: io_uring_sqe) -> io_uring_sqe {
        io_uring_sqe {
            opcode: IORING_OP_WRITE_FIXED,
            fd: self.fd,
            off: self.offset,
            addr: self.buf,
            len: self.len,
            buf_index: self.buf_index,
            ..sqe
        }
    }

    fn prep(&self, sqe: &mut io_uring_sqe) {
        sqe.opcode = IORING_OP_WRITE_FIXED;
        sqe.fd = self.fd;
        sqe.off = self.offset;
        sqe.addr = self.buf;
        sqe.len = self.len;
        sqe.buf_index = self.buf_index;
    }
}

/// A write from a buffer.
pub struct Write {
    pub fd: i32,
    pub buf: u64,
    pub len: u32,
    pub offset: u64,
}

impl Write {
    #[must_use]
    pub fn new(fd: i32, buf: &[u8], offset: u64) -> (op: Self)
        ensures
            op.buf != 0,
            op.fd == fd,
            op.len == buf@.len() as u32,
            op.offset == offset,
    {
        Self { fd, buf: slice_addr(buf), len: #[verifier::truncate] (buf.len() as u32), offset }
    }
}

impl PrepSqe for Write {
    open spec fn prepared(&self, sqe: io_uring_sqe) -> io_uring_sqe {
        io_uring_sqe {
            opcode: IORING_OP_WRITE,
            fd: self.fd,
            off: self.offset,
            addr: self.buf,
            len: self.len,
            ..sqe
        }
    }

    fn prep(&self, sqe: &mut io_uring_sqe) {
        sqe.opcode = IORING_OP_WRITE;
        sqe.fd = self.fd;
        sqe.off = self.offset;
        sqe.addr = self.buf;
        sqe.len = self.len;
    }
}

/// A flush of a file to its device.
pub struct Fsync {
    pub fd: i32,
    pub flags: u32,
}

impl Fsync {
    #[must_use]
    pub fn new(fd: i32) -> (op: Self)
        ensures
            op == (Fsync { fd, flags: 0 }),
    {
        Self { fd, flags: 0 }
    }

    pub fn set_flags(&mut self, flags: u32)
        ensures
            *final(self) == (Fsync { flags, ..*old(self) }),
    {
        self.flags = flags;
    }
}

impl PrepSqe for Fsync {
    open spec fn prepared(&self, sqe: io_uring_sqe) -> io_uring_sqe {
        io_uring_sqe {
            opcode: IORING_OP_FSYNC,
            fd: self.fd,
            rw_flags: self.flags as i32,
            ..sqe
        }
    }

    fn prep(&self, sqe: &mut io_uring_sqe) {
        sqe.opcode = IORING_OP_FSYNC;
        sqe.fd = self.fd;
        sqe.rw_flags = #[verifier::truncate] (self.flags as i32);
    }
}

/// The closing of a descriptor.
pub struct Close {
    pub fd: i32,
}

impl Close {
    #[must_use]
    pub fn new(fd: i32) -> (op: Self)
        ensures
            op == (Close { fd }),
    {
        Self { fd }
    }
}

impl PrepSqe for Close {
    open spec fn prepared(&self, sqe: io_uring_sqe) -> io_uring_sqe {
        io_uring_sqe {
            opcode: IORING_OP_CLOSE,
            fd: self.fd,
            ..sqe
        }
    }

    fn prep(&self, sqe: &mut io_uring_sqe) {
        sqe.opcode = IORING_OP_CLOSE;
        sqe.fd = self.fd;
    }
}

/// The opening of a file. `path` holds the bytes of a C string, the final NUL included.
pub struct OpenAt {
    pub dirfd: i32,
    pub path: u64,
    pub flags: u32,
    pub mode: u32,
}

impl OpenAt {
    #[must_use]
    pub fn new(dirfd: i32, path: &[u8], flags: u32, mode: u32) -> (op: Self)
        ensures
            op.path != 0,
            op.dirfd == dirfd,
            op.flags == flags,
            op.mode == mode,
    {
        Self { dirfd, path: slice_addr(path), flags, mode }
    }

    pub fn set_flags(&mut self, flags: u32)
        ensures
            *final(self) == (OpenAt { flags, ..*old(self) }),
    {
        self.flags = flags;
    }
}

impl PrepSqe for OpenAt {
    open spec fn prepared(&self, sqe: io_uring_sqe) -> io_uring_sqe {
        io_uring_sqe {
            opcode: IORING_OP_OPENAT,
            fd: self.dirfd,
            off: 0,
            addr: self.path,
            len: self.mode,
            rw_flags: self.flags as i32,
            ..sqe
        }
    }

    fn prep(&self, sqe: &mut io_uring_sqe) {
        sqe.opcode = IORING_OP_OPENAT;
        sqe.fd = self.dirfd;
        sqe.off = 0;
        sqe.addr = self.path;
        sqe.len = self.mode;
        sqe.rw_flags = #[verifier::truncate] (self.flags as i32);
    }
}

/// The closing of a registered file, named by its index in the table.
pub struct CloseDirect {
    pub file_index: u32,
}

impl CloseDirect {
    #[must_use]
    pub fn new(file_index: u32) -> (op: Self)
        ensures
            op == (CloseDirect { file_index }),
    {
        Self { file_index }
    }
}

impl PrepSqe for CloseDirect {
    open spec fn prepared(&self, sqe: io_uring_sqe) -> io_uring_sqe {
        io_uring_sqe {
            opcode: IORING_OP_CLOSE,
            fd: 0,
            off: 0,
            addr: 0,
            len: 0,
            splice_fd_in: self.file_index.wrapping_add(1) as i32,
            ..sqe
        }
    }

    fn prep(&self, sqe: &mut io_uring_sqe) {
        sqe.opcode = IORING_OP_CLOSE;
        sqe.fd = 0;
        sqe.off = 0;
        sqe.addr = 0;
        sqe.len = 0;
        sqe.splice_fd_in = #[verifier::truncate] (self.file_index.wrapping_add(1) as i32);
    }
}

/// A query of a file's status. `path` holds the bytes of a C string, the final NUL
/// included; `statxbuf` is the address of the record that the kernel fills.
pub struct Statx {
    pub dirfd: i32,
    pub path: u64,
    pub flags: u32,
    pub mask: u32,
    pub statxbuf: u64,
}

impl Statx {
    #[must_use]
    pub fn new(dirfd: i32, path: &[u8], flags: u32, mask: u32, statxbuf: u64) -> (op: Self)
        ensures
            op.path != 0,
            op.dirfd == dirfd,
            op.flags == flags,
            op.mask == mask,
            op.statxbuf == statxbuf,
    {
        Self { dirfd, path: slice_addr(path), flags, mask, statxbuf }
    }

    pub fn set_flags(&mut self, flags: u32)
        ensures
            *final(self) == (Statx { flags, ..*old(self) }),
    {
        self.flags = flags;
    }
}

impl PrepSqeMut for Statx {
    open spec fn prepared(&self, sqe: io_uring_sqe) -> io_uring_sqe {
        io_uring_sqe {
            opcode: IORING_OP_STATX,
            fd: self.dirfd,
            off: self.statxbuf,
            addr: self.path,
            len: self.mask,
            rw_flags: self.flags as i32,
            ..sqe
        }
    }

    fn prep(&mut self, sqe: &mut io_uring_sqe)
        ensures
            *final(self) == *old(self),
    {
        sqe.opcode = IORING_OP_STATX;
        sqe.fd = self.dirfd;
        sqe.off = self.statxbuf;
        sqe.addr = self.path;
        sqe.len = self.mask;
        sqe.rw_flags = #[verifier::truncate] (self.flags as i32);
    }
}

/// The reserving of space for a file.
pub struct Fallocate {
    pub fd: i32,
    pub mode: u32,
    pub offset: u64,
    pub len: u64,
}

impl Fallocate {
    #[must_use]
    pub fn new(fd: i32, mode: u32, offset: u64, len: u64) -> (op: Self)
        ensures
            op == (Fallocate { fd, mode, offset, len }),
    {
        Self { fd, mode, offset, len }
    }

    pub fn set_mode(&mut self, mode: u32)
        ensures
            *final(self) == (Fallocate { mode, ..*old(self) }),
    {
        self.mode = mode;
    }
}

impl PrepSqe for Fallocate {
    open spec fn prepared(&self, sqe: io_uring_sqe) -> io_uring_sqe {
        io_uring_sqe {
            opcode: IORING_OP_FALLOCATE,
            fd: self.fd,
            off: self.offset,
            addr: self.len,
            len: self.mode,
            ..sqe
        }
    }

    fn prep(&self, sqe: &mut io_uring_sqe) {
        sqe.opcode = IORING_OP_FALLOCATE;
        sqe.fd = self.fd;
        sqe.off = self.offset;
        sqe.addr = self.len;
        sqe.len = self.mode;
    }
}

/// Advice on how a range of a file will be used.
pub struct Fadvise {
    pub fd: i32,
    pub offset: u64,
    pub len: u32,
    pub advice: u32,
}

impl Fadvise {
    #[must_use]
    pub fn new(fd: i32, offset: u64, len: u32, advice: u32) -> (op: Self)
        ensures
            op == (Fadvise { fd, offset, len, advice }),
    {
        Self { fd, offset, len, advice }
    }

    pub fn set_advice(&mut self, advice: u32)
        ensures
            *final(self) == (Fadvise { advice, ..*old(self) }),
    {
        self.advice = advice;
    }
}

impl PrepSqe for Fadvise {
    open spec fn prepared(&self, sqe: io_uring_sqe) -> io_uring_sqe {
        io_uring_sqe {
            opcode: IORING_OP_FADVISE,
            fd: self.fd,
            off: self.offset,
            addr: 0,
            len: self.len,
            rw_flags: self.advice as i32,
            ..sqe
        }
    }

    fn prep(&self, sqe: &mut io_uring_sqe) {
        sqe.opcode = IORING_OP_FADVISE;
        sqe.fd = self.fd;
        sqe.off = self.offset;
        sqe.addr = 0;
        sqe.len = self.len;
        sqe.rw_flags = #[verifier::truncate] (self.advice as i32);
    }
}

/// Advice on how a range of memory, named by its address, will be used.
pub struct Madvise {
    pub addr: u64,
    pub len: u32,
    pub advice: u32,
}

impl Madvise {
    #[must_use]
    pub fn new(addr: u64, len: u32, advice: u32) -> (op: Self)
        ensures
            op == (Madvise { addr, len, advice }),
    {
        Self { addr, len, advice }
    }

    pub fn set_advice(&mut self, advice: u32)
        ensures
            *final(self) == (Madvise { advice, ..*old(self) }),
    {
        self.advice = advice;
    }
}

impl PrepSqe for Madvise {
    open spec fn prepared(&self, sqe: io_uring_sqe) -> io_uring_sqe {
        io_uring_sqe {
            opcode: IORING_OP_MADVISE,
            fd: -1i32,
            off: 0,
            addr: self.addr,
            len: self.len,
            rw_flags: self.advice as i32,
            ..sqe
        }
    }

    fn prep(&self, sqe: &mut io_uring_sqe) {
        sqe.opcode = IORING_OP_MADVISE;
        sqe.fd = -1;
        sqe.off = 0;
        sqe.addr = self.addr;
        sqe.len = self.len;
        sqe.rw_flags = #[verifier::truncate] (self.advice as i32);
    }
}

/// The removal of a name. `path` holds the bytes of a C string, the final NUL included.
pub struct UnlinkAt {
    pub dirfd: i32,
    pub path: u64,
    pub flags: u32,
}

impl UnlinkAt {
    #[must_use]
    pub fn new(dirfd: i32, path: &[u8], flags: u32) -> (op: Self)
        ensures
            op.path != 0,
            op.dirfd == dirfd,
            op.flags == flags,
    {
        Self { dirfd, path: slice_addr(path), flags }
    }

    pub fn set_flags(&mut self, flags: u32)
        ensures
            *final(self) == (UnlinkAt { flags, ..*old(self) }),
    {
        self.flags = flags;
    }
}

impl PrepSqe for UnlinkAt {
    open spec fn prepared(&self, sqe: io_uring_sqe) -> io_uring_sqe {
        io_uring_sqe {
            opcode: IORING_OP_UNLINKAT,
            fd: self.dirfd,
            off: 0,
            addr: self.path,
            len: 0,
            rw_flags: self.flags as i32,
            ..sqe
        }
    }

    fn prep(&self, sqe: &mut io_uring_sqe) {
        sqe.opcode = IORING_OP_UNLINKAT;
        sqe.fd = self.dirfd;
        sqe.off = 0;
        sqe.addr = self.path;
        sqe.len = 0;
        sqe.rw_flags = #[verifier::truncate] (self.flags as i32);
    }
}

/// The renaming of a file. Each path holds the bytes of a C string, the final NUL included.
pub struct RenameAt {
    pub olddirfd: i32,
    pub oldpath: u64,
    pub newdirfd: i32,
    pub newpath: u64,
    pub flags: u32,
}

impl RenameAt {
    #[must_use]
    pub fn new(
        olddirfd: i32,
        oldpath: &[u8],
        newdirfd: i32,
        newpath: &[u8],
        flags: u32,
    ) -> (op: Self)
        ensures
            op.oldpath != 0,
            op.newpath != 0,
            op.olddirfd == olddirfd,
            op.newdirfd == newdirfd,
            op.flags == flags,
    {
        Self {
            olddirfd,
            oldpath: slice_addr(oldpath),
            newdirfd,
            newpath: slice_addr(newpath),
            flags,
        }
    }

    pub fn set_flags(&mut self, flags: u32)
        ensures
            *final(self) == (RenameAt { flags, ..*old(self) }),
    {
        self.flags = flags;
    }
}

impl PrepSqe for RenameAt {
    open spec fn prepared(&self, sqe: io_uring_sqe) -> io_uring_sqe {
        io_uring_sqe {
            opcode: IORING_OP_RENAMEAT,
            fd: self.olddirfd,
            off: self.newpath,
            addr: self.oldpath,
            len: self.newdirfd as u32,
            rw_flags: self.flags as i32,
            ..sqe
        }
    }

    fn prep(&self, sqe: &mut io_uring_sqe) {
        sqe.opcode = IORING_OP_RENAMEAT;
        sqe.fd = self.olddirfd;
        sqe.off = self.newpath;
        sqe.addr = self.oldpath;
        sqe.len = #[verifier::truncate] (self.newdirfd as u32);
        sqe.rw_flags = #[verifier::truncate] (self.flags as i32);
    }
}

/// The making of a directory. `path` holds the bytes of a C string, the final NUL included.
pub struct MkdirAt {
    pub dirfd: i32,
    pub path: u64,
    pub mode: u32,
}

impl MkdirAt {
    #[must_use]
    pub fn new(dirfd: i32, path: &[u8], mode: u32) -> (op: Self)
        ensures
            op.path != 0,
            op.dirfd == dirfd,
            op.mode == mode,
    {
        Self { dirfd, path: slice_addr(path), mode }
    }
}

impl PrepSqe for MkdirAt {
    open spec fn prepared(&self, sqe: io_uring_sqe) -> io_uring_sqe {
        io_uring_sqe {
            opcode: IORING_OP_MKDIRAT,
            fd: self.dirfd,
            off: 0,
            addr: self.path,
            len: self.mode,
            ..sqe
        }
    }

    fn prep(&self, sqe: &mut io_uring_sqe) {
        sqe.opcode = IORING_OP_MKDIRAT;
        sqe.fd = self.dirfd;
        sqe.off = 0;
        sqe.addr = self.path;
        sqe.len = self.mode;
    }
}

/// The making of a symbolic link. Each path holds the bytes of a C string, the final NUL included.
pub struct SymlinkAt {
    pub target: u64,
    pub newdirfd: i32,
    pub linkpath: u64,
}

impl SymlinkAt {
    #[must_use]
    pub fn new(target: &[u8], newdirfd: i32, linkpath: &[u8]) -> (op: Self)
        ensures
            op.target != 0,
            op.linkpath != 0,
            op.newdirfd == newdirfd,
    {
        Self { target: slice_addr(target), newdirfd, linkpath: slice_addr(linkpath) }
    }
}

impl PrepSqe for SymlinkAt {
    open spec fn prepared(&self, sqe: io_uring_sqe) -> io_uring_sqe {
        io_uring_sqe {
            opcode: IORING_OP_SYMLINKAT,
            fd: self.newdirfd,
            off: self.linkpath,
            addr: self.target,
            len: 0,
            ..sqe
        }
    }

    fn prep(&self, sqe: &mut io_uring_sqe) {
        sqe.opcode = IORING_OP_SYMLINKAT;
        sqe.fd = self.newdirfd;
        sqe.off = self.linkpath;
        sqe.addr = self.target;
        sqe.len = 0;
    }
}

/// The making of a hard link. Each path holds the bytes of a C string, the final NUL included.
pub struct LinkAt {
    pub olddirfd: i32,
    pub oldpath: u64,
    pub newdirfd: i32,
    pub newpath: u64,
    pub flags: u32,
}

impl LinkAt {
    #[must_use]
    pub fn new(
        olddirfd: i32,
        oldpath: &[u8],
        newdirfd: i32,
        newpath: &[u8],
        flags: u32,
    ) -> (op: Self)
        ensures
            op.oldpath != 0,
            op.newpath != 0,
            op.olddirfd == olddirfd,
            op.newdirfd == newdirfd,
            op.flags == flags,
    {
        Self {
            olddirfd,
            oldpath: slice_addr(oldpath),
            newdirfd,
            newpath: slice_addr(newpath),
            flags,
        }
    }

    pub fn set_flags(&mut self, flags: u32)
        ensures
            *final(self) == (LinkAt { flags, ..*old(self) }),
    {
        self.flags = flags;
    }
}

impl PrepSqe for LinkAt {
    open spec fn prepared(&self, sqe: io_uring_sqe) -> io_uring_sqe {
        io_uring_sqe {
            opcode: IORING_OP_LINKAT,
            fd: self.olddirfd,
            off: self.newpath,
            addr: self.oldpath,
            len: self.newdirfd as u32,
            rw_flags: self.flags as i32,
            ..sqe
        }
    }

    fn prep(&self, sqe: &mut io_uring_sqe) {
        sqe.opcode = IORING_OP_LINKAT;
        sqe.fd = self.olddirfd;
        sqe.off = self.newpath;
        sqe.addr = self.oldpath;
        sqe.len = #[verifier::truncate] (self.newdirfd as u32);
        sqe.rw_flags = #[verifier::truncate] (self.flags as i32);
    }
}

/// A wait for events on a descriptor.
pub struct PollAdd {
    pub fd: i32,
    pub events: u16,
}

impl PollAdd {
    #[must_use]
    pub fn new(fd: i32, events: u16) -> (op: Self)
        ensures
            op == (PollAdd { fd, events }),
    {
        Self { fd, events }
    }
}

impl PrepSqe for PollAdd {
    open spec fn prepared(&self, sqe: io_uring_sqe) -> io_uring_sqe {
        io_uring_sqe {
            opcode: IORING_OP_POLL_ADD,
            fd: self.fd,
            addr: self.events as u64,
            ..sqe
        }
    }

    fn prep(&self, sqe: &mut io_uring_sqe) {
        sqe.opcode = IORING_OP_POLL_ADD;
        sqe.fd = self.fd;
        sqe.addr = self.events as u64;
    }
}

/// The removal of a wait, named by the tag of its entry.
pub struct PollRemove {
    pub user_data: u64,
}

impl PollRemove {
    #[must_use]
    pub fn new(user_data: u64) -> (op: Self)
        ensures
            op == (PollRemove { user_data }),
    {
        Self { user_data }
    }
}

impl PrepSqe for PollRemove {
    open spec fn prepared(&self, sqe: io_uring_sqe) -> io_uring_sqe {
        io_uring_sqe {
            opcode: IORING_OP_POLL_REMOVE,
            addr: self.user_data,
            ..sqe
        }
    }

    fn prep(&self, sqe: &mut io_uring_sqe) {
        sqe.opcode = IORING_OP_POLL_REMOVE;
        sqe.addr = self.user_data;
    }
}

/// A timeout: it completes when the time has passed or `count` completions have arrived.
pub struct Timeout {
    pub ts: u64,
    pub count: u32,
    pub flags: u32,
}

impl Timeout {
    /// A timeout whose time the kernel reads at the address of `ts`.
    #[must_use]
    pub fn new(ts: &Timespec, count: u32, flags: u32) -> (op: Self)
        ensures
            op.ts != 0,
            op.count == count,
            op.flags == flags,
    {
        Self { ts: ref_addr(ts), count, flags }
    }

    /// A timeout of the span that lies at the address of `ts`, counted from now: no
    /// count of completions ends it early, and no flag is set.
    #[must_use]
    pub fn relative(ts: &Timespec) -> (op: Self)
        ensures
            op.ts != 0,
            op.count == 0,
            op.flags == 0,
    {
        Self::new(ts, 0, 0)
    }

    #[must_use]
    pub fn absolute(ts: &Timespec) -> (op: Self)
        ensures
            op.ts != 0,
            op.count == 0,
            op.flags == IORING_TIMEOUT_ABS,
    {
        Self { ts: ref_addr(ts), count: 0, flags: IORING_TIMEOUT_ABS }
    }
}

impl PrepSqe for Timeout {
    open spec fn prepared(&self, sqe: io_uring_sqe) -> io_uring_sqe {
        io_uring_sqe {
            opcode: IORING_OP_TIMEOUT,
            addr: self.ts,
            len: self.count,
            rw_flags: self.flags as i32,
            ..sqe
        }
    }

    fn prep(&self, sqe: &mut io_uring_sqe) {
        sqe.opcode = IORING_OP_TIMEOUT;
        sqe.addr = self.ts;
        sqe.len = self.count;
        sqe.rw_flags = #[verifier::truncate] (self.flags as i32);
    }
}

/// The removal of a timeout, named by the tag of its entry.
pub struct TimeoutRemove {
    pub user_data: u64,
}

impl TimeoutRemove {
    #[must_use]
    pub fn new(user_data: u64) -> (op: Self)
        ensures
            op == (TimeoutRemove { user_data }),
    {
        Self { user_data }
    }
}

impl PrepSqe for TimeoutRemove {
    open spec fn prepared(&self, sqe: io_uring_sqe) -> io_uring_sqe {
        io_uring_sqe {
            opcode: IORING_OP_TIMEOUT_REMOVE,
            addr: self.user_data,
            ..sqe
        }
    }

    fn prep(&self, sqe: &mut io_uring_sqe) {
        sqe.opcode = IORING_OP_TIMEOUT_REMOVE;
        sqe.addr = self.user_data;
    }
}

/// A timeout on the operation that the entry is linked to.
pub struct LinkTimeout {
    pub ts: u64,
    pub flags: u32,
}

impl LinkTimeout {
    #[must_use]
    pub fn new(ts: &Timespec, flags: u32) -> (op: Self)
        ensures
            op.ts != 0,
            op.flags == flags,
    {
        Self { ts: ref_addr(ts), flags }
    }
}

impl PrepSqe for LinkTimeout {
    open spec fn prepared(&self, sqe: io_uring_sqe) -> io_uring_sqe {
        io_uring_sqe {
            opcode: IORING_OP_LINK_TIMEOUT,
            addr: self.ts,
            rw_flags: self.flags as i32,
            ..sqe
        }
    }

    fn prep(&self, sqe: &mut io_uring_sqe) {
        sqe.opcode = IORING_OP_LINK_TIMEOUT;
        sqe.addr = self.ts;
        sqe.rw_flags = #[verifier::truncate] (self.flags as i32);
    }
}

/// A send from a buffer on a socket.
pub struct Send {
    pub fd: i32,
    pub buf: u64,
    pub len: u32,
    pub flags: i32,
}

impl Send {
    #[must_use]
    pub fn new(fd: i32, buf: &[u8], flags: i32) -> (op: Self)
        ensures
            op.buf != 0,
            op.fd == fd,
            op.len == buf@.len() as u32,
            op.flags == flags,
    {
        Self { fd, buf: slice_addr(buf), len: #[verifier::truncate] (buf.len() as u32), flags }
    }
}

impl PrepSqe for Send {
    open spec fn prepared(&self, sqe: io_uring_sqe) -> io_uring_sqe {
        io_uring_sqe {
            opcode: IORING_OP_SEND,
            fd: self.fd,
            addr: self.buf,
            len: self.len,
            rw_flags: self.flags,
            ..sqe
        }
    }

    fn prep(&self, sqe: &mut io_uring_sqe) {
        sqe.opcode = IORING_OP_SEND;
        sqe.fd = self.fd;
        sqe.addr = self.buf;
        sqe.len = self.len;
        sqe.rw_flags = self.flags;
    }
}

/// A receive into a buffer from a socket.
pub struct Recv {
    pub fd: i32,
    pub buf: u64,
    pub len: u32,
    pub flags: i32,
}

impl Recv {
    #[must_use]
    pub fn new(fd: i32, buf: &mut [u8], flags: i32) -> (op: Self)
        ensures
            op.buf != 0,
            op.fd == fd,
            op.len == old(buf)@.len() as u32,
            op.flags == flags,
    {
        Self { fd, buf: slice_addr(buf), len: #[verifier::truncate] (buf.len() as u32), flags }
    }
}

impl PrepSqeMut for Recv {
    open spec fn prepared(&self, sqe: io_uring_sqe) -> io_uring_sqe {
        io_uring_sqe {
            opcode: IORING_OP_RECV,
            fd: self.fd,
            addr: self.buf,
            len: self.len,
            rw_flags: self.flags,
            ..sqe
        }
    }

    fn prep(&mut self, sqe: &mut io_uring_sqe)
        ensures
            *final(self) == *old(self),
    {
        sqe.opcode = IORING_OP_RECV;
        sqe.fd = self.fd;
        sqe.addr = self.buf;
        sqe.len = self.len;
        sqe.rw_flags = self.flags;
    }
}

/// A send of a message that a header describes.
pub struct SendMsg {
    pub fd: i32,
    pub msg: u64,
    pub flags: i32,
}

impl SendMsg {
    #[must_use]
    pub fn new(fd: i32, msg: &MsgHdr, flags: i32) -> (op: Self)
        ensures
            op.msg != 0,
            op.fd == fd,
            op.flags == flags,
    {
        Self { fd, msg: ref_addr(msg), flags }
    }
}

impl PrepSqe for SendMsg {
    open spec fn prepared(&self, sqe: io_uring_sqe) -> io_uring_sqe {
        io_uring_sqe {
            opcode: IORING_OP_SENDMSG,
            fd: self.fd,
            addr: self.msg,
            len: 1,
            rw_flags: self.flags,
            ..sqe
        }
    }

    fn prep(&self, sqe: &mut io_uring_sqe) {
        sqe.opcode = IORING_OP_SENDMSG;
        sqe.fd = self.fd;
        sqe.addr = self.msg;
        sqe.len = 1;
        sqe.rw_flags = self.flags;
    }
}

/// A receive of a message into what a header describes.
pub struct RecvMsg {
    pub fd: i32,
    pub msg: u64,
    pub flags: i32,
}

impl RecvMsg {
    #[must_use]
    pub fn new(fd: i32, msg: &mut MsgHdr, flags: i32) -> (op: Self)
        ensures
            op.msg != 0,
            op.fd == fd,
            op.flags == flags,
    {
        Self { fd, msg: ref_addr(msg), flags }
    }
}

impl PrepSqeMut for RecvMsg {
    open spec fn prepared(&self, sqe: io_uring_sqe) -> io_uring_sqe {
        io_uring_sqe {
            opcode: IORING_OP_RECVMSG,
            fd: self.fd,
            addr: self.msg,
            len: 1,
            rw_flags: self.flags,
            ..sqe
        }
    }

    fn prep(&mut self, sqe: &mut io_uring_sqe)
        ensures
            *final(self) == *old(self),
    {
        sqe.opcode = IORING_OP_RECVMSG;
        sqe.fd = self.fd;
        sqe.addr = self.msg;
        sqe.len = 1;
        sqe.rw_flags = self.flags;
    }
}

/// The accepting of a connection. Where the peer's address is wanted, `addr` is where
/// the kernel may write it and `addrlen` the length that the caller has set for it.
pub struct Accept {
    pub fd: i32,
    pub addr: Option<u64>,
    pub addrlen: Option<u32>,
    pub flags: i32,
    pub file_index: u32,
}

impl Accept {
    #[must_use]
    pub fn new(fd: i32, flags: i32) -> (op: Self)
        ensures
            op == (Accept { fd, addr: None, addrlen: None, flags, file_index: 0 }),
    {
        Self { fd, addr: None, addrlen: None, flags, file_index: 0 }
    }

    #[must_use]
    pub fn with_addr(fd: i32, addr: &mut [u8], addrlen: &mut u32, flags: i32) -> (op: Self)
        ensures
            op.addr matches Some(at) && at != 0,
            op == (Accept {
                fd,
                addr: op.addr,
                addrlen: Some(*old(addrlen)),
                flags,
                file_index: 0,
            }),
            *final(addrlen) == *old(addrlen),
    {
        Self { fd, addr: Some(slice_addr(addr)), addrlen: Some(*addrlen), flags, file_index: 0 }
    }

    #[must_use]
    pub fn with_file_index(fd: i32, file_index: u32, flags: i32) -> (op: Self)
        ensures
            op == (Accept { fd, addr: None, addrlen: None, flags, file_index }),
    {
        Self { fd, addr: None, addrlen: None, flags, file_index }
    }

    #[must_use]
    pub fn with_addr_and_file_index(
        fd: i32,
        addr: &mut [u8],
        addrlen: &mut u32,
        file_index: u32,
        flags: i32,
    ) -> (op: Self)
        ensures
            op.addr matches Some(at) && at != 0,
            op == (Accept { fd, addr: op.addr, addrlen: Some(*old(addrlen)), flags, file_index }),
            *final(addrlen) == *old(addrlen),
    {
        Self { fd, addr: Some(slice_addr(addr)), addrlen: Some(*addrlen), flags, file_index }
    }

    /// The address and the length that go into the entry: those that were given, or
    /// zeros where one of them is missing.
    pub open spec fn peer(&self) -> (u64, u64) {
        match (self.addr, self.addrlen) {
            (Some(addr), Some(addrlen)) => (addr, addrlen as u64),
            _ => (0, 0),
        }
    }
}

impl PrepSqeMut for Accept {
    open spec fn prepared(&self, sqe: io_uring_sqe) -> io_uring_sqe {
        io_uring_sqe {
            opcode: IORING_OP_ACCEPT,
            fd: self.fd,
            addr: self.peer().0,
            off: self.peer().1,
            len: 0,
            rw_flags: self.flags,
            splice_fd_in: self.file_index as i32,
            ..sqe
        }
    }

    fn prep(&mut self, sqe: &mut io_uring_sqe)
        ensures
            *final(self) == *old(self),
    {
        sqe.opcode = IORING_OP_ACCEPT;
        sqe.fd = self.fd;

        match (self.addr, self.addrlen) {
            (Some(addr), Some(addrlen)) => {
                sqe.addr = addr;
                sqe.off = addrlen as u64;
            },
            _ => {
                sqe.addr = 0;
                sqe.off = 0;
            },
        }

        sqe.len = 0;
        sqe.rw_flags = self.flags;
        sqe.splice_fd_in = #[verifier::truncate] (self.file_index as i32);
    }
}

/// A connect of a socket to the address that `addr` holds.
pub struct Connect {
    pub fd: i32,
    pub addr: u64,
    pub addrlen: u32,
}

impl Connect {
    #[must_use]
    pub fn new(fd: i32, addr: &[u8], addrlen: u32) -> (op: Self)
        ensures
            op.addr != 0,
            op.fd == fd,
            op.addrlen == addrlen,
    {
        Self { fd, addr: slice_addr(addr), addrlen }
    }
}

impl PrepSqe for Connect {
    open spec fn prepared(&self, sqe: io_uring_sqe) -> io_uring_sqe {
        io_uring_sqe {
            opcode: IORING_OP_CONNECT,
            fd: self.fd,
            addr: self.addr,
            len: self.addrlen,
            ..sqe
        }
    }

    fn prep(&self, sqe: &mut io_uring_sqe) {
        sqe.opcode = IORING_OP_CONNECT;
        sqe.fd = self.fd;
        sqe.addr = self.addr;
        sqe.len = self.addrlen;
    }
}

/// The shutting down of one or both directions of a socket.
pub struct Shutdown {
    pub fd: i32,
    pub how: i32,
}

impl Shutdown {
    #[must_use]
    pub fn new(fd: i32, how: i32) -> (op: Self)
        ensures
            op == (Shutdown { fd, how }),
    {
        Self { fd, how }
    }
}

impl PrepSqe for Shutdown {
    open spec fn prepared(&self, sqe: io_uring_sqe) -> io_uring_sqe {
        io_uring_sqe {
            opcode: IORING_OP_SHUTDOWN,
            fd: self.fd,
            len: 0,
            rw_flags: self.how,
            ..sqe
        }
    }

    fn prep(&self, sqe: &mut io_uring_sqe) {
        sqe.opcode = IORING_OP_SHUTDOWN;
        sqe.fd = self.fd;
        sqe.len = 0;
        sqe.rw_flags = self.how;
    }
}

/// A move of bytes from one descriptor to another.
pub struct Splice {
    pub fd_in: i32,
    pub off_in: u64,
    pub fd_out: i32,
    pub off_out: u64,
    pub len: u32,
    pub flags: u32,
}

impl Splice {
    #[must_use]
    pub fn new(
        fd_in: i32,
        off_in: u64,
        fd_out: i32,
        off_out: u64,
        len: u32,
        flags: u32,
    ) -> (op: Self)
        ensures
            op == (Splice { fd_in, off_in, fd_out, off_out, len, flags }),
    {
        Self { fd_in, off_in, fd_out, off_out, len, flags }
    }
}

impl PrepSqe for Splice {
    open spec fn prepared(&self, sqe: io_uring_sqe) -> io_uring_sqe {
        io_uring_sqe {
            opcode: IORING_OP_SPLICE,
            fd: self.fd_out,
            off: self.off_out,
            len: self.len,
            splice_fd_in: self.fd_in,
            addr3: self.off_in,
            rw_flags: self.flags as i32,
            ..sqe
        }
    }

    fn prep(&self, sqe: &mut io_uring_sqe) {
        sqe.opcode = IORING_OP_SPLICE;
        sqe.fd = self.fd_out;
        sqe.off = self.off_out;
        sqe.len = self.len;
        sqe.splice_fd_in = self.fd_in;
        sqe.addr3 = self.off_in;
        sqe.rw_flags = #[verifier::truncate] (self.flags as i32);
    }
}

/// A copy of bytes from one pipe to another.
pub struct Tee {
    pub fd_in: i32,
    pub fd_out: i32,
    pub len: u32,
    pub flags: u32,
}

impl Tee {
    #[must_use]
    pub fn new(fd_in: i32, fd_out: i32, len: u32, flags: u32) -> (op: Self)
        ensures
            op == (Tee { fd_in, fd_out, len, flags }),
    {
        Self { fd_in, fd_out, len, flags }
    }
}

impl PrepSqe for Tee {
    open spec fn prepared(&self, sqe: io_uring_sqe) -> io_uring_sqe {
        io_uring_sqe {
            opcode: IORING_OP_TEE,
            fd: self.fd_out,
            off: 0,
            len: self.len,
            splice_fd_in: self.fd_in,
            addr3: 0,
            rw_flags: self.flags as i32,
            ..sqe
        }
    }

    fn prep(&self, sqe: &mut io_uring_sqe) {
        sqe.opcode = IORING_OP_TEE;
        sqe.fd = self.fd_out;
        sqe.off = 0;
        sqe.len = self.len;
        sqe.splice_fd_in = self.fd_in;
        sqe.addr3 = 0;
        sqe.rw_flags = #[verifier::truncate] (self.flags as i32);
    }
}

/// The release of every buffer of a group.
pub struct FreeBuffers {
    pub bgid: u16,
}

impl FreeBuffers {
    #[must_use]
    pub fn new(bgid: u16) -> (op: Self)
        ensures
            op == (FreeBuffers { bgid }),
    {
        Self { bgid }
    }
}

impl PrepSqe for FreeBuffers {
    open spec fn prepared(&self, sqe: io_uring_sqe) -> io_uring_sqe {
        io_uring_sqe {
            opcode: IORING_OP_REMOVE_BUFFERS,
            addr: self.bgid as u64,
            len: 0,
            ..sqe
        }
    }

    fn prep(&self, sqe: &mut io_uring_sqe) {
        sqe.opcode = IORING_OP_REMOVE_BUFFERS;
        sqe.addr = self.bgid as u64;
        sqe.len = 0;
    }
}

/// The handing of buffers, laid out one after another from an address, to a group.
pub struct ProvideBuffers {
    pub addr: u64,
    pub len: u32,
    pub bgid: u16,
    pub bid: u16,
    pub nbufs: u32,
}

impl ProvideBuffers {
    #[must_use]
    pub fn new(addr: u64, len: u32, bgid: u16, bid: u16, nbufs: u32) -> (op: Self)
        ensures
            op == (ProvideBuffers { addr, len, bgid, bid, nbufs }),
    {
        Self { addr, len, bgid, bid, nbufs }
    }
}

impl PrepSqe for ProvideBuffers {
    open spec fn prepared(&self, sqe: io_uring_sqe) -> io_uring_sqe {
        io_uring_sqe {
            opcode: IORING_OP_PROVIDE_BUFFERS,
            addr: self.addr,
            len: self.len,
            off: ((self.bgid as u64) << 32) | (self.bid as u64),
            buf_index: self.nbufs as u16,
            ..sqe
        }
    }

    fn prep(&self, sqe: &mut io_uring_sqe) {
        sqe.opcode = IORING_OP_PROVIDE_BUFFERS;
        sqe.addr = self.addr;
        sqe.len = self.len;
        sqe.off = ((self.bgid as u64) << 32) | (self.bid as u64);
        sqe.buf_index = #[verifier::truncate] (self.nbufs as u16);
    }
}

/// The release of `nr` buffers of a group.
pub struct RemoveBuffers {
    pub bgid: u16,
    pub nr: u32,
}

impl RemoveBuffers {
    #[must_use]
    pub fn new(bgid: u16, nr: u32) -> (op: Self)
        ensures
            op == (RemoveBuffers { bgid, nr }),
    {
        Self { bgid, nr }
    }
}

impl PrepSqe for RemoveBuffers {
    open spec fn prepared(&self, sqe: io_uring_sqe) -> io_uring_sqe {
        io_uring_sqe {
            opcode: IORING_OP_REMOVE_BUFFERS,
            addr: self.bgid as u64,
            len: self.nr,
            ..sqe
        }
    }

    fn prep(&self, sqe: &mut io_uring_sqe) {
        sqe.opcode = IORING_OP_REMOVE_BUFFERS;
        sqe.addr = self.bgid as u64;
        sqe.len = self.nr;
    }
}

/// A request to cancel operations: the one with a given tag, or those that the flags name.
pub struct AsyncCancel {
    pub user_data: u64,
    pub flags: u32,
}

impl AsyncCancel {
    #[must_use]
    pub fn new(user_data: u64, flags: u32) -> (op: Self)
        ensures
            op == (AsyncCancel { user_data, flags }),
    {
        Self { user_data, flags }
    }

    #[must_use]
    pub fn all() -> (op: Self)
        ensures
            op == (AsyncCancel { user_data: 0, flags: IORING_ASYNC_CANCEL_ALL }),
    {
        Self { user_data: 0, flags: IORING_ASYNC_CANCEL_ALL }
    }

    #[must_use]
    pub fn any() -> (op: Self)
        ensures
            op == (AsyncCancel { user_data: 0, flags: IORING_ASYNC_CANCEL_ANY }),
    {
        Self { user_data: 0, flags: IORING_ASYNC_CANCEL_ANY }
    }
}

impl PrepSqe for AsyncCancel {
    open spec fn prepared(&self, sqe: io_uring_sqe) -> io_uring_sqe {
        io_uring_sqe {
            opcode: IORING_OP_ASYNC_CANCEL,
            addr: self.user_data,
            len: self.flags,
            ..sqe
        }
    }

    fn prep(&self, sqe: &mut io_uring_sqe) {
        sqe.opcode = IORING_OP_ASYNC_CANCEL;
        sqe.addr = self.user_data;
        sqe.len = self.flags;
    }
}

/// A message to another ring: it completes there with the given tag and length.
pub struct MsgRing {
    pub fd: i32,
    pub user_data: u64,
    pub flags: u32,
    pub len: u32,
}

impl MsgRing {
    #[must_use]
    pub fn new(fd: i32, user_data: u64, flags: u32, len: u32) -> (op: Self)
        ensures
            op == (MsgRing { fd, user_data, flags, len }),
    {
        Self { fd, user_data, flags, len }
    }
}

impl PrepSqe for MsgRing {
    open spec fn prepared(&self, sqe: io_uring_sqe) -> io_uring_sqe {
        io_uring_sqe {
            opcode: IORING_OP_MSG_RING,
            fd: self.fd,
            addr: self.user_data,
            len: self.len,
            rw_flags: self.flags as i32,
            ..sqe
        }
    }

    fn prep(&self, sqe: &mut io_uring_sqe) {
        sqe.opcode = IORING_OP_MSG_RING;
        sqe.fd = self.fd;
        sqe.addr = self.user_data;
        sqe.len = self.len;
        sqe.rw_flags = #[verifier::truncate] (self.flags as i32);
    }
}

} // verus!

//! The engine: one submission ring, one completion ring, and the bookkeeping around
//! them.
//!
//! The engine makes no system call. Where the kernel has to be entered or a resource
//! registered, it hands out the call to make, as plain values, and takes the outcome
//! back: `submit` publishes and says what to enter with, `finish_submit` takes what the
//! kernel answered.
//!
//! The completion head is published at the start of every cycle that looks at the
//! rings: `submit`, `submit_and_wait`, `peek_cqe` and `copy_cqes`. Entries marked as
//! seen go back to the kernel at the next of these.

use crate::cq::{CompletionQueue, CqView};
use crate::err::{EnterError, InitError};
use crate::mmap::{MmapView, RwMmap};
use crate::params::io_uring_params;
use crate::ring::lemma_mask_is_slot;
use crate::sq::{SqView, SubmissionQueue};
use crate::sqe::{
    ref_addr,
    slice_addr,
    Accept,
    AsyncCancel,
    Close,
    CloseDirect,
    Connect,
    Fadvise,
    Fallocate,
    FreeBuffers,
    Iovec,
    LinkAt,
    LinkTimeout,
    Madvise,
    MkdirAt,
    MsgHdr,
    MsgRing,
    Nop,
    OpenAt,
    PollAdd,
    PollRemove,
    ProvideBuffers,
    Read,
    ReadFixed,
    Recv,
    RecvMsg,
    RemoveBuffers,
    RenameAt,
    Send,
    SendMsg,
    Shutdown,
    Splice,
    Statx,
    SymlinkAt,
    Tee,
    Timeout,
    TimeoutRemove,
    UnlinkAt,
    Write,
    WriteFixed,
};
use crate::{
    io_uring_cqe,
    io_uring_sqe,
    PrepSqe,
    PrepSqeMut,
    Timespec,
    AT_FDCWD,
    IORING_ASYNC_CANCEL_ALL,
    IORING_ASYNC_CANCEL_ANY,
    IORING_CQE_F_MORE,
    IORING_ENTER_GETEVENTS,
    IORING_TIMEOUT_ABS,
    SOCK_CLOEXEC,
    IOSQE_ASYNC,
    IOSQE_IO_DRAIN,
    IOSQE_IO_HARDLINK,
    IOSQE_IO_LINK,
};
use rustix::io::Errno;
use rustix::io_uring::{sigset_t, IoringEnterFlags, IoringOpFlags};
use vstd::prelude::*;

verus! {

/// The most operations that a probe reports on.
pub const PROBE_OPS: usize = 128;

/// The bit by which a probe marks an operation as supported.
pub const IO_URING_OP_SUPPORTED: u16 = 0x1;

/// The smallest capacity that is asked of the kernel.
pub const MIN_ENTRIES: u32 = 1;

/// The largest capacity that is asked of the kernel.
pub const MAX_ENTRIES: u32 = 4096;

/// `rustix::io_uring::IoringEnterFlags::from_bits`, with the flags read back as a
/// number. The type declares every bit as known, so every word is accepted as it is.
#[verifier::external_body]
fn enter_flags_from_bits(flags: u32) -> (bits: Option<u32>)
    ensures
        bits == Some(flags),
{
    IoringEnterFlags::from_bits(flags).map(|f| f.bits())
}

/// `rustix::io_uring::IoringOpFlags::contains`, asked of a flags word for the flag
/// `SUPPORTED`: whether the word has the bit `IO_URING_OP_SUPPORTED`.
#[verifier::external_body]
fn op_flags_supported(flags: u16) -> (supported: bool)
    ensures
        supported == (flags & IO_URING_OP_SUPPORTED == IO_URING_OP_SUPPORTED),
{
    IoringOpFlags::from_bits_retain(flags).contains(IoringOpFlags::SUPPORTED)
}

/// What a probe says of one operation.
#[derive(Debug, Copy, Clone)]
pub struct ProbeOp {
    pub op: u8,
    pub flags: u16,
}

/// The kernel's answer to a probe: the operations it knows, and which it supports.
#[derive(Debug)]
pub struct Probe {
    /// The highest operation code that the kernel knows.
    pub last_op: u8,
    /// The number of operations that the kernel reported on.
    pub ops_len: u8,
    /// What it reported, one record per operation.
    pub ops: Vec<ProbeOp>,
}

impl Probe {
    /// The number of records that count: those the kernel filled, as far as there is
    /// room for them.
    pub open spec fn reported(&self) -> int {
        if self.ops_len as int <= self.ops@.len() {
            self.ops_len as int
        } else {
            self.ops@.len() as int
        }
    }

    /// Whether a record that counts names `opcode` and marks it as supported.
    pub open spec fn supports(&self, opcode: u8) -> bool {
        exists|i: int|
            0 <= i < self.reported() && (#[trigger] self.ops@[i]).op == opcode && self.ops@[i].flags
                & IO_URING_OP_SUPPORTED == IO_URING_OP_SUPPORTED
    }

    /// A probe to be filled: room for `PROBE_OPS` records, none reported yet.
    #[must_use]
    pub fn new() -> (probe: Self)
        ensures
            probe.last_op == 0,
            probe.ops_len == 0,
            probe.ops@ == Seq::new(PROBE_OPS as nat, |i: int| ProbeOp { op: 0, flags: 0 }),
    {
        let mut ops: Vec<ProbeOp> = Vec::new();
        let mut i: usize = 0;
        while i < PROBE_OPS
            invariant
                i <= PROBE_OPS,
                ops@ =~= Seq::new(i as nat, |k: int| ProbeOp { op: 0, flags: 0 }),
            decreases PROBE_OPS - i,
        {
            ops.push(ProbeOp { op: 0, flags: 0 });
            i += 1;
        }
        Self { last_op: 0, ops_len: 0, ops }
    }

    fn ops_len(&self) -> (n: usize)
        ensures
            n == self.reported(),
    {
        let filled = self.ops_len as usize;
        if filled <= self.ops.len() {
            filled
        } else {
            self.ops.len()
        }
    }

    #[must_use]
    pub fn opcode_supported(&self, opcode: u8) -> (supported: bool)
        ensures
            supported == self.supports(opcode),
    {
        let n = self.ops_len();
        let mut i: usize = 0;
        while i < n
            invariant
                n == self.reported(),
                i <= n,
                forall|k: int|
                    0 <= k < i ==> !((#[trigger] self.ops@[k]).op == opcode && self.ops@[k].flags
                        & IO_URING_OP_SUPPORTED == IO_URING_OP_SUPPORTED),
            decreases n - i,
        {
            let op = &self.ops[i];
            if op.op == opcode && op_flags_supported(op.flags) {
                return true;
            }
            i += 1;
        }
        false
    }
}

/// The kinds of registration.
#[derive(Debug, Copy, Clone, PartialEq, Eq, Structural)]
pub enum RegisterOp {
    RegisterBuffers,
    UnregisterBuffers,
    RegisterFiles,
    UnregisterFiles,
    RegisterFilesUpdate,
    RegisterEventfd,
    UnregisterEventfd,
    RegisterEventfdAsync,
    RegisterProbe,
}

/// An update of registered files: from which index on, and where the descriptors lie.
#[derive(Debug, Copy, Clone, PartialEq, Eq, Structural)]
pub struct io_uring_files_update {
    pub offset: u32,
    pub resv: u32,
    pub fds: u64,
}

/// What a registration hands the kernel a pointer to.
#[derive(Debug, Copy, Clone, PartialEq, Eq, Structural)]
pub enum RegisterArg {
    /// Nothing: a null pointer.
    Null,
    /// The array that the caller handed in, at the given address.
    Array(u64),
    /// A record that describes an update of registered files.
    FilesUpdate(io_uring_files_update),
    /// One descriptor.
    Fd(i32),
    /// A probe for the kernel to fill.
    Probe,
}

/// A call of the kernel's register entry point, as plain values.
#[derive(Debug, Copy, Clone, PartialEq, Eq, Structural)]
pub struct RegisterCall {
    pub opcode: RegisterOp,
    pub arg: RegisterArg,
    pub nr_args: u32,
}

/// A call of the kernel's enter entry point, as plain values.
#[derive(Debug, Copy, Clone, PartialEq, Eq, Structural)]
pub struct EnterCall {
    pub to_submit: u32,
    pub min_complete: u32,
    pub flags: u32,
    /// Where the signal mask lies, or zero where there is none.
    pub sigmask: u64,
    /// The size of the signal mask in bytes, or zero where there is none.
    pub sigmask_size: usize,
}

/// The engine: the kernel's descriptor, the three mappings, the two rings, and the
/// allocator of correlation tags.
pub struct IoUring {
    fd: i32,
    sq_mmap: RwMmap,
    cq_mmap: RwMmap,
    sqe_mmap: RwMmap,
    sq: SubmissionQueue,
    cq: CompletionQueue,
    next_user_data: u64,
    free_user_data: Vec<u64>,
}

/// What an engine is, as plain values.
pub struct IoUringView {
    /// The kernel's descriptor of the ring pair.
    pub fd: i32,
    /// The mapping of the submission ring's cells and index array.
    pub sq_mmap: MmapView,
    /// The mapping of the completion ring's cells and entries.
    pub cq_mmap: MmapView,
    /// The mapping of the submission entries.
    pub sqe_mmap: MmapView,
    pub sq: SqView,
    pub cq: CqView,
    /// The tag that is handed out next where no freed tag waits.
    pub next_user_data: u64,
    /// The freed tags, last freed last.
    pub free_user_data: Seq<u64>,
}

impl IoUringView {
    /// The engine after a slot was handed out and its entry ended up as `sqe`.
    pub open spec fn with_acquired(self, sqe: io_uring_sqe) -> IoUringView {
        IoUringView { sq: self.sq.acquired().with_entry(self.sq.next_slot(), sqe), ..self }
    }

    /// The engine after the submission tail and the completion head were published.
    pub open spec fn published(self) -> IoUringView {
        IoUringView { sq: self.sq.published(), cq: self.cq.published(), ..self }
    }

    /// The engine after both rings took over what the kernel wrote.
    pub open spec fn refreshed(self) -> IoUringView {
        IoUringView { sq: self.sq.refreshed(), cq: self.cq.refreshed(), ..self }
    }

    /// The engine after it looked for completions: head published, tail taken over.
    pub open spec fn harvested(self) -> IoUringView {
        IoUringView { cq: self.cq.published().refreshed(), ..self }
    }

    /// The tag that an allocation hands out.
    pub open spec fn allocated_tag(self) -> u64 {
        if self.free_user_data.len() > 0 {
            self.free_user_data.last()
        } else if self.next_user_data == 0 {
            1
        } else {
            self.next_user_data
        }
    }

    /// The engine after an allocation of a tag: a freed tag is taken where one waits;
    /// else the counter moves on, past zero where it wrapped.
    pub open spec fn after_alloc(self) -> IoUringView {
        if self.free_user_data.len() > 0 {
            IoUringView { free_user_data: self.free_user_data.drop_last(), ..self }
        } else if self.next_user_data == 0 {
            IoUringView { next_user_data: 2, ..self }
        } else {
            IoUringView { next_user_data: self.next_user_data.wrapping_add(1), ..self }
        }
    }
}

/// The capacity that is asked of the kernel for a request of `entries`.
pub open spec fn clamped_entries(entries: u32) -> u32 {
    if entries < MIN_ENTRIES {
        MIN_ENTRIES
    } else if entries > MAX_ENTRIES {
        MAX_ENTRIES
    } else {
        entries
    }
}

/// What the caller gets for an outcome of the enter call: the number of entries that
/// the kernel accepted, or the error.
pub open spec fn entered(outcome: Result<u32, Errno>) -> Result<usize, EnterError> {
    match outcome {
        Ok(submitted) => Ok(submitted as usize),
        Err(e) => Err(EnterError::SyscallFailed(e)),
    }
}

/// What the caller gets for an outcome of the setup call.
pub open spec fn set_up(outcome: Result<i32, Errno>) -> Result<i32, InitError> {
    match outcome {
        Ok(fd) => Ok(fd),
        Err(e) => Err(InitError::SyscallFailed(e)),
    }
}

/// Whether an engine can be built: the descriptor is one, the geometry is consistent,
/// and each mapping is writable and of the size that the geometry gives.
pub open spec fn buildable(
    fd: i32,
    params: io_uring_params,
    sq_mmap: MmapView,
    cq_mmap: MmapView,
    sqe_mmap: MmapView,
) -> bool {
    &&& fd >= 0
    &&& params.consistent()
    &&& sq_mmap.size == params.sq_ring_size() && sq_mmap.writable
    &&& cq_mmap.size == params.cq_ring_size() && cq_mmap.writable
    &&& sqe_mmap.size == params.sqes_size() && sqe_mmap.writable
}

/// What the caller gets for an outcome of the register call.
pub open spec fn registered(outcome: Result<u32, Errno>) -> Result<u32, InitError> {
    match outcome {
        Ok(n) => Ok(n),
        Err(e) => Err(InitError::RegisterFailed(e)),
    }
}

/// The registration of an array of `len` items: refused where the array is empty or
/// its length does not fit the call's 32-bit count.
pub open spec fn array_registration(op: RegisterOp, arg: RegisterArg, len: nat) -> Result<
    RegisterCall,
    InitError,
> {
    if 0 < len <= u32::MAX {
        Ok(RegisterCall { opcode: op, arg, nr_args: len as u32 })
    } else {
        Err(InitError::InvalidParameters)
    }
}

fn clamp_entries(entries: u32) -> (clamped: u32)
    ensures
        clamped == clamped_entries(entries),
{
    if entries < MIN_ENTRIES {
        MIN_ENTRIES
    } else if entries > MAX_ENTRIES {
        MAX_ENTRIES
    } else {
        entries
    }
}

fn array_call(op: RegisterOp, arg: RegisterArg, len: usize) -> (r: Result<RegisterCall, InitError>)
    ensures
        r == array_registration(op, arg, len as nat),
{
    if len == 0 {
        return Err(InitError::InvalidParameters);
    }
    if len > u32::MAX as usize {
        return Err(InitError::InvalidParameters);
    }
    Ok(RegisterCall { opcode: op, arg, nr_args: len as u32 })
}

impl View for IoUring {
    type V = IoUringView;

    closed spec fn view(&self) -> IoUringView {
        IoUringView {
            fd: self.fd,
            sq_mmap: self.sq_mmap@,
            cq_mmap: self.cq_mmap@,
            sqe_mmap: self.sqe_mmap@,
            sq: self.sq@,
            cq: self.cq@,
            next_user_data: self.next_user_data,
            free_user_data: self.free_user_data@,
        }
    }
}

impl IoUring {
    /// The setup request for a ring pair of `entries` slots each, the capacity brought
    /// into the valid range.
    #[must_use]
    pub fn setup_params(entries: u32) -> (params: io_uring_params)
        ensures
            params == (io_uring_params {
                sq_entries: clamped_entries(entries),
                cq_entries: clamped_entries(entries),
                ..io_uring_params::zeroed()
            }),
    {
        let mut params = io_uring_params::default();

        let sq_entries = clamp_entries(entries);
        let cq_entries = sq_entries;

        params.sq_entries = sq_entries;
        params.cq_entries = cq_entries;
        params
    }

    /// The setup request for rings of `sq_entries` and `cq_entries` slots, each
    /// capacity brought into the valid range.
    #[must_use]
    pub fn setup_params_with_entries(sq_entries: u32, cq_entries: u32) -> (params:
        io_uring_params)
        ensures
            params == (io_uring_params {
                sq_entries: clamped_entries(sq_entries),
                cq_entries: clamped_entries(cq_entries),
                ..io_uring_params::zeroed()
            }),
    {
        let mut params = io_uring_params::default();

        params.sq_entries = clamp_entries(sq_entries);
        params.cq_entries = clamp_entries(cq_entries);
        params
    }

    /// What the caller gets for an outcome of the setup call: the descriptor, or the
    /// error.
    pub fn setup_result(outcome: Result<i32, Errno>) -> (r: Result<i32, InitError>)
        ensures
            r == set_up(outcome),
    {
        match outcome {
            Ok(fd) => Ok(fd),
            Err(e) => Err(InitError::SyscallFailed(e)),
        }
    }

    /// Builds the engine for the descriptor `fd`, on the geometry that the kernel
    /// answered and on the three mappings that were made for it. The geometry is
    /// checked first; each mapping has to be writable and of the size that the
    /// geometry gives.
    pub fn create_ring(
        fd: i32,
        params: &io_uring_params,
        sq_mmap: RwMmap,
        cq_mmap: RwMmap,
        sqe_mmap: RwMmap,
    ) -> (r: Result<Self, InitError>)
        ensures
            r.is_ok() <==> buildable(fd, *params, sq_mmap@, cq_mmap@, sqe_mmap@),
            r matches Ok(ring) ==> ring@ == (IoUringView {
                fd,
                sq_mmap: sq_mmap@,
                cq_mmap: cq_mmap@,
                sqe_mmap: sqe_mmap@,
                sq: SqView::fresh(params.sq_entries),
                cq: CqView::fresh(params.cq_entries),
                next_user_data: 1,
                free_user_data: Seq::empty(),
            }) && ring@.sq.wf() && ring@.cq.wf(),
            r matches Err(e) ==> e == InitError::InvalidParameters,
    {
        if fd < 0 {
            return Err(InitError::InvalidParameters);
        }
        let sizes = match params.layout() {
            Ok(sizes) => sizes,
            Err(e) => {
                return Err(e);
            },
        };
        if sq_mmap.size() != sizes.sq_ring || cq_mmap.size() != sizes.cq_ring || sqe_mmap.size()
            != sizes.sqes {
            return Err(InitError::InvalidParameters);
        }
        if !sq_mmap.is_writable() || !cq_mmap.is_writable() || !sqe_mmap.is_writable() {
            return Err(InitError::InvalidParameters);
        }
        let sq = match SubmissionQueue::new(params.sq_entries) {
            Ok(sq) => sq,
            Err(e) => {
                return Err(e);
            },
        };
        let cq = match CompletionQueue::new(params.cq_entries) {
            Ok(cq) => cq,
            Err(e) => {
                return Err(e);
            },
        };
        let ring = Self {
            fd,
            sq_mmap,
            cq_mmap,
            sqe_mmap,
            sq,
            cq,
            next_user_data: 1,
            free_user_data: Vec::new(),
        };
        assert(ring@.free_user_data =~= Seq::<u64>::empty());
        Ok(ring)
    }

    /// The kernel's descriptor of the ring pair.
    pub fn fd(&self) -> (fd: i32)
        ensures
            fd == self@.fd,
    {
        self.fd
    }

    /// The mapping of the submission ring's cells and index array.
    pub fn sq_mmap(&self) -> (map: &RwMmap)
        ensures
            map@ == self@.sq_mmap,
    {
        &self.sq_mmap
    }

    /// The mapping of the completion ring's cells and entries.
    pub fn cq_mmap(&self) -> (map: &RwMmap)
        ensures
            map@ == self@.cq_mmap,
    {
        &self.cq_mmap
    }

    /// The mapping of the submission entries.
    pub fn sqe_mmap(&self) -> (map: &RwMmap)
        ensures
            map@ == self@.sqe_mmap,
    {
        &self.sqe_mmap
    }

    /// The submission ring.
    pub fn sq(&self) -> (sq: &SubmissionQueue)
        ensures
            sq@ == self@.sq,
    {
        &self.sq
    }

    /// The completion ring.
    pub fn cq(&self) -> (cq: &CompletionQueue)
        ensures
            cq@ == self@.cq,
    {
        &self.cq
    }

    /// The submission ring, for the kernel's side to write to.
    pub fn sq_mut(&mut self) -> (sq: &mut SubmissionQueue)
        ensures
            sq@ == old(self)@.sq,
            final(self)@ == (IoUringView { sq: final(sq)@, ..old(self)@ }),
    {
        &mut self.sq
    }

    /// The completion ring, for the kernel's side to write to.
    pub fn cq_mut(&mut self) -> (cq: &mut CompletionQueue)
        ensures
            cq@ == old(self)@.cq,
            final(self)@ == (IoUringView { cq: final(cq)@, ..old(self)@ }),
    {
        &mut self.cq
    }

    /// What the caller gets for an outcome of the register call.
    pub fn register_result(outcome: Result<u32, Errno>) -> (r: Result<u32, InitError>)
        ensures
            r == registered(outcome),
    {
        match outcome {
            Ok(n) => Ok(n),
            Err(e) => Err(InitError::RegisterFailed(e)),
        }
    }

    /// The registration of fixed buffers.
    pub fn register_buffers(&self, iovecs: &[Iovec]) -> (r: Result<RegisterCall, InitError>)
        ensures
            r.is_ok() <==> 0 < iovecs@.len() <= u32::MAX,
            r matches Ok(call) ==> {
                &&& call.arg matches RegisterArg::Array(at) && at != 0
                &&& r == array_registration(RegisterOp::RegisterBuffers, call.arg, iovecs@.len())
            },
            r matches Err(e) ==> e == InitError::InvalidParameters,
    {
        array_call(
            RegisterOp::RegisterBuffers,
            RegisterArg::Array(slice_addr(iovecs)),
            iovecs.len(),
        )
    }

    pub fn unregister_buffers(&self) -> (call: RegisterCall)
        ensures
            call == (RegisterCall {
                opcode: RegisterOp::UnregisterBuffers,
                arg: RegisterArg::Null,
                nr_args: 0,
            }),
    {
        RegisterCall { opcode: RegisterOp::UnregisterBuffers, arg: RegisterArg::Null, nr_args: 0 }
    }

    /// The registration of fixed files.
    pub fn register_files(&self, fds: &[i32]) -> (r: Result<RegisterCall, InitError>)
        ensures
            r.is_ok() <==> 0 < fds@.len() <= u32::MAX,
            r matches Ok(call) ==> {
                &&& call.arg matches RegisterArg::Array(at) && at != 0
                &&& r == array_registration(RegisterOp::RegisterFiles, call.arg, fds@.len())
            },
            r matches Err(e) ==> e == InitError::InvalidParameters,
    {
        array_call(RegisterOp::RegisterFiles, RegisterArg::Array(slice_addr(fds)), fds.len())
    }

    pub fn unregister_files(&self) -> (call: RegisterCall)
        ensures
            call == (RegisterCall {
                opcode: RegisterOp::UnregisterFiles,
                arg: RegisterArg::Null,
                nr_args: 0,
            }),
    {
        RegisterCall { opcode: RegisterOp::UnregisterFiles, arg: RegisterArg::Null, nr_args: 0 }
    }

    /// The replacement of registered files from index `offset` on.
    pub fn register_files_update(&self, offset: u32, fds: &[i32]) -> (r: Result<
        RegisterCall,
        InitError,
    >)
        ensures
            r.is_ok() <==> 0 < fds@.len() <= u32::MAX,
            r matches Ok(call) ==> {
                &&& call.arg matches RegisterArg::FilesUpdate(update)
                &&& update.offset == offset
                &&& update.resv == 0
                &&& update.fds != 0
                &&& r == array_registration(RegisterOp::RegisterFilesUpdate, call.arg, fds@.len())
            },
            r matches Err(e) ==> e == InitError::InvalidParameters,
    {
        if fds.len() == 0 {
            return Err(InitError::InvalidParameters);
        }
        let update = io_uring_files_update { offset, resv: 0, fds: slice_addr(fds) };

        array_call(RegisterOp::RegisterFilesUpdate, RegisterArg::FilesUpdate(update), fds.len())
    }

    pub fn register_eventfd(&self, eventfd: i32) -> (call: RegisterCall)
        ensures
            call == (RegisterCall {
                opcode: RegisterOp::RegisterEventfd,
                arg: RegisterArg::Fd(eventfd),
                nr_args: 1,
            }),
    {
        RegisterCall {
            opcode: RegisterOp::RegisterEventfd,
            arg: RegisterArg::Fd(eventfd),
            nr_args: 1,
        }
    }

    pub fn unregister_eventfd(&self) -> (call: RegisterCall)
        ensures
            call == (RegisterCall {
                opcode: RegisterOp::UnregisterEventfd,
                arg: RegisterArg::Null,
                nr_args: 0,
            }),
    {
        RegisterCall { opcode: RegisterOp::UnregisterEventfd, arg: RegisterArg::Null, nr_args: 0 }
    }

    pub fn register_eventfd_async(&self, eventfd: i32) -> (call: RegisterCall)
        ensures
            call == (RegisterCall {
                opcode: RegisterOp::RegisterEventfdAsync,
                arg: RegisterArg::Fd(eventfd),
                nr_args: 1,
            }),
    {
        RegisterCall {
            opcode: RegisterOp::RegisterEventfdAsync,
            arg: RegisterArg::Fd(eventfd),
            nr_args: 1,
        }
    }

    /// The call that asks the kernel which operations it supports.
    pub fn probe(&self) -> (call: RegisterCall)
        ensures
            call == (RegisterCall {
                opcode: RegisterOp::RegisterProbe,
                arg: RegisterArg::Probe,
                nr_args: PROBE_OPS as u32,
            }),
    {
        let nr_args = PROBE_OPS as u32;
        RegisterCall { opcode: RegisterOp::RegisterProbe, arg: RegisterArg::Probe, nr_args }
    }

    /// Whether a probe, or its failure, says that `opcode` is supported.
    #[must_use]
    pub fn opcode_supported(probed: &Result<Probe, InitError>, opcode: u8) -> (supported: bool)
        ensures
            supported == match probed {
                Ok(probe) => probe.supports(opcode),
                Err(_) => false,
            },
    {
        match probed {
            Ok(probe) => probe.opcode_supported(opcode),
            Err(_) => false,
        }
    }

    /// Hands out the next submission entry, zeroed, or nothing when the ring is full.
    #[must_use]
    pub fn get_sqe(&mut self) -> (r: Option<&mut io_uring_sqe>)
        ensures
            r.is_none() <==> old(self)@.sq.is_full(),
            r.is_none() ==> final(self)@ == old(self)@,
            r.is_some() ==> {
                &&& *r.unwrap() == io_uring_sqe::zeroed()
                &&& final(self)@ == old(self)@.with_acquired(*final(r.unwrap()))
            },
    {
        match self.sq.peek_sqe() {
            Some(sqe) => {
                *sqe = io_uring_sqe::default();
                Some(sqe)
            },
            None => None,
        }
    }

    /// Hands out an entry from the free list where one waits there, as it stands and
    /// without a move of the tail; else the next submission entry as `get_sqe` does.
    #[must_use]
    pub fn get_sqe_with_reclaim(&mut self) -> (r: Option<&mut io_uring_sqe>)
        ensures
            old(self)@.sq.cache.len() > 0 ==> {
                let slot = old(self)@.sq.cache.last() as int;
                let taken = SqView { cache: old(self)@.sq.cache.drop_last(), ..old(self)@.sq };
                &&& r.is_some()
                &&& *r.unwrap() == old(self)@.sq.sqes[slot]
                &&& final(self)@ == (IoUringView {
                    sq: taken.with_entry(slot, *final(r.unwrap())),
                    ..old(self)@
                })
            },
            old(self)@.sq.cache.len() == 0 ==> {
                &&& r.is_none() <==> old(self)@.sq.is_full()
                &&& r.is_none() ==> final(self)@ == old(self)@
                &&& r.is_some() ==> *r.unwrap() == io_uring_sqe::zeroed()
                &&& r.is_some() ==> final(self)@ == old(self)@.with_acquired(*final(r.unwrap()))
            },
    {
        match self.sq.get_cached_sqe() {
            Some(index) => self.sq.sqe_mut(index),
            None => self.get_sqe(),
        }
    }

    /// Puts a consumed slot on the free list; see `SubmissionQueue::reclaim_sqe`.
    pub fn reclaim_sqe(&mut self, index: u32) -> (accepted: bool)
        ensures
            accepted <==> index < old(self)@.sq.entries && !old(self)@.sq.outstanding(
                index as int,
            ),
            accepted ==> final(self)@ == (IoUringView {
                sq: SqView {
                    cache: old(self)@.sq.cache.push(index),
                    ..old(self)@.sq.with_entry(index as int, io_uring_sqe::zeroed())
                },
                ..old(self)@
            }),
            !accepted ==> final(self)@ == old(self)@,
    {
        self.sq.reclaim_sqe(index)
    }

    /// Marks an entry as linked: the entry after it runs only if this one succeeds.
    #[must_use]
    pub fn link_sqe(sqe: &mut io_uring_sqe) -> (r: &mut io_uring_sqe)
        ensures
            *r == (io_uring_sqe { flags: old(sqe).flags | IOSQE_IO_LINK, ..*old(sqe) }),
            *final(sqe) == *final(r),
    {
        sqe.flags |= IOSQE_IO_LINK;
        sqe
    }

    /// Marks an entry as hard-linked: the entry after it runs whatever this one's result.
    #[must_use]
    pub fn hardlink_sqe(sqe: &mut io_uring_sqe) -> (r: &mut io_uring_sqe)
        ensures
            *r == (io_uring_sqe { flags: old(sqe).flags | IOSQE_IO_HARDLINK, ..*old(sqe) }),
            *final(sqe) == *final(r),
    {
        sqe.flags |= IOSQE_IO_HARDLINK;
        sqe
    }

    /// Marks an entry as draining: it runs only after all that was submitted before it.
    #[must_use]
    pub fn drain_sqe(sqe: &mut io_uring_sqe) -> (r: &mut io_uring_sqe)
        ensures
            *r == (io_uring_sqe { flags: old(sqe).flags | IOSQE_IO_DRAIN, ..*old(sqe) }),
            *final(sqe) == *final(r),
    {
        sqe.flags |= IOSQE_IO_DRAIN;
        sqe
    }

    /// Marks an entry as asynchronous.
    #[must_use]
    pub fn make_async(sqe: &mut io_uring_sqe) -> (r: &mut io_uring_sqe)
        ensures
            *r == (io_uring_sqe { flags: old(sqe).flags | IOSQE_ASYNC, ..*old(sqe) }),
            *final(sqe) == *final(r),
    {
        sqe.flags |= IOSQE_ASYNC;
        sqe
    }

    /// Clears all flags of an entry.
    #[must_use]
    pub fn clear_sqe_flags(sqe: &mut io_uring_sqe) -> (r: &mut io_uring_sqe)
        ensures
            *r == (io_uring_sqe { flags: 0, ..*old(sqe) }),
            *final(sqe) == *final(r),
    {
        sqe.flags = 0;
        sqe
    }

    #[must_use]
    pub fn get_sqe_flags(sqe: &io_uring_sqe) -> (flags: u8)
        ensures
            flags == sqe.flags,
    {
        sqe.flags
    }

    /// Hands out a correlation tag: the tag freed last where one waits, else the next
    /// of the counter. Zero is never handed out by the counter.
    #[must_use]
    pub fn alloc_user_data(&mut self) -> (tag: u64)
        ensures
            tag == old(self)@.allocated_tag(),
            final(self)@ == old(self)@.after_alloc(),
            old(self)@.free_user_data.len() == 0 ==> tag != 0,
    {
        if let Some(reused) = self.free_user_data.pop() {
            return reused;
        }
        let current = self.next_user_data;
        self.next_user_data = current.wrapping_add(1);
        if current == 0 {
            // The counter has wrapped: zero is passed over.
            self.next_user_data = 2;
            1
        } else {
            current
        }
    }

    /// Takes a correlation tag back for reuse. Zero is not taken.
    pub fn free_user_data(&mut self, user_data: u64)
        ensures
            final(self)@ == (IoUringView {
                free_user_data: if user_data != 0 {
                    old(self)@.free_user_data.push(user_data)
                } else {
                    old(self)@.free_user_data
                },
                ..old(self)@
            }),
    {
        if user_data != 0 {
            self.free_user_data.push(user_data);
        }
    }

    /// Writes a correlation tag into an entry.
    #[must_use]
    pub fn set_sqe_user_data(sqe: &mut io_uring_sqe, user_data: u64) -> (r: &mut io_uring_sqe)
        ensures
            *r == (io_uring_sqe { user_data, ..*old(sqe) }),
            *final(sqe) == *final(r),
    {
        sqe.user_data = user_data;
        sqe
    }

    /// The counter's value less the number of freed tags, and zero while the counter
    /// has handed out nothing.
    #[must_use]
    pub fn allocated_user_data_count(&self) -> (count: usize)
        ensures
            count == if self@.next_user_data <= 1 {
                0usize
            } else {
                (self@.next_user_data as usize).saturating_sub(self@.free_user_data.len() as usize)
            },
    {
        let next_val = self.next_user_data;
        let freed_count = self.free_user_data.len();

        if next_val == 0 {
            0
        } else if next_val == 1 {
            0
        } else {
            (#[verifier::truncate] (next_val as usize)).saturating_sub(freed_count)
        }
    }

    /// The number of freed tags that wait for reuse.
    #[must_use]
    pub fn available_user_data_count(&self) -> (count: usize)
        ensures
            count == self@.free_user_data.len(),
    {
        self.free_user_data.len()
    }

    /// Whether more completions will follow for the operation of this entry.
    #[must_use]
    pub fn cqe_has_more(&self, cqe: &io_uring_cqe) -> (more: bool)
        ensures
            more == (cqe.flags & IORING_CQE_F_MORE != 0),
    {
        cqe.flags & IORING_CQE_F_MORE != 0
    }

    /// Whether an entry has any of the given flags.
    #[must_use]
    pub fn cqe_has_flags(&self, cqe: &io_uring_cqe, flags: u32) -> (any: bool)
        ensures
            any == (cqe.flags & flags != 0),
    {
        cqe.flags & flags != 0
    }

    #[must_use]
    pub fn cqe_get_flags(&self, cqe: &io_uring_cqe) -> (flags: u32)
        ensures
            flags == cqe.flags,
    {
        cqe.flags
    }

    /// What the caller gets for an outcome of the enter call.
    pub fn enter_result(outcome: Result<u32, Errno>) -> (r: Result<usize, EnterError>)
        ensures
            r == entered(outcome),
    {
        match outcome {
            Ok(submitted) => Ok(submitted as usize),
            Err(e) => Err(EnterError::from(e)),
        }
    }

    /// Starts a submission: publishes the completion head and the submission tail, and
    /// says what to enter the kernel with.
    pub fn submit(&mut self) -> (call: EnterCall)
        ensures
            final(self)@ == old(self)@.published(),
            call == (EnterCall {
                to_submit: old(self)@.sq.pending() as u32,
                min_complete: 0,
                flags: 0,
                sigmask: 0,
                sigmask_size: 0,
            }),
    {
        self.cq.publish_head();
        let to_submit = self.sq.update_kernel_tail();
        self.enter(to_submit, 0, 0, None)
    }

    /// Starts a submission that waits for `wait_count` completions.
    pub fn submit_and_wait(&mut self, wait_count: usize) -> (call: EnterCall)
        ensures
            final(self)@ == old(self)@.published(),
            call == (EnterCall {
                to_submit: old(self)@.sq.pending() as u32,
                min_complete: wait_count as u32,
                flags: IORING_ENTER_GETEVENTS,
                sigmask: 0,
                sigmask_size: 0,
            }),
    {
        self.cq.publish_head();
        let to_submit = self.sq.update_kernel_tail();
        self.enter(
            to_submit,
            #[verifier::truncate] (wait_count as u32),
            IORING_ENTER_GETEVENTS,
            None,
        )
    }

    /// Ends a submission: both rings take over what the kernel wrote, and the caller
    /// gets the number of entries that the kernel accepted, or the error. Fewer
    /// accepted than submitted is no error.
    pub fn finish_submit(&mut self, outcome: Result<u32, Errno>) -> (r: Result<
        usize,
        EnterError,
    >)
        ensures
            final(self)@ == old(self)@.refreshed(),
            r == entered(outcome),
    {
        let result = Self::enter_result(outcome);
        self.sq.update_from_kernel();
        self.cq.update_kernel_tail();
        result
    }

    /// The enter call for the given counts and flags. A signal mask goes in by its
    /// address, which is never zero, and its size; without one both are zero.
    pub fn enter(
        &mut self,
        to_submit: u32,
        wait_count: u32,
        flags: u32,
        sig: Option<&sigset_t>,
    ) -> (call: EnterCall)
        ensures
            final(self)@ == old(self)@,
            call == (EnterCall {
                to_submit,
                min_complete: wait_count,
                flags,
                sigmask: call.sigmask,
                sigmask_size: if sig.is_some() {
                    vstd::layout::size_of::<sigset_t>() as usize
                } else {
                    0
                },
            }),
            sig.is_none() ==> call.sigmask == 0,
            sig.is_some() ==> call.sigmask != 0,
    {
        let sigmask: u64 = match sig {
            Some(s) => ref_addr(s),
            None => 0,
        };
        let sigmask_size: usize = match sig {
            Some(_) => core::mem::size_of::<sigset_t>(),
            None => 0,
        };
        let flags = match enter_flags_from_bits(flags) {
            Some(bits) => bits,
            None => 0,
        };
        EnterCall { to_submit, min_complete: wait_count, flags, sigmask, sigmask_size }
    }

    /// The first unread completion, after a look at what the kernel wrote.
    #[must_use]
    pub fn peek_cqe(&mut self) -> (r: Option<&io_uring_cqe>)
        ensures
            final(self)@ == old(self)@.harvested(),
            r.is_none() <==> final(self)@.cq.is_empty(),
            r matches Some(cqe) ==> *cqe == final(self)@.cq.cqes[final(self)@.cq.head_slot()],
    {
        self.cq.publish_head();
        self.cq.update_kernel_tail();
        self.cq.peek()
    }

    /// Copies out up to `count` unread completions, oldest first, after a look at what
    /// the kernel wrote. The head stays: the entries are not marked as seen.
    pub fn copy_cqes(&mut self, count: usize) -> (cqes: Vec<io_uring_cqe>)
        ensures
            final(self)@ == old(self)@.harvested(),
            cqes@.len() == if count <= final(self)@.cq.available() {
                count as int
            } else {
                final(self)@.cq.available()
            },
            forall|i: int| 0 <= i < cqes@.len() ==> cqes@[i] == final(self)@.cq.unread(i),
    {
        self.cq.publish_head();
        self.cq.update_kernel_tail();
        let available = self.cq.events_available() as usize;
        let to_copy = if count <= available {
            count
        } else {
            available
        };

        let mut cqes: Vec<io_uring_cqe> = Vec::new();
        if to_copy == 0 {
            return cqes;
        }
        let head = self.cq.get_shadow_head();
        let mask = self.cq.ring_mask();
        let entries = self.cq.entries();
        let ghost cq = self.cq@;
        let mut i: usize = 0;
        while i < to_copy
            invariant
                cq.wf(),
                i <= to_copy <= u32::MAX,
                head == cq.head,
                mask == cq.entries - 1,
                entries@ == cq.cqes,
                cqes@.len() == i,
                forall|k: int| 0 <= k < i ==> cqes@[k] == cq.unread(k),
            decreases to_copy - i,
        {
            let pos = head.wrapping_add(i as u32);
            let index = pos & mask;
            proof {
                lemma_mask_is_slot(pos, cq.entries);
            }
            cqes.push(entries[index as usize]);
            i += 1;
        }
        cqes
    }

    /// Marks one completion as seen.
    pub fn cqe_seen(&mut self, _cqe: &io_uring_cqe)
        ensures
            final(self)@ == (IoUringView { cq: old(self)@.cq.advanced(1), ..old(self)@ }),
    {
        self.cq.advance(1);
    }

    #[must_use]
    pub fn sq_space_left(&self) -> (space: u32)
        ensures
            space == self@.sq.space_left(),
            self@.sq.wf(),
    {
        self.sq.space_left()
    }

    /// The number of unread completions.
    #[must_use]
    pub fn cq_space_left(&self) -> (count: u32)
        ensures
            count == self@.cq.available(),
    {
        self.cq.events_available()
    }

    #[must_use]
    pub fn is_sq_full(&self) -> (full: bool)
        ensures
            full == self@.sq.is_full(),
    {
        self.sq.is_full()
    }

    #[must_use]
    pub fn is_cq_empty(&self) -> (empty: bool)
        ensures
            empty == self@.cq.is_empty(),
    {
        self.cq.is_empty()
    }

    /// Hands out the next entry with `op` written into it, or nothing when the ring is
    /// full.
    pub fn prepare<'a, P: PrepSqe>(&'a mut self, op: &P) -> (r: Option<&'a mut io_uring_sqe>)
        ensures
            r.is_none() <==> old(self)@.sq.is_full(),
            r.is_none() ==> final(self)@ == old(self)@,
            r.is_some() ==> {
                &&& *r.unwrap() == op.prepared(io_uring_sqe::zeroed())
                &&& final(self)@ == old(self)@.with_acquired(*final(r.unwrap()))
            },
    {
        match self.get_sqe() {
            Some(sqe) => {
                op.prep(sqe);
                Some(sqe)
            },
            None => None,
        }
    }

    /// Hands out the next entry with `op` written into it, or nothing when the ring is
    /// full.
    pub fn prepare_mut<'a, P: PrepSqeMut>(&'a mut self, op: &mut P) -> (r: Option<
        &'a mut io_uring_sqe,
    >)
        ensures
            r.is_none() <==> old(self)@.sq.is_full(),
            r.is_none() ==> final(self)@ == old(self)@,
            r.is_some() ==> {
                &&& *r.unwrap() == old(op).prepared(io_uring_sqe::zeroed())
                &&& final(self)@ == old(self)@.with_acquired(*final(r.unwrap()))
            },
    {
        match self.get_sqe() {
            Some(sqe) => {
                op.prep(sqe);
                Some(sqe)
            },
            None => None,
        }
    }

    /// A wait for `events` on `fd` that completes again and again until it is cancelled.
    #[must_use]
    pub fn poll_add_multishot(&mut self, fd: i32, events: u16) -> (r: Option<&mut io_uring_sqe>)
        ensures
            r.is_none() <==> old(self)@.sq.is_full(),
            r.is_none() ==> final(self)@ == old(self)@,
            r.is_some() ==> *r.unwrap() == (io_uring_sqe {
                flags: IOSQE_ASYNC,
                ..(PollAdd { fd, events }).prepared(io_uring_sqe::zeroed())
            }) && final(self)@ == old(self)@.with_acquired(*final(r.unwrap())),
    {
        match self.get_sqe() {
            Some(sqe) => {
                PollAdd::new(fd, events).prep(sqe);
                assert(0u8 | 0x10 == 0x10) by (bit_vector);
                sqe.flags |= IOSQE_ASYNC;
                Some(sqe)
            },
            None => None,
        }
    }

    /// The accepting of connections on `fd`, one completion per connection, until it
    /// is cancelled. Each accepted descriptor is closed on exec.
    #[must_use]
    pub fn accept_multishot(&mut self, fd: i32, flags: i32) -> (r: Option<&mut io_uring_sqe>)
        ensures
            r.is_none() <==> old(self)@.sq.is_full(),
            r.is_none() ==> final(self)@ == old(self)@,
            r.is_some() ==> *r.unwrap() == (io_uring_sqe {
                flags: IOSQE_ASYNC,
                ..(Accept {
                    fd,
                    addr: None,
                    addrlen: None,
                    flags: flags | SOCK_CLOEXEC,
                    file_index: 0,
                }).prepared(io_uring_sqe::zeroed())
            }) && final(self)@ == old(self)@.with_acquired(*final(r.unwrap())),
    {
        match self.get_sqe() {
            Some(sqe) => {
                let mut op = Accept::new(fd, flags | SOCK_CLOEXEC);
                op.prep(sqe);
                assert(0u8 | 0x10 == 0x10) by (bit_vector);
                sqe.flags |= IOSQE_ASYNC;
                Some(sqe)
            },
            None => None,
        }
    }

    /// A request to cancel the multi-shot operation whose entry has the tag `user_data`.
    #[must_use]
    pub fn cancel_multishot<'a>(&'a mut self, user_data: u64) -> (r: Option<&'a mut io_uring_sqe>)
        ensures
            r.is_none() <==> old(self)@.sq.is_full(),
            r.is_none() ==> final(self)@ == old(self)@,
            r.is_some() ==> {
                &&& *r.unwrap() == (AsyncCancel {
                    user_data,
                    flags: 0,
                }).prepared(io_uring_sqe::zeroed())
                &&& final(self)@ == old(self)@.with_acquired(*final(r.unwrap()))
            },
    {
        let op = AsyncCancel::new(user_data, 0);
        self.prepare(&op)
    }

    /// An entry that does nothing but complete.
    #[must_use]
    pub fn nop<'a>(&'a mut self) -> (r: Option<&'a mut io_uring_sqe>)
        ensures
            r.is_none() <==> old(self)@.sq.is_full(),
            r.is_none() ==> final(self)@ == old(self)@,
            r.is_some() ==> {
                &&& *r.unwrap() == Nop.prepared(io_uring_sqe::zeroed())
                &&& final(self)@ == old(self)@.with_acquired(*final(r.unwrap()))
            },
    {
        let op = Nop;
        self.prepare(&op)
    }

    /// A read into `buf` from `offset` of the file.
    #[must_use]
    pub fn read<'a>(
        &'a mut self,
        fd: i32,
        buf: &mut [u8],
        offset: u64,
    ) -> (r: Option<&'a mut io_uring_sqe>)
        ensures
            r.is_none() <==> old(self)@.sq.is_full(),
            r.is_none() ==> final(self)@ == old(self)@,
            r.is_some() ==> {
                &&& *r.unwrap() == (Read {
                    fd,
                    buf: r.unwrap().addr,
                    len: old(buf)@.len() as u32,
                    offset,
                }).prepared(io_uring_sqe::zeroed())
                &&& r.unwrap().addr != 0
                &&& final(self)@ == old(self)@.with_acquired(*final(r.unwrap()))
            },
    {
        let mut op = Read::new(fd, buf, offset);
        self.prepare_mut(&mut op)
    }

    /// A write of `buf` at `offset` of the file.
    #[must_use]
    pub fn write<'a>(
        &'a mut self,
        fd: i32,
        buf: &[u8],
        offset: u64,
    ) -> (r: Option<&'a mut io_uring_sqe>)
        ensures
            r.is_none() <==> old(self)@.sq.is_full(),
            r.is_none() ==> final(self)@ == old(self)@,
            r.is_some() ==> {
                &&& *r.unwrap() == (Write {
                    fd,
                    buf: r.unwrap().addr,
                    len: buf@.len() as u32,
                    offset,
                }).prepared(io_uring_sqe::zeroed())
                &&& r.unwrap().addr != 0
                &&& final(self)@ == old(self)@.with_acquired(*final(r.unwrap()))
            },
    {
        let op = Write::new(fd, buf, offset);
        self.prepare(&op)
    }

    /// A read into a part of the registered buffer `buf_index`.
    #[must_use]
    pub fn read_fixed<'a>(
        &'a mut self,
        fd: i32,
        buf: &mut [u8],
        offset: u64,
        buf_index: u16,
    ) -> (r: Option<&'a mut io_uring_sqe>)
        ensures
            r.is_none() <==> old(self)@.sq.is_full(),
            r.is_none() ==> final(self)@ == old(self)@,
            r.is_some() ==> {
                &&& *r.unwrap() == (ReadFixed {
                    fd,
                    buf: r.unwrap().addr,
                    len: old(buf)@.len() as u32,
                    offset,
                    buf_index,
                }).prepared(io_uring_sqe::zeroed())
                &&& r.unwrap().addr != 0
                &&& final(self)@ == old(self)@.with_acquired(*final(r.unwrap()))
            },
    {
        let mut op = ReadFixed::new(fd, buf, offset, buf_index);
        self.prepare_mut(&mut op)
    }

    /// A write from a part of the registered buffer `buf_index`.
    #[must_use]
    pub fn write_fixed<'a>(
        &'a mut self,
        fd: i32,
        buf: &[u8],
        offset: u64,
        buf_index: u16,
    ) -> (r: Option<&'a mut io_uring_sqe>)
        ensures
            r.is_none() <==> old(self)@.sq.is_full(),
            r.is_none() ==> final(self)@ == old(self)@,
            r.is_some() ==> {
                &&& *r.unwrap() == (WriteFixed {
                    fd,
                    buf: r.unwrap().addr,
                    len: buf@.len() as u32,
                    offset,
                    buf_index,
                }).prepared(io_uring_sqe::zeroed())
                &&& r.unwrap().addr != 0
                &&& final(self)@ == old(self)@.with_acquired(*final(r.unwrap()))
            },
    {
        let op = WriteFixed::new(fd, buf, offset, buf_index);
        self.prepare(&op)
    }

    /// The opening of `path`, relative to the working directory.
    #[must_use]
    pub fn openat<'a>(
        &'a mut self,
        path: &[u8],
        flags: u32,
        mode: u32,
    ) -> (r: Option<&'a mut io_uring_sqe>)
        ensures
            r.is_none() <==> old(self)@.sq.is_full(),
            r.is_none() ==> final(self)@ == old(self)@,
            r.is_some() ==> {
                &&& *r.unwrap() == (OpenAt {
                    dirfd: AT_FDCWD,
                    path: r.unwrap().addr,
                    flags,
                    mode,
                }).prepared(io_uring_sqe::zeroed())
                &&& r.unwrap().addr != 0
                &&& final(self)@ == old(self)@.with_acquired(*final(r.unwrap()))
            },
    {
        let op = OpenAt::new(AT_FDCWD, path, flags, mode);
        self.prepare(&op)
    }

    /// A query of the status of `path`, relative to the working directory.
    #[must_use]
    pub fn statx<'a>(
        &'a mut self,
        path: &[u8],
        flags: u32,
        mask: u32,
        statxbuf: u64,
    ) -> (r: Option<&'a mut io_uring_sqe>)
        ensures
            r.is_none() <==> old(self)@.sq.is_full(),
            r.is_none() ==> final(self)@ == old(self)@,
            r.is_some() ==> {
                &&& *r.unwrap() == (Statx {
                    dirfd: AT_FDCWD,
                    path: r.unwrap().addr,
                    flags,
                    mask,
                    statxbuf,
                }).prepared(io_uring_sqe::zeroed())
                &&& r.unwrap().addr != 0
                &&& final(self)@ == old(self)@.with_acquired(*final(r.unwrap()))
            },
    {
        let mut op = Statx::new(AT_FDCWD, path, flags, mask, statxbuf);
        self.prepare_mut(&mut op)
    }

    /// The reserving of `len` bytes from `offset` of the file.
    #[must_use]
    pub fn fallocate<'a>(
        &'a mut self,
        fd: i32,
        mode: u32,
        offset: u64,
        len: u64,
    ) -> (r: Option<&'a mut io_uring_sqe>)
        ensures
            r.is_none() <==> old(self)@.sq.is_full(),
            r.is_none() ==> final(self)@ == old(self)@,
            r.is_some() ==> {
                &&& *r.unwrap() == (Fallocate {
                    fd,
                    mode,
                    offset,
                    len,
                }).prepared(io_uring_sqe::zeroed())
                &&& final(self)@ == old(self)@.with_acquired(*final(r.unwrap()))
            },
    {
        let op = Fallocate::new(fd, mode, offset, len);
        self.prepare(&op)
    }

    /// Advice on the use of `len` bytes from `offset` of the file.
    #[must_use]
    pub fn fadvise<'a>(
        &'a mut self,
        fd: i32,
        offset: u64,
        len: u32,
        advice: u32,
    ) -> (r: Option<&'a mut io_uring_sqe>)
        ensures
            r.is_none() <==> old(self)@.sq.is_full(),
            r.is_none() ==> final(self)@ == old(self)@,
            r.is_some() ==> {
                &&& *r.unwrap() == (Fadvise {
                    fd,
                    offset,
                    len,
                    advice,
                }).prepared(io_uring_sqe::zeroed())
                &&& final(self)@ == old(self)@.with_acquired(*final(r.unwrap()))
            },
    {
        let op = Fadvise::new(fd, offset, len, advice);
        self.prepare(&op)
    }

    /// Advice on the use of `len` bytes of memory from the address `addr`.
    #[must_use]
    pub fn madvise<'a>(
        &'a mut self,
        addr: u64,
        len: u32,
        advice: u32,
    ) -> (r: Option<&'a mut io_uring_sqe>)
        ensures
            r.is_none() <==> old(self)@.sq.is_full(),
            r.is_none() ==> final(self)@ == old(self)@,
            r.is_some() ==> {
                &&& *r.unwrap() == (Madvise { addr, len, advice }).prepared(io_uring_sqe::zeroed())
                &&& final(self)@ == old(self)@.with_acquired(*final(r.unwrap()))
            },
    {
        let op = Madvise::new(addr, len, advice);
        self.prepare(&op)
    }

    /// The removal of `path`, relative to `dirfd`.
    #[must_use]
    pub fn unlinkat<'a>(
        &'a mut self,
        dirfd: i32,
        path: &[u8],
        flags: u32,
    ) -> (r: Option<&'a mut io_uring_sqe>)
        ensures
            r.is_none() <==> old(self)@.sq.is_full(),
            r.is_none() ==> final(self)@ == old(self)@,
            r.is_some() ==> {
                &&& *r.unwrap() == (UnlinkAt {
                    dirfd,
                    path: r.unwrap().addr,
                    flags,
                }).prepared(io_uring_sqe::zeroed())
                &&& r.unwrap().addr != 0
                &&& final(self)@ == old(self)@.with_acquired(*final(r.unwrap()))
            },
    {
        let op = UnlinkAt::new(dirfd, path, flags);
        self.prepare(&op)
    }

    /// The removal of `path`, relative to the working directory.
    #[must_use]
    pub fn unlink<'a>(&'a mut self, path: &[u8], flags: u32) -> (r: Option<&'a mut io_uring_sqe>)
        ensures
            r.is_none() <==> old(self)@.sq.is_full(),
            r.is_none() ==> final(self)@ == old(self)@,
            r.is_some() ==> {
                &&& *r.unwrap() == (UnlinkAt {
                    dirfd: AT_FDCWD,
                    path: r.unwrap().addr,
                    flags,
                }).prepared(io_uring_sqe::zeroed())
                &&& r.unwrap().addr != 0
                &&& final(self)@ == old(self)@.with_acquired(*final(r.unwrap()))
            },
    {
        let op = UnlinkAt::new(AT_FDCWD, path, flags);
        self.prepare(&op)
    }

    /// The renaming of `oldpath` to `newpath`, each relative to its directory.
    #[must_use]
    pub fn renameat<'a>(
        &'a mut self,
        olddirfd: i32,
        oldpath: &[u8],
        newdirfd: i32,
        newpath: &[u8],
        flags: u32,
    ) -> (r: Option<&'a mut io_uring_sqe>)
        ensures
            r.is_none() <==> old(self)@.sq.is_full(),
            r.is_none() ==> final(self)@ == old(self)@,
            r.is_some() ==> {
                &&& *r.unwrap() == (RenameAt {
                    olddirfd,
                    oldpath: r.unwrap().addr,
                    newdirfd,
                    newpath: r.unwrap().off,
                    flags,
                }).prepared(io_uring_sqe::zeroed())
                &&& r.unwrap().addr != 0
                &&& r.unwrap().off != 0
                &&& final(self)@ == old(self)@.with_acquired(*final(r.unwrap()))
            },
    {
        let op = RenameAt::new(olddirfd, oldpath, newdirfd, newpath, flags);
        self.prepare(&op)
    }

    /// The renaming of `oldpath` to `newpath`, relative to the working directory.
    #[must_use]
    pub fn rename<'a>(
        &'a mut self,
        oldpath: &[u8],
        newpath: &[u8],
        flags: u32,
    ) -> (r: Option<&'a mut io_uring_sqe>)
        ensures
            r.is_none() <==> old(self)@.sq.is_full(),
            r.is_none() ==> final(self)@ == old(self)@,
            r.is_some() ==> {
                &&& *r.unwrap() == (RenameAt {
                    olddirfd: AT_FDCWD,
                    oldpath: r.unwrap().addr,
                    newdirfd: AT_FDCWD,
                    newpath: r.unwrap().off,
                    flags,
                }).prepared(io_uring_sqe::zeroed())
                &&& r.unwrap().addr != 0
                &&& r.unwrap().off != 0
                &&& final(self)@ == old(self)@.with_acquired(*final(r.unwrap()))
            },
    {
        let op = RenameAt::new(AT_FDCWD, oldpath, AT_FDCWD, newpath, flags);
        self.prepare(&op)
    }

    /// The making of the directory `path`, relative to `dirfd`.
    #[must_use]
    pub fn mkdirat<'a>(
        &'a mut self,
        dirfd: i32,
        path: &[u8],
        mode: u32,
    ) -> (r: Option<&'a mut io_uring_sqe>)
        ensures
            r.is_none() <==> old(self)@.sq.is_full(),
            r.is_none() ==> final(self)@ == old(self)@,
            r.is_some() ==> {
                &&& *r.unwrap() == (MkdirAt {
                    dirfd,
                    path: r.unwrap().addr,
                    mode,
                }).prepared(io_uring_sqe::zeroed())
                &&& r.unwrap().addr != 0
                &&& final(self)@ == old(self)@.with_acquired(*final(r.unwrap()))
            },
    {
        let op = MkdirAt::new(dirfd, path, mode);
        self.prepare(&op)
    }

    /// The making of the directory `path`, relative to the working directory.
    #[must_use]
    pub fn mkdir<'a>(&'a mut self, path: &[u8], mode: u32) -> (r: Option<&'a mut io_uring_sqe>)
        ensures
            r.is_none() <==> old(self)@.sq.is_full(),
            r.is_none() ==> final(self)@ == old(self)@,
            r.is_some() ==> {
                &&& *r.unwrap() == (MkdirAt {
                    dirfd: AT_FDCWD,
                    path: r.unwrap().addr,
                    mode,
                }).prepared(io_uring_sqe::zeroed())
                &&& r.unwrap().addr != 0
                &&& final(self)@ == old(self)@.with_acquired(*final(r.unwrap()))
            },
    {
        let op = MkdirAt::new(AT_FDCWD, path, mode);
        self.prepare(&op)
    }

    /// The making of the symbolic link `linkpath`, relative to `newdirfd`, to `target`.
    #[must_use]
    pub fn symlinkat<'a>(
        &'a mut self,
        target: &[u8],
        newdirfd: i32,
        linkpath: &[u8],
    ) -> (r: Option<&'a mut io_uring_sqe>)
        ensures
            r.is_none() <==> old(self)@.sq.is_full(),
            r.is_none() ==> final(self)@ == old(self)@,
            r.is_some() ==> {
                &&& *r.unwrap() == (SymlinkAt {
                    target: r.unwrap().addr,
                    newdirfd,
                    linkpath: r.unwrap().off,
                }).prepared(io_uring_sqe::zeroed())
                &&& r.unwrap().addr != 0
                &&& r.unwrap().off != 0
                &&& final(self)@ == old(self)@.with_acquired(*final(r.unwrap()))
            },
    {
        let op = SymlinkAt::new(target, newdirfd, linkpath);
        self.prepare(&op)
    }

    /// The making of the symbolic link `linkpath`, relative to the working directory, to `target`.
    #[must_use]
    pub fn symlink<'a>(
        &'a mut self,
        target: &[u8],
        linkpath: &[u8],
    ) -> (r: Option<&'a mut io_uring_sqe>)
        ensures
            r.is_none() <==> old(self)@.sq.is_full(),
            r.is_none() ==> final(self)@ == old(self)@,
            r.is_some() ==> {
                &&& *r.unwrap() == (SymlinkAt {
                    target: r.unwrap().addr,
                    newdirfd: AT_FDCWD,
                    linkpath: r.unwrap().off,
                }).prepared(io_uring_sqe::zeroed())
                &&& r.unwrap().addr != 0
                &&& r.unwrap().off != 0
                &&& final(self)@ == old(self)@.with_acquired(*final(r.unwrap()))
            },
    {
        let op = SymlinkAt::new(target, AT_FDCWD, linkpath);
        self.prepare(&op)
    }

    /// The making of the hard link `newpath` to `oldpath`, each relative to its directory.
    #[must_use]
    pub fn linkat<'a>(
        &'a mut self,
        olddirfd: i32,
        oldpath: &[u8],
        newdirfd: i32,
        newpath: &[u8],
        flags: u32,
    ) -> (r: Option<&'a mut io_uring_sqe>)
        ensures
            r.is_none() <==> old(self)@.sq.is_full(),
            r.is_none() ==> final(self)@ == old(self)@,
            r.is_some() ==> {
                &&& *r.unwrap() == (LinkAt {
                    olddirfd,
                    oldpath: r.unwrap().addr,
                    newdirfd,
                    newpath: r.unwrap().off,
                    flags,
                }).prepared(io_uring_sqe::zeroed())
                &&& r.unwrap().addr != 0
                &&& r.unwrap().off != 0
                &&& final(self)@ == old(self)@.with_acquired(*final(r.unwrap()))
            },
    {
        let op = LinkAt::new(olddirfd, oldpath, newdirfd, newpath, flags);
        self.prepare(&op)
    }

    /// The making of the hard link `newpath` to `oldpath`, relative to the working directory.
    #[must_use]
    pub fn link<'a>(
        &'a mut self,
        oldpath: &[u8],
        newpath: &[u8],
        flags: u32,
    ) -> (r: Option<&'a mut io_uring_sqe>)
        ensures
            r.is_none() <==> old(self)@.sq.is_full(),
            r.is_none() ==> final(self)@ == old(self)@,
            r.is_some() ==> {
                &&& *r.unwrap() == (LinkAt {
                    olddirfd: AT_FDCWD,
                    oldpath: r.unwrap().addr,
                    newdirfd: AT_FDCWD,
                    newpath: r.unwrap().off,
                    flags,
                }).prepared(io_uring_sqe::zeroed())
                &&& r.unwrap().addr != 0
                &&& r.unwrap().off != 0
                &&& final(self)@ == old(self)@.with_acquired(*final(r.unwrap()))
            },
    {
        let op = LinkAt::new(AT_FDCWD, oldpath, AT_FDCWD, newpath, flags);
        self.prepare(&op)
    }

    /// The closing of the registered file `file_index`.
    #[must_use]
    pub fn close_direct<'a>(&'a mut self, file_index: u32) -> (r: Option<&'a mut io_uring_sqe>)
        ensures
            r.is_none() <==> old(self)@.sq.is_full(),
            r.is_none() ==> final(self)@ == old(self)@,
            r.is_some() ==> {
                &&& *r.unwrap() == (CloseDirect { file_index }).prepared(io_uring_sqe::zeroed())
                &&& final(self)@ == old(self)@.with_acquired(*final(r.unwrap()))
            },
    {
        let op = CloseDirect::new(file_index);
        self.prepare(&op)
    }

    /// The closing of `fd`.
    #[must_use]
    pub fn close<'a>(&'a mut self, fd: i32) -> (r: Option<&'a mut io_uring_sqe>)
        ensures
            r.is_none() <==> old(self)@.sq.is_full(),
            r.is_none() ==> final(self)@ == old(self)@,
            r.is_some() ==> {
                &&& *r.unwrap() == (Close { fd }).prepared(io_uring_sqe::zeroed())
                &&& final(self)@ == old(self)@.with_acquired(*final(r.unwrap()))
            },
    {
        let op = Close::new(fd);
        self.prepare(&op)
    }

    /// A wait for `events` on `fd`.
    #[must_use]
    pub fn poll_add<'a>(&'a mut self, fd: i32, events: u16) -> (r: Option<&'a mut io_uring_sqe>)
        ensures
            r.is_none() <==> old(self)@.sq.is_full(),
            r.is_none() ==> final(self)@ == old(self)@,
            r.is_some() ==> {
                &&& *r.unwrap() == (PollAdd { fd, events }).prepared(io_uring_sqe::zeroed())
                &&& final(self)@ == old(self)@.with_acquired(*final(r.unwrap()))
            },
    {
        let op = PollAdd::new(fd, events);
        self.prepare(&op)
    }

    /// The removal of the wait whose entry has the tag `user_data`.
    #[must_use]
    pub fn poll_remove<'a>(&'a mut self, user_data: u64) -> (r: Option<&'a mut io_uring_sqe>)
        ensures
            r.is_none() <==> old(self)@.sq.is_full(),
            r.is_none() ==> final(self)@ == old(self)@,
            r.is_some() ==> {
                &&& *r.unwrap() == (PollRemove { user_data }).prepared(io_uring_sqe::zeroed())
                &&& final(self)@ == old(self)@.with_acquired(*final(r.unwrap()))
            },
    {
        let op = PollRemove::new(user_data);
        self.prepare(&op)
    }

    /// A timeout of `ts` that also ends after `count` completions.
    #[must_use]
    pub fn timeout<'a>(
        &'a mut self,
        ts: &Timespec,
        count: u32,
        flags: u32,
    ) -> (r: Option<&'a mut io_uring_sqe>)
        ensures
            r.is_none() <==> old(self)@.sq.is_full(),
            r.is_none() ==> final(self)@ == old(self)@,
            r.is_some() ==> {
                &&& *r.unwrap() == (Timeout {
                    ts: r.unwrap().addr,
                    count,
                    flags,
                }).prepared(io_uring_sqe::zeroed())
                &&& r.unwrap().addr != 0
                &&& final(self)@ == old(self)@.with_acquired(*final(r.unwrap()))
            },
    {
        let op = Timeout::new(ts, count, flags);
        self.prepare(&op)
    }

    /// A timeout of the span `ts` from now.
    #[must_use]
    pub fn timeout_relative<'a>(&'a mut self, ts: &Timespec) -> (r: Option<&'a mut io_uring_sqe>)
        ensures
            r.is_none() <==> old(self)@.sq.is_full(),
            r.is_none() ==> final(self)@ == old(self)@,
            r.is_some() ==> {
                &&& *r.unwrap() == (Timeout {
                    ts: r.unwrap().addr,
                    count: 0,
                    flags: 0,
                }).prepared(io_uring_sqe::zeroed())
                &&& r.unwrap().addr != 0
                &&& final(self)@ == old(self)@.with_acquired(*final(r.unwrap()))
            },
    {
        let op = Timeout::relative(ts);
        self.prepare(&op)
    }

    /// A timeout at the point in time `ts`.
    #[must_use]
    pub fn timeout_absolute<'a>(&'a mut self, ts: &Timespec) -> (r: Option<&'a mut io_uring_sqe>)
        ensures
            r.is_none() <==> old(self)@.sq.is_full(),
            r.is_none() ==> final(self)@ == old(self)@,
            r.is_some() ==> {
                &&& *r.unwrap() == (Timeout {
                    ts: r.unwrap().addr,
                    count: 0,
                    flags: IORING_TIMEOUT_ABS,
                }).prepared(io_uring_sqe::zeroed())
                &&& r.unwrap().addr != 0
                &&& final(self)@ == old(self)@.with_acquired(*final(r.unwrap()))
            },
    {
        let op = Timeout::absolute(ts);
        self.prepare(&op)
    }

    /// The removal of the timeout whose entry has the tag `user_data`.
    #[must_use]
    pub fn timeout_remove<'a>(&'a mut self, user_data: u64) -> (r: Option<&'a mut io_uring_sqe>)
        ensures
            r.is_none() <==> old(self)@.sq.is_full(),
            r.is_none() ==> final(self)@ == old(self)@,
            r.is_some() ==> {
                &&& *r.unwrap() == (TimeoutRemove { user_data }).prepared(io_uring_sqe::zeroed())
                &&& final(self)@ == old(self)@.with_acquired(*final(r.unwrap()))
            },
    {
        let op = TimeoutRemove::new(user_data);
        self.prepare(&op)
    }

    /// A timeout of `ts` on the operation that the entry is linked to.
    #[must_use]
    pub fn link_timeout<'a>(
        &'a mut self,
        ts: &Timespec,
        flags: u32,
    ) -> (r: Option<&'a mut io_uring_sqe>)
        ensures
            r.is_none() <==> old(self)@.sq.is_full(),
            r.is_none() ==> final(self)@ == old(self)@,
            r.is_some() ==> {
                &&& *r.unwrap() == (LinkTimeout {
                    ts: r.unwrap().addr,
                    flags,
                }).prepared(io_uring_sqe::zeroed())
                &&& r.unwrap().addr != 0
                &&& final(self)@ == old(self)@.with_acquired(*final(r.unwrap()))
            },
    {
        let op = LinkTimeout::new(ts, flags);
        self.prepare(&op)
    }

    /// A send of `buf` on the socket `fd`.
    #[must_use]
    pub fn send<'a>(
        &'a mut self,
        fd: i32,
        buf: &[u8],
        flags: i32,
    ) -> (r: Option<&'a mut io_uring_sqe>)
        ensures
            r.is_none() <==> old(self)@.sq.is_full(),
            r.is_none() ==> final(self)@ == old(self)@,
            r.is_some() ==> {
                &&& *r.unwrap() == (Send {
                    fd,
                    buf: r.unwrap().addr,
                    len: buf@.len() as u32,
                    flags,
                }).prepared(io_uring_sqe::zeroed())
                &&& r.unwrap().addr != 0
                &&& final(self)@ == old(self)@.with_acquired(*final(r.unwrap()))
            },
    {
        let op = Send::new(fd, buf, flags);
        self.prepare(&op)
    }

    /// A receive into `buf` from the socket `fd`.
    #[must_use]
    pub fn recv<'a>(
        &'a mut self,
        fd: i32,
        buf: &mut [u8],
        flags: i32,
    ) -> (r: Option<&'a mut io_uring_sqe>)
        ensures
            r.is_none() <==> old(self)@.sq.is_full(),
            r.is_none() ==> final(self)@ == old(self)@,
            r.is_some() ==> {
                &&& *r.unwrap() == (Recv {
                    fd,
                    buf: r.unwrap().addr,
                    len: old(buf)@.len() as u32,
                    flags,
                }).prepared(io_uring_sqe::zeroed())
                &&& r.unwrap().addr != 0
                &&& final(self)@ == old(self)@.with_acquired(*final(r.unwrap()))
            },
    {
        let mut op = Recv::new(fd, buf, flags);
        self.prepare_mut(&mut op)
    }

    /// A send of the message that `msg` describes.
    #[must_use]
    pub fn sendmsg<'a>(
        &'a mut self,
        fd: i32,
        msg: &MsgHdr,
        flags: i32,
    ) -> (r: Option<&'a mut io_uring_sqe>)
        ensures
            r.is_none() <==> old(self)@.sq.is_full(),
            r.is_none() ==> final(self)@ == old(self)@,
            r.is_some() ==> {
                &&& *r.unwrap() == (SendMsg {
                    fd,
                    msg: r.unwrap().addr,
                    flags,
                }).prepared(io_uring_sqe::zeroed())
                &&& r.unwrap().addr != 0
                &&& final(self)@ == old(self)@.with_acquired(*final(r.unwrap()))
            },
    {
        let op = SendMsg::new(fd, msg, flags);
        self.prepare(&op)
    }

    /// A receive of a message into what `msg` describes.
    #[must_use]
    pub fn recvmsg<'a>(
        &'a mut self,
        fd: i32,
        msg: &mut MsgHdr,
        flags: i32,
    ) -> (r: Option<&'a mut io_uring_sqe>)
        ensures
            r.is_none() <==> old(self)@.sq.is_full(),
            r.is_none() ==> final(self)@ == old(self)@,
            r.is_some() ==> {
                &&& *r.unwrap() == (RecvMsg {
                    fd,
                    msg: r.unwrap().addr,
                    flags,
                }).prepared(io_uring_sqe::zeroed())
                &&& r.unwrap().addr != 0
                &&& final(self)@ == old(self)@.with_acquired(*final(r.unwrap()))
            },
    {
        let mut op = RecvMsg::new(fd, msg, flags);
        self.prepare_mut(&mut op)
    }

    /// The accepting of a connection on `fd`.
    #[must_use]
    pub fn accept<'a>(&'a mut self, fd: i32, flags: i32) -> (r: Option<&'a mut io_uring_sqe>)
        ensures
            r.is_none() <==> old(self)@.sq.is_full(),
            r.is_none() ==> final(self)@ == old(self)@,
            r.is_some() ==> {
                &&& *r.unwrap() == (Accept {
                    fd,
                    addr: None,
                    addrlen: None,
                    flags,
                    file_index: 0,
                }).prepared(io_uring_sqe::zeroed())
                &&& final(self)@ == old(self)@.with_acquired(*final(r.unwrap()))
            },
    {
        let mut op = Accept::new(fd, flags);
        self.prepare_mut(&mut op)
    }

    /// The accepting of a connection on `fd`, with room for the peer's address.
    #[must_use]
    pub fn accept_with_addr<'a>(
        &'a mut self,
        fd: i32,
        addr: &mut [u8],
        addrlen: &mut u32,
        flags: i32,
    ) -> (r: Option<&'a mut io_uring_sqe>)
        ensures
            r.is_none() <==> old(self)@.sq.is_full(),
            r.is_none() ==> final(self)@ == old(self)@,
            r.is_some() ==> {
                &&& *r.unwrap() == (Accept {
                    fd,
                    addr: Some(r.unwrap().addr),
                    addrlen: Some(*old(addrlen)),
                    flags,
                    file_index: 0,
                }).prepared(io_uring_sqe::zeroed())
                &&& r.unwrap().addr != 0
                &&& final(self)@ == old(self)@.with_acquired(*final(r.unwrap()))
            },
            *final(addrlen) == *old(addrlen),
    {
        let mut op = Accept::with_addr(fd, addr, addrlen, flags);
        self.prepare_mut(&mut op)
    }

    /// The accepting of a connection on `fd` into the registered file `file_index`.
    #[must_use]
    pub fn accept_with_file_index<'a>(
        &'a mut self,
        fd: i32,
        file_index: u32,
        flags: i32,
    ) -> (r: Option<&'a mut io_uring_sqe>)
        ensures
            r.is_none() <==> old(self)@.sq.is_full(),
            r.is_none() ==> final(self)@ == old(self)@,
            r.is_some() ==> {
                &&& *r.unwrap() == (Accept {
                    fd,
                    addr: None,
                    addrlen: None,
                    flags,
                    file_index,
                }).prepared(io_uring_sqe::zeroed())
                &&& final(self)@ == old(self)@.with_acquired(*final(r.unwrap()))
            },
    {
        let mut op = Accept::with_file_index(fd, file_index, flags);
        self.prepare_mut(&mut op)
    }

    /// The accepting of a connection on `fd` into the registered file `file_index`, with
    /// room for the peer's address.
    #[must_use]
    pub fn accept_with_addr_and_file_index<'a>(
        &'a mut self,
        fd: i32,
        addr: &mut [u8],
        addrlen: &mut u32,
        file_index: u32,
        flags: i32,
    ) -> (r: Option<&'a mut io_uring_sqe>)
        ensures
            r.is_none() <==> old(self)@.sq.is_full(),
            r.is_none() ==> final(self)@ == old(self)@,
            r.is_some() ==> {
                &&& *r.unwrap() == (Accept {
                    fd,
                    addr: Some(r.unwrap().addr),
                    addrlen: Some(*old(addrlen)),
                    flags,
                    file_index,
                }).prepared(io_uring_sqe::zeroed())
                &&& r.unwrap().addr != 0
                &&& final(self)@ == old(self)@.with_acquired(*final(r.unwrap()))
            },
            *final(addrlen) == *old(addrlen),
    {
        let mut op = Accept::with_addr_and_file_index(fd, addr, addrlen, file_index, flags);
        self.prepare_mut(&mut op)
    }

    /// A connect of the socket `fd` to the address in `addr`.
    #[must_use]
    pub fn connect<'a>(
        &'a mut self,
        fd: i32,
        addr: &[u8],
        addrlen: u32,
    ) -> (r: Option<&'a mut io_uring_sqe>)
        ensures
            r.is_none() <==> old(self)@.sq.is_full(),
            r.is_none() ==> final(self)@ == old(self)@,
            r.is_some() ==> {
                &&& *r.unwrap() == (Connect {
                    fd,
                    addr: r.unwrap().addr,
                    addrlen,
                }).prepared(io_uring_sqe::zeroed())
                &&& r.unwrap().addr != 0
                &&& final(self)@ == old(self)@.with_acquired(*final(r.unwrap()))
            },
    {
        let op = Connect::new(fd, addr, addrlen);
        self.prepare(&op)
    }

    /// The shutting down of the socket `fd`.
    #[must_use]
    pub fn shutdown<'a>(&'a mut self, fd: i32, how: i32) -> (r: Option<&'a mut io_uring_sqe>)
        ensures
            r.is_none() <==> old(self)@.sq.is_full(),
            r.is_none() ==> final(self)@ == old(self)@,
            r.is_some() ==> {
                &&& *r.unwrap() == (Shutdown { fd, how }).prepared(io_uring_sqe::zeroed())
                &&& final(self)@ == old(self)@.with_acquired(*final(r.unwrap()))
            },
    {
        let op = Shutdown::new(fd, how);
        self.prepare(&op)
    }

    /// A move of `len` bytes from `fd_in` to `fd_out`.
    #[must_use]
    pub fn splice<'a>(
        &'a mut self,
        fd_in: i32,
        off_in: u64,
        fd_out: i32,
        off_out: u64,
        len: u32,
        flags: u32,
    ) -> (r: Option<&'a mut io_uring_sqe>)
        ensures
            r.is_none() <==> old(self)@.sq.is_full(),
            r.is_none() ==> final(self)@ == old(self)@,
            r.is_some() ==> {
                &&& *r.unwrap() == (Splice {
                    fd_in,
                    off_in,
                    fd_out,
                    off_out,
                    len,
                    flags,
                }).prepared(io_uring_sqe::zeroed())
                &&& final(self)@ == old(self)@.with_acquired(*final(r.unwrap()))
            },
    {
        let op = Splice::new(fd_in, off_in, fd_out, off_out, len, flags);
        self.prepare(&op)
    }

    /// A copy of `len` bytes from the pipe `fd_in` to the pipe `fd_out`.
    #[must_use]
    pub fn tee<'a>(
        &'a mut self,
        fd_in: i32,
        fd_out: i32,
        len: u32,
        flags: u32,
    ) -> (r: Option<&'a mut io_uring_sqe>)
        ensures
            r.is_none() <==> old(self)@.sq.is_full(),
            r.is_none() ==> final(self)@ == old(self)@,
            r.is_some() ==> {
                &&& *r.unwrap() == (Tee {
                    fd_in,
                    fd_out,
                    len,
                    flags,
                }).prepared(io_uring_sqe::zeroed())
                &&& final(self)@ == old(self)@.with_acquired(*final(r.unwrap()))
            },
    {
        let op = Tee::new(fd_in, fd_out, len, flags);
        self.prepare(&op)
    }

    /// The handing of `nbufs` buffers of `len` bytes each, from the address `addr`, to the
    /// group `bgid`.
    #[must_use]
    pub fn provide_buffers<'a>(
        &'a mut self,
        addr: u64,
        len: u32,
        bgid: u16,
        bid: u16,
        nbufs: u32,
    ) -> (r: Option<&'a mut io_uring_sqe>)
        ensures
            r.is_none() <==> old(self)@.sq.is_full(),
            r.is_none() ==> final(self)@ == old(self)@,
            r.is_some() ==> {
                &&& *r.unwrap() == (ProvideBuffers {
                    addr,
                    len,
                    bgid,
                    bid,
                    nbufs,
                }).prepared(io_uring_sqe::zeroed())
                &&& final(self)@ == old(self)@.with_acquired(*final(r.unwrap()))
            },
    {
        let op = ProvideBuffers::new(addr, len, bgid, bid, nbufs);
        self.prepare(&op)
    }

    /// The release of `nr` buffers of the group `bgid`.
    #[must_use]
    pub fn remove_buffers<'a>(&'a mut self, bgid: u16, nr: u32) -> (r: Option<&'a mut io_uring_sqe>)
        ensures
            r.is_none() <==> old(self)@.sq.is_full(),
            r.is_none() ==> final(self)@ == old(self)@,
            r.is_some() ==> {
                &&& *r.unwrap() == (RemoveBuffers { bgid, nr }).prepared(io_uring_sqe::zeroed())
                &&& final(self)@ == old(self)@.with_acquired(*final(r.unwrap()))
            },
    {
        let op = RemoveBuffers::new(bgid, nr);
        self.prepare(&op)
    }

    /// The release of every buffer of the group `bgid`.
    #[must_use]
    pub fn free_buffers<'a>(&'a mut self, bgid: u16) -> (r: Option<&'a mut io_uring_sqe>)
        ensures
            r.is_none() <==> old(self)@.sq.is_full(),
            r.is_none() ==> final(self)@ == old(self)@,
            r.is_some() ==> {
                &&& *r.unwrap() == (FreeBuffers { bgid }).prepared(io_uring_sqe::zeroed())
                &&& final(self)@ == old(self)@.with_acquired(*final(r.unwrap()))
            },
    {
        let op = FreeBuffers::new(bgid);
        self.prepare(&op)
    }

    /// A request to cancel the operation whose entry has the tag `user_data`.
    #[must_use]
    pub fn cancel<'a>(&'a mut self, user_data: u64, flags: u32) -> (r: Option<&'a mut io_uring_sqe>)
        ensures
            r.is_none() <==> old(self)@.sq.is_full(),
            r.is_none() ==> final(self)@ == old(self)@,
            r.is_some() ==> {
                &&& *r.unwrap() == (AsyncCancel {
                    user_data,
                    flags,
                }).prepared(io_uring_sqe::zeroed())
                &&& final(self)@ == old(self)@.with_acquired(*final(r.unwrap()))
            },
    {
        let op = AsyncCancel::new(user_data, flags);
        self.prepare(&op)
    }

    /// A request to cancel every operation that matches.
    #[must_use]
    pub fn cancel_all<'a>(&'a mut self) -> (r: Option<&'a mut io_uring_sqe>)
        ensures
            r.is_none() <==> old(self)@.sq.is_full(),
            r.is_none() ==> final(self)@ == old(self)@,
            r.is_some() ==> {
                &&& *r.unwrap() == (AsyncCancel {
                    user_data: 0,
                    flags: IORING_ASYNC_CANCEL_ALL,
                }).prepared(io_uring_sqe::zeroed())
                &&& final(self)@ == old(self)@.with_acquired(*final(r.unwrap()))
            },
    {
        let op = AsyncCancel::all();
        self.prepare(&op)
    }

    /// A request to cancel any one operation.
    #[must_use]
    pub fn cancel_any<'a>(&'a mut self) -> (r: Option<&'a mut io_uring_sqe>)
        ensures
            r.is_none() <==> old(self)@.sq.is_full(),
            r.is_none() ==> final(self)@ == old(self)@,
            r.is_some() ==> {
                &&& *r.unwrap() == (AsyncCancel {
                    user_data: 0,
                    flags: IORING_ASYNC_CANCEL_ANY,
                }).prepared(io_uring_sqe::zeroed())
                &&& final(self)@ == old(self)@.with_acquired(*final(r.unwrap()))
            },
    {
        let op = AsyncCancel::any();
        self.prepare(&op)
    }

    /// A message to the ring `fd`.
    #[must_use]
    pub fn msg_ring<'a>(
        &'a mut self,
        fd: i32,
        user_data: u64,
        flags: u32,
        len: u32,
    ) -> (r: Option<&'a mut io_uring_sqe>)
        ensures
            r.is_none() <==> old(self)@.sq.is_full(),
            r.is_none() ==> final(self)@ == old(self)@,
            r.is_some() ==> {
                &&& *r.unwrap() == (MsgRing {
                    fd,
                    user_data,
                    flags,
                    len,
                }).prepared(io_uring_sqe::zeroed())
                &&& final(self)@ == old(self)@.with_acquired(*final(r.unwrap()))
            },
    {
        let op = MsgRing::new(fd, user_data, flags, len);
        self.prepare(&op)
    }
}

/// A correlation tag comes back. An entry is handed out, the caller leaves it as `sqe`,
/// and the tail is published; the kernel reads the entry that the index array names for
/// the slot and posts a completion that carries the entry's tag. Where the completion
/// ring was empty and in step with the kernel, the next look at the completions finds
/// an entry whose tag is the tag of `sqe`.
pub proof fn lemma_tag_round_trip(ring: IoUringView, sqe: io_uring_sqe, res: i32, flags: u32)
    requires
        ring.sq.wf(),
        ring.cq.wf(),
        !ring.sq.is_full(),
        ring.cq.is_empty(),
        ring.cq.kernel_tail == ring.cq.tail,
    ensures
        ({
            let slot = ring.sq.next_slot();
            let submitted = ring.with_acquired(sqe).published();
            let read = submitted.sq.sqes[submitted.sq.array[slot] as int];
            let completed = IoUringView {
                cq: submitted.cq.posted(io_uring_cqe { user_data: read.user_data, res, flags }),
                ..submitted
            };
            let seen = completed.harvested();
            &&& submitted.sq.kernel_tail == ring.sq.tail.wrapping_add(1)
            &&& read == sqe
            &&& seen.cq.available() == 1
            &&& seen.cq.cqes[seen.cq.head_slot()].user_data == sqe.user_data
        }),
{
    lemma_mask_is_slot(ring.sq.tail, ring.sq.entries);
    lemma_mask_is_slot(ring.cq.head, ring.cq.entries);
}

} // verus!

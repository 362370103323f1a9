//! A shared mapping, as plain values: where it lies, how long it is, and whether it
//! may be written. Making and releasing the mapping is for the code that owns it; here
//! its outcome is judged and the addresses inside it are computed.

use crate::err::{errno_from_raw, InitError};
use rustix::io::Errno;
use vstd::prelude::*;

verus! {

/// The error number that stands for an invalid argument.
pub const EINVAL: i32 = 22;

/// The protection bit for reading.
pub const PROT_READ: u32 = 0x1;

/// The protection bit for writing.
pub const PROT_WRITE: u32 = 0x2;

/// A shared mapping that was made: its address, its length, and whether it may be
/// written.
#[derive(Debug, Clone, Copy)]
pub struct RwMmap {
    addr: u64,
    size: usize,
    writable: bool,
}

/// What a mapping is, as plain values.
pub struct MmapView {
    /// The address at which the mapping starts.
    pub addr: u64,
    /// Its length in bytes.
    pub size: usize,
    pub writable: bool,
}

impl View for RwMmap {
    type V = MmapView;

    closed spec fn view(&self) -> MmapView {
        MmapView { addr: self.addr, size: self.size, writable: self.writable }
    }
}

/// What is made of the outcome of a mapping call: an error stays an error, and a
/// mapping at address zero counts as failed with an invalid argument.
pub open spec fn mapped(outcome: Result<u64, Errno>, size: usize, writable: bool) -> Result<
    MmapView,
    InitError,
> {
    match outcome {
        Ok(addr) => if addr == 0 {
            Err(InitError::MmapFailed(errno_from_raw(EINVAL)))
        } else {
            Ok(MmapView { addr, size, writable })
        },
        Err(e) => Err(InitError::MmapFailed(e)),
    }
}

impl RwMmap {
    /// The protection to ask for: reading always, writing where `writable`.
    #[must_use]
    pub fn protection(writable: bool) -> (prot: u32)
        ensures
            prot == if writable {
                PROT_READ | PROT_WRITE
            } else {
                PROT_READ
            },
    {
        if writable {
            PROT_READ | PROT_WRITE
        } else {
            PROT_READ
        }
    }

    /// Takes the outcome of a mapping call for `size` bytes: the address, or the error.
    pub fn new(outcome: Result<u64, Errno>, size: usize, writable: bool) -> (r: Result<
        Self,
        InitError,
    >)
        ensures
            r.is_ok() <==> mapped(outcome, size, writable).is_ok(),
            r matches Ok(map) ==> Ok::<MmapView, InitError>(map@) == mapped(
                outcome,
                size,
                writable,
            ),
            r matches Err(e) ==> Err::<MmapView, InitError>(e) == mapped(outcome, size, writable),
    {
        match outcome {
            Ok(addr) => {
                if addr == 0 {
                    Err(InitError::MmapFailed(Errno::from_raw_os_error(EINVAL)))
                } else {
                    Ok(Self { addr, size, writable })
                }
            },
            Err(e) => Err(InitError::MmapFailed(e)),
        }
    }

    /// The address at which the mapping starts.
    #[must_use]
    pub fn as_ptr(&self) -> (addr: u64)
        ensures
            addr == self@.addr,
    {
        self.addr
    }

    /// The address of the `size` bytes that start `offset` bytes into the mapping, or
    /// nothing where they do not lie inside it.
    #[must_use]
    pub fn range(&self, offset: usize, size: usize) -> (addr: Option<u64>)
        ensures
            addr.is_some() <==> offset + size <= self@.size && self@.addr + offset <= u64::MAX,
            addr matches Some(a) ==> a == self@.addr + offset,
    {
        if offset > self.size || size > self.size - offset {
            return None;
        }
        self.addr.checked_add(offset as u64)
    }

    #[must_use]
    pub fn size(&self) -> (size: usize)
        ensures
            size == self@.size,
    {
        self.size
    }

    #[must_use]
    pub fn is_writable(&self) -> (writable: bool)
        ensures
            writable == self@.writable,
    {
        self.writable
    }
}

} // verus!

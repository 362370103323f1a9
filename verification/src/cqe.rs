//! Reading a completion entry: its fields, its flags, and its result as success or error.

use crate::err::errno_from_raw;
use crate::{
    io_uring_cqe,
    IORING_CQE_F_BUFFER,
    IORING_CQE_F_MORE,
    IORING_CQE_F_NOTIFICATION,
    IORING_CQE_F_SOCK_NONEMPTY,
    IORING_CQE_F_TIMEOUT,
};
use rustix::io::Errno;
use vstd::prelude::*;

verus! {

/// The flags of a completion entry, one bit each.
#[derive(Debug, Copy, Clone, PartialEq, Eq)]
pub enum CqeFlags {
    Buffer,
    More,
    SockNonempty,
    Timeout,
    Notification,
}

impl CqeFlags {
    /// The bit that the flag stands for.
    pub open spec fn mask(self) -> u32 {
        match self {
            CqeFlags::Buffer => IORING_CQE_F_BUFFER,
            CqeFlags::More => IORING_CQE_F_MORE,
            CqeFlags::SockNonempty => IORING_CQE_F_SOCK_NONEMPTY,
            CqeFlags::Timeout => IORING_CQE_F_TIMEOUT,
            CqeFlags::Notification => IORING_CQE_F_NOTIFICATION,
        }
    }

    #[must_use]
    pub fn bits(self) -> (bits: u32)
        ensures
            bits == self.mask(),
    {
        match self {
            CqeFlags::Buffer => IORING_CQE_F_BUFFER,
            CqeFlags::More => IORING_CQE_F_MORE,
            CqeFlags::SockNonempty => IORING_CQE_F_SOCK_NONEMPTY,
            CqeFlags::Timeout => IORING_CQE_F_TIMEOUT,
            CqeFlags::Notification => IORING_CQE_F_NOTIFICATION,
        }
    }

    /// The flag whose bit is `bits`, where `bits` is the bit of exactly one flag.
    #[must_use]
    pub fn from_bits(bits: u32) -> (flag: Option<Self>)
        ensures
            flag matches Some(f) ==> f.mask() == bits,
            flag.is_none() ==> forall|f: CqeFlags| f.mask() != bits,
    {
        if bits == IORING_CQE_F_BUFFER {
            Some(CqeFlags::Buffer)
        } else if bits == IORING_CQE_F_MORE {
            Some(CqeFlags::More)
        } else if bits == IORING_CQE_F_SOCK_NONEMPTY {
            Some(CqeFlags::SockNonempty)
        } else if bits == IORING_CQE_F_TIMEOUT {
            Some(CqeFlags::Timeout)
        } else if bits == IORING_CQE_F_NOTIFICATION {
            Some(CqeFlags::Notification)
        } else {
            None
        }
    }
}

#[must_use]
pub fn cqe_result(cqe: &io_uring_cqe) -> (res: i32)
    ensures
        res == cqe.res,
{
    cqe.res
}

#[must_use]
pub fn cqe_user_data(cqe: &io_uring_cqe) -> (user_data: u64)
    ensures
        user_data == cqe.user_data,
{
    cqe.user_data
}

#[must_use]
pub fn cqe_flags(cqe: &io_uring_cqe) -> (flags: u32)
    ensures
        flags == cqe.flags,
{
    cqe.flags
}

/// Whether `res` is a result that the kernel can report: a count, or the negative of
/// one of Linux's error numbers, which lie between 1 and 4095.
pub open spec fn is_kernel_result(res: i32) -> bool {
    res >= -4095
}

/// What a result stands for: a count where it is not negative, else the error whose
/// number is its negative.
pub open spec fn result_of(res: i32) -> Result<i32, Errno> {
    if res >= 0 {
        Ok(res)
    } else {
        Err(errno_from_raw((-res) as i32))
    }
}

/// Reads a result as success or error.
#[must_use]
pub fn cqe_res_to_result(res: i32) -> (r: Result<i32, Errno>)
    requires
        is_kernel_result(res),
    ensures
        r == result_of(res),
{
    if res >= 0 {
        Ok(res)
    } else {
        Err(Errno::from_raw_os_error(-res))
    }
}

/// Reads the result of a completion entry as success or error.
#[must_use]
pub fn cqe_result_to_result(cqe: &io_uring_cqe) -> (r: Result<i32, Errno>)
    requires
        is_kernel_result(cqe.res),
    ensures
        r == result_of(cqe.res),
{
    cqe_res_to_result(cqe.res)
}

/// A flag's bit leads back to the flag: `from_bits` undoes `bits`, and no two flags
/// share a bit.
pub proof fn lemma_flag_bits_round_trip(f: CqeFlags, g: CqeFlags)
    ensures
        f.mask() == g.mask() ==> f == g,
{
}

} // verus!

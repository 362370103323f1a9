//! The errors that ring construction, registration and kernel entry report.

use rustix::io::Errno;
use vstd::prelude::*;
use vstd::std_specs::convert::FromSpecImpl;

verus! {

#[verifier::external_type_specification]
#[verifier::external_body]
pub struct ExErrno(Errno);

/// What `Errno::from_raw_os_error` makes of a raw OS error number.
pub uninterp spec fn errno_from_raw(raw: i32) -> Errno;

/// `rustix::io::Errno::from_raw_os_error`: builds the error value for a raw OS error
/// number. The crate's source stops on a number outside Linux's range of error codes,
/// 1 to 4095, so only those are admitted; for them the result is a function of the
/// number alone.
pub assume_specification[ Errno::from_raw_os_error ](raw: i32) -> (e: Errno)
    requires
        1 <= raw <= 4095,
    ensures
        e == errno_from_raw(raw),
;

/// Why a ring could not be set up or a resource could not be registered.
#[derive(Debug)]
pub enum InitError {
    UnsupportedKernel,
    MmapFailed(Errno),
    FcntlFailed(Errno),
    SyscallFailed(Errno),
    RegisterFailed(Errno),
    InvalidParameters,
    FeatureNotSupported(u32),
}

/// Why entering the kernel failed.
#[derive(Debug)]
pub enum EnterError {
    SyscallFailed(Errno),
    BadOffset,
}

pub type IoUringResult<T> = Result<T, InitError>;

impl From<Errno> for EnterError {
    fn from(e: Errno) -> (err: Self) {
        EnterError::SyscallFailed(e)
    }
}

impl FromSpecImpl<Errno> for EnterError {
    open spec fn obeys_from_spec() -> bool {
        true
    }

    open spec fn from_spec(e: Errno) -> Self {
        EnterError::SyscallFailed(e)
    }
}

} // verus!

//! What the library takes on trust from the standard library and from `nix`.
//!
//! Signals, error numbers and error kinds are enums without fields, so their declarations leave
//! the variants visible: `Signal::SIGKILL` and `Errno::ESRCH` mean in a contract what they mean in
//! code. Process identifiers and I/O errors are opaque and are only carried through.
use nix::errno::Errno;
use nix::unistd::Pid;
use std::time::Duration;
use vstd::prelude::*;

verus! {

/// Declares `nix::sys::signal::Signal`, an enum whose variants have no fields.
#[verifier::external_type_specification]
pub struct ExSignal(nix::sys::signal::Signal);

/// Declares `nix::errno::Errno`, an enum whose variants have no fields.
#[verifier::external_type_specification]
pub struct ExErrno(nix::errno::Errno);

/// Declares `std::io::ErrorKind`, an enum whose variants have no fields.
#[verifier::external_type_specification]
pub struct ExErrorKind(std::io::ErrorKind);

/// Declares `nix::unistd::Pid`, whose raw value is private to `nix`.
#[verifier::external_type_specification]
#[verifier::external_body]
pub struct ExPid(nix::unistd::Pid);

/// Declares `std::io::Error`.
#[verifier::external_type_specification]
#[verifier::external_body]
pub struct ExIoError(std::io::Error);

/// The identifier that `nix::unistd::Pid::from_raw` makes of a raw process identifier.
pub uninterp spec fn pid_from_raw(pid: i32) -> Pid;

/// `nix::unistd::Pid::from_raw` wraps the raw value: which identifier it returns depends on that
/// value alone.
pub assume_specification[ nix::unistd::Pid::from_raw ](pid: i32) -> (result: nix::unistd::Pid)
    ensures
        result == pid_from_raw(pid),
;

/// The error that `std::io::Error::from_raw_os_error` makes of an operating-system error code.
pub uninterp spec fn os_error(code: i32) -> std::io::Error;

/// Calls `std::io::Error::from` on an error number of `nix`, which hands the number's value to
/// `std::io::Error::from_raw_os_error`: the result depends on that value alone.
#[verifier::external_body]
pub(crate) fn io_error(errno: Errno) -> (result: std::io::Error)
    ensures
        result == os_error(errno as i32),
{
    std::io::Error::from(errno)
}

/// What `std::io::Error::kind` returns for an error.
pub uninterp spec fn error_kind(error: std::io::Error) -> std::io::ErrorKind;

/// `std::io::Error::kind` reads the kind off the error and changes nothing: which kind it returns
/// depends on the error alone.
pub assume_specification[ std::io::Error::kind ](error: &std::io::Error) -> (result:
    std::io::ErrorKind)
    ensures
        result == error_kind(*error),
;

/// What `std::time::Duration::as_nanos` returns: how many whole nanoseconds a duration lasts.
pub uninterp spec fn duration_nanos(duration: Duration) -> nat;

/// `std::time::Duration::as_nanos` returns the total number of nanoseconds in the duration, which
/// depends on the duration alone.
pub assume_specification[ std::time::Duration::as_nanos ](duration: &Duration) -> (result: u128)
    ensures
        result == duration_nanos(*duration),
;

} // verus!

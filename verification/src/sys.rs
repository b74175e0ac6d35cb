//! The OS boundary: the few introspection and hardening calls the library
//! makes, each behind a trusted wrapper. Every result here depends on the
//! process's descriptor table, so no wrapper pins its value; the verified
//! decision logic takes the observed values as arguments instead.

use rustix::fd::AsRawFd;
use vstd::prelude::*;

verus! {

/// An exclusively owned OS descriptor: ownership transfers by move, and
/// dropping it closes the underlying resource.
#[verifier::external_type_specification]
#[verifier::external_body]
pub struct ExOwnedFd(rustix::fd::OwnedFd);

/// Relies on rustix::fd::AsRawFd::as_raw_fd: reports the descriptor's
/// number, so a diagnostic can name it.
#[verifier::external_body]
pub(crate) fn raw_fd_number(fd: &rustix::fd::OwnedFd) -> i32 {
    fd.as_raw_fd()
}

/// Relies on rustix::fs::fstat: queries the descriptor's file status and
/// yields its raw mode word, whose file-type bits tell a socket apart, or
/// `None` where the query failed.
#[verifier::external_body]
pub(crate) fn fstat_mode(fd: &rustix::fd::OwnedFd) -> Option<u32> {
    match rustix::fs::fstat(fd) {
        Ok(stat) => Some(stat.st_mode),
        Err(_) => None,
    }
}

/// Relies on rustix::net::getsockname: queries the socket's bound local
/// address and yields the raw address family it reports, or `None` where
/// the query failed (as it does on a descriptor that is no socket).
#[verifier::external_body]
pub(crate) fn sockname_family(fd: &rustix::fd::OwnedFd) -> Option<u16> {
    match rustix::net::getsockname(fd) {
        Ok(addr) => Some(addr.address_family().as_raw()),
        Err(_) => None,
    }
}

/// Relies on rustix::net::sockopt::socket_type: queries the socket's
/// `SO_TYPE` option and yields the raw socket type, or `None` where the
/// query failed.
#[verifier::external_body]
pub(crate) fn sockopt_type(fd: &rustix::fd::OwnedFd) -> Option<u32> {
    match rustix::net::sockopt::socket_type(fd) {
        Ok(t) => Some(t.as_raw()),
        Err(_) => None,
    }
}

/// Relies on rustix::io::fcntl_setfd: replaces the descriptor's flag word
/// with the close-on-exec flag alone. Yields the raw OS error where that
/// failed, and `None` where the flag is now set.
#[verifier::external_body]
pub(crate) fn set_cloexec(fd: &rustix::fd::OwnedFd) -> Option<i32> {
    match rustix::io::fcntl_setfd(fd, rustix::io::FdFlags::CLOEXEC) {
        Ok(()) => None,
        Err(errno) => Some(errno.raw_os_error()),
    }
}

} // verus!

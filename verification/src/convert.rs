//! The validate-then-convert step: classify a raw inherited descriptor,
//! reject it (returning it unconsumed) unless it is a socket of the expected
//! family and type, then set close-on-exec so it cannot leak into exec'd
//! children. Only after both steps succeed may a caller move the descriptor
//! into its typed socket handle; that final move cannot fail.

use crate::error::ConvertError;
use crate::identity::identity_fault;
use crate::identity::ConvertFault;
use crate::identity::SocketFamily;
use crate::identity::SocketIdentity;
use crate::identity::SocketKind;
use crate::sys;
use vstd::prelude::*;

verus! {

/// The raw owned descriptor conversions work on: an exclusively owned OS
/// handle; dropping it closes the underlying resource.
pub type FdType = rustix::fd::OwnedFd;

/// Whether the file-type bits of a status mode word name a socket: the type
/// sits in the high nibble of the low 16 bits, and a socket's is `0xC`.
pub open spec fn spec_mode_is_socket(mode: u32) -> bool {
    mode & 0xF000 == 0xC000
}

/// Executable counterpart of [`spec_mode_is_socket`].
pub fn mode_is_socket(mode: u32) -> (r: bool)
    ensures
        r == spec_mode_is_socket(mode),
{
    mode & 0xF000 == 0xC000
}

/// The fail-closed rule on a status query: only a mode word that was
/// obtained and whose file-type bits name a socket counts; a query the OS
/// refused (`None`) counts as "not a socket".
pub fn opt_mode_is_socket(mode: Option<u32>) -> (r: bool)
    ensures
        r == (mode matches Some(m) && spec_mode_is_socket(m)),
{
    match mode {
        Some(m) => mode_is_socket(m),
        None => false,
    }
}

/// Whether the descriptor is an open socket, by the fail-closed rule of
/// [`opt_mode_is_socket`] on its status query.
pub fn is_sock(fd: &FdType) -> bool {
    opt_mode_is_socket(sys::fstat_mode(fd))
}

/// Pure inspection of a descriptor: whether it is a socket, and if so what
/// the OS reports as its address family and socket type. Never consumes or
/// alters the descriptor. A query the OS refuses is recorded as `None`,
/// which validation treats as a mismatch. A non-socket carries no family
/// and no type: those are queried only of a socket.
pub fn classify(fd: &FdType) -> (id: SocketIdentity)
    ensures
        !id.is_socket ==> id.family is None && id.kind is None,
{
    if !is_sock(fd) {
        SocketIdentity { is_socket: false, family: None, kind: None }
    } else {
        SocketIdentity {
            is_socket: true,
            family: sys::sockname_family(fd),
            kind: sys::sockopt_type(fd),
        }
    }
}

/// Rejects the descriptor unless its observed identity satisfies the
/// expected family and type. On rejection the descriptor itself comes back
/// unconsumed, beside an error that names it and the expected kind.
pub fn validate_socket(
    fd: FdType,
    sock_fam: SocketFamily,
    sock_type: SocketKind,
    hint: &str,
) -> (r: Result<FdType, (ConvertError, FdType)>)
    ensures
        r matches Ok(f) ==> f == fd,
        r matches Err(p) ==> p.1 == fd && p.0.hint@ == hint@ && (p.0.fault
            == ConvertFault::NotASocket || p.0.fault == ConvertFault::WrongFamily || p.0.fault
            == ConvertFault::WrongType),
{
    let id = classify(&fd);
    match identity_fault(&id, sock_fam, sock_type) {
        None => Ok(fd),
        Some(fault) => {
            let number = sys::raw_fd_number(&fd);
            Err((ConvertError { fault, fd: number, hint: String::from_str(hint), errno: 0 }, fd))
        },
    }
}

/// Sets the close-on-exec flag on the descriptor, so it is not leaked into
/// child processes exec'd later. Failure is a conversion failure, not a
/// cosmetic one: the descriptor comes back unconsumed beside the error.
pub fn mark_cloexec(fd: FdType) -> (r: Result<FdType, (ConvertError, FdType)>)
    ensures
        r matches Ok(f) ==> f == fd,
        r matches Err(p) ==> p.1 == fd && p.0.fault == ConvertFault::HardeningFailed,
{
    match sys::set_cloexec(&fd) {
        None => Ok(fd),
        Some(errno) => {
            let number = sys::raw_fd_number(&fd);
            Err(
                (
                    ConvertError {
                        fault: ConvertFault::HardeningFailed,
                        fd: number,
                        hint: String::new(),
                        errno,
                    },
                    fd,
                ),
            )
        },
    }
}

/// The whole validate-then-harden step for one descriptor: on success the
/// returned descriptor is the same one, validated and marked close-on-exec,
/// ready to move into a typed handle; on failure the descriptor comes back
/// unconsumed beside a structured error.
pub fn convert_socket(
    fd: FdType,
    sock_fam: SocketFamily,
    sock_type: SocketKind,
    hint: &str,
) -> (r: Result<FdType, (ConvertError, FdType)>)
    ensures
        r matches Ok(f) ==> f == fd,
        r matches Err(p) ==> p.1 == fd,
        r matches Err(p) ==> p.0.fault == ConvertFault::NotASocket || p.0.fault
            == ConvertFault::WrongFamily || p.0.fault == ConvertFault::WrongType || p.0.fault
            == ConvertFault::HardeningFailed,
        r matches Err(p) ==> (p.0.fault != ConvertFault::HardeningFailed ==> p.0.hint@ == hint@),
{
    match validate_socket(fd, sock_fam, sock_type, hint) {
        Ok(validated) => mark_cloexec(validated),
        Err(pair) => Err(pair),
    }
}

/// Prepares `fd` as a stream listener over IP: IPv4 expected, with an
/// observed IPv6 family also accepted (dual-stack listeners report IPv6
/// even when serving IPv4-mapped traffic).
pub fn convert_tcp_listener(fd: FdType) -> (r: Result<FdType, (ConvertError, FdType)>)
    ensures
        r matches Ok(f) ==> f == fd,
        r matches Err(p) ==> p.1 == fd,
        r matches Err(p) ==> (p.0.fault != ConvertFault::HardeningFailed ==> p.0.hint@
            == "unix stream socket"@),
{
    convert_socket(fd, SocketFamily::Ipv4, SocketKind::Stream, "unix stream socket")
}

/// Prepares `fd` as a local-domain stream listener.
pub fn convert_unix_listener(fd: FdType) -> (r: Result<FdType, (ConvertError, FdType)>)
    ensures
        r matches Ok(f) ==> f == fd,
        r matches Err(p) ==> p.1 == fd,
        r matches Err(p) ==> (p.0.fault != ConvertFault::HardeningFailed ==> p.0.hint@
            == "unix socket"@),
{
    convert_socket(fd, SocketFamily::Local, SocketKind::Stream, "unix socket")
}

/// Prepares `fd` as a datagram socket over IP: IPv4 expected, an observed
/// IPv6 family also accepted.
pub fn convert_udp_socket(fd: FdType) -> (r: Result<FdType, (ConvertError, FdType)>)
    ensures
        r matches Ok(f) ==> f == fd,
        r matches Err(p) ==> p.1 == fd,
        r matches Err(p) ==> (p.0.fault != ConvertFault::HardeningFailed ==> p.0.hint@
            == "udp socket"@),
{
    convert_socket(fd, SocketFamily::Ipv4, SocketKind::Datagram, "udp socket")
}

/// Prepares `fd` as a local-domain datagram socket.
pub fn convert_unix_datagram(fd: FdType) -> (r: Result<FdType, (ConvertError, FdType)>)
    ensures
        r matches Ok(f) ==> f == fd,
        r matches Err(p) ==> p.1 == fd,
        r matches Err(p) ==> (p.0.fault != ConvertFault::HardeningFailed ==> p.0.hint@
            == "unix datagram socket"@),
{
    convert_socket(fd, SocketFamily::Local, SocketKind::Datagram, "unix datagram socket")
}

} // verus!

//! The descriptor classification policy: what a socket's observed identity
//! is, and when it satisfies a caller's expectation.
//!
//! The observed identity is gathered from the OS by [`crate::convert`]; the
//! acceptance decision here is pure and works on the plain observed values,
//! so it holds whatever the OS reported.

use vstd::prelude::*;

verus! {

/// Raw address-family number of IPv4 sockets (`AF_INET`).
pub const AF_INET: u16 = 2;

/// Raw address-family number of IPv6 sockets (`AF_INET6`).
pub const AF_INET6: u16 = 10;

/// Raw address-family number of local-domain sockets (`AF_UNIX`).
pub const AF_UNIX: u16 = 1;

/// Raw socket-type number of stream sockets (`SOCK_STREAM`).
pub const SOCK_STREAM: u32 = 1;

/// Raw socket-type number of datagram sockets (`SOCK_DGRAM`).
pub const SOCK_DGRAM: u32 = 2;

/// Address family a caller can expect of an inherited socket.
///
/// The raw values follow the `AF_*` numbering; `Other` carries a raw family
/// number directly, for callers validating into a family not named here.
#[derive(Clone, Copy, Debug, PartialEq, Eq, Structural)]
pub enum SocketFamily {
    Ipv4,
    Ipv6,
    Local,
    Other(u16),
}

impl SocketFamily {
    /// The raw OS address-family number this expectation stands for.
    pub open spec fn spec_raw(self) -> u16 {
        match self {
            SocketFamily::Ipv4 => AF_INET,
            SocketFamily::Ipv6 => AF_INET6,
            SocketFamily::Local => AF_UNIX,
            SocketFamily::Other(raw) => raw,
        }
    }

    /// Executable counterpart of [`Self::spec_raw`].
    pub fn raw(self) -> (r: u16)
        ensures
            r == self.spec_raw(),
    {
        match self {
            SocketFamily::Ipv4 => AF_INET,
            SocketFamily::Ipv6 => AF_INET6,
            SocketFamily::Local => AF_UNIX,
            SocketFamily::Other(raw) => raw,
        }
    }
}

/// Socket type a caller can expect of an inherited socket.
///
/// The raw values follow the `SOCK_*` numbering; `Other` carries a raw
/// socket-type number directly.
#[derive(Clone, Copy, Debug, PartialEq, Eq, Structural)]
pub enum SocketKind {
    Stream,
    Datagram,
    Other(u32),
}

impl SocketKind {
    /// The raw OS socket-type number this expectation stands for.
    pub open spec fn spec_raw(self) -> u32 {
        match self {
            SocketKind::Stream => SOCK_STREAM,
            SocketKind::Datagram => SOCK_DGRAM,
            SocketKind::Other(raw) => raw,
        }
    }

    /// Executable counterpart of [`Self::spec_raw`].
    pub fn raw(self) -> (r: u32)
        ensures
            r == self.spec_raw(),
    {
        match self {
            SocketKind::Stream => SOCK_STREAM,
            SocketKind::Datagram => SOCK_DGRAM,
            SocketKind::Other(raw) => raw,
        }
    }
}

/// What OS introspection reported of a descriptor: whether it is a socket at
/// all, and, where the respective query succeeded, the raw address family of
/// its bound address and its raw socket type. `None` records a failed query,
/// which the acceptance policy treats as a mismatch (fail closed).
#[derive(Clone, Copy, Debug, PartialEq, Eq)]
pub struct SocketIdentity {
    pub is_socket: bool,
    pub family: Option<u16>,
    pub kind: Option<u32>,
}

/// Faults that make a descriptor unfit for the requested conversion.
#[derive(Clone, Copy, Debug, PartialEq, Eq, Structural)]
pub enum ConvertFault {
    /// The descriptor is no socket: a file, a pipe, or not open at all.
    NotASocket,
    /// The socket's address family is not accepted for the expected one.
    WrongFamily,
    /// The socket's type differs from the expected one.
    WrongType,
    /// The close-on-exec flag could not be set on the descriptor.
    HardeningFailed,
}

/// Whether an observed raw address family satisfies the expected one.
///
/// An expectation of IPv4 also accepts an observed family of IPv6: dual-stack
/// listeners commonly report IPv6 even when they serve IPv4-mapped traffic.
/// Every other mismatch is rejected.
pub open spec fn spec_family_accepted(expected: SocketFamily, actual: u16) -> bool {
    actual == expected.spec_raw() || (actual == AF_INET6 && expected.spec_raw() == AF_INET)
}

/// Executable counterpart of [`spec_family_accepted`].
pub fn family_accepted(expected: SocketFamily, actual: u16) -> (r: bool)
    ensures
        r == spec_family_accepted(expected, actual),
{
    let raw = expected.raw();
    actual == raw || (actual == AF_INET6 && raw == AF_INET)
}

/// The fault, if any, that an observed identity draws when held against an
/// expected family and type: not a socket at all; else a family that is
/// unknown or not accepted; else a type that is unknown or differs. Socket
/// types never stand in for one another: they must match exactly.
pub open spec fn spec_identity_fault(
    id: SocketIdentity,
    expected_family: SocketFamily,
    expected_kind: SocketKind,
) -> Option<ConvertFault> {
    if !id.is_socket {
        Some(ConvertFault::NotASocket)
    } else if !(id.family matches Some(f) && spec_family_accepted(expected_family, f)) {
        Some(ConvertFault::WrongFamily)
    } else if id.kind != Some(expected_kind.spec_raw()) {
        Some(ConvertFault::WrongType)
    } else {
        None
    }
}

/// Executable counterpart of [`spec_identity_fault`]: the single
/// validate-or-reject decision of the classifier.
pub fn identity_fault(
    id: &SocketIdentity,
    expected_family: SocketFamily,
    expected_kind: SocketKind,
) -> (r: Option<ConvertFault>)
    ensures
        r == spec_identity_fault(*id, expected_family, expected_kind),
{
    if !id.is_socket {
        return Some(ConvertFault::NotASocket);
    }
    let family_ok = match id.family {
        Some(f) => family_accepted(expected_family, f),
        None => false,
    };
    if !family_ok {
        return Some(ConvertFault::WrongFamily);
    }
    let kind_ok = match id.kind {
        Some(k) => k == expected_kind.raw(),
        None => false,
    };
    if !kind_ok {
        return Some(ConvertFault::WrongType);
    }
    None
}

/// A descriptor that is observed not to be a socket never validates: the
/// fault is `NotASocket`, whatever family and type were expected.
pub proof fn lemma_non_socket_rejected(
    id: SocketIdentity,
    expected_family: SocketFamily,
    expected_kind: SocketKind,
)
    requires
        !id.is_socket,
    ensures
        spec_identity_fault(id, expected_family, expected_kind) == Some(ConvertFault::NotASocket),
{
}

/// Dual-stack leniency: a socket observed with family IPv6 and exactly the
/// expected socket type validates against an expectation of IPv4.
pub proof fn lemma_dual_stack_leniency(id: SocketIdentity, expected_kind: SocketKind)
    requires
        id.is_socket,
        id.family == Some(AF_INET6),
        id.kind == Some(expected_kind.spec_raw()),
    ensures
        spec_identity_fault(id, SocketFamily::Ipv4, expected_kind) == None::<ConvertFault>,
{
}

/// Socket types are never interchangeable: a socket whose observed type
/// differs from the expected one is rejected as `WrongType`, even where its
/// family is accepted.
pub proof fn lemma_type_mismatch_rejected(
    id: SocketIdentity,
    expected_family: SocketFamily,
    expected_kind: SocketKind,
)
    requires
        id.is_socket,
        id.family matches Some(f) && spec_family_accepted(expected_family, f),
        id.kind != Some(expected_kind.spec_raw()),
    ensures
        spec_identity_fault(id, expected_family, expected_kind) == Some(ConvertFault::WrongType),
{
}

/// Validation is fault-free exactly when the descriptor is a socket whose
/// observed family is accepted for the expected one and whose observed type
/// matches the expected one exactly.
pub proof fn lemma_fault_free_iff_matching(
    id: SocketIdentity,
    expected_family: SocketFamily,
    expected_kind: SocketKind,
)
    ensures
        spec_identity_fault(id, expected_family, expected_kind) is None <==> (id.is_socket
            && (id.family matches Some(f) && spec_family_accepted(expected_family, f))
            && id.kind == Some(expected_kind.spec_raw())),
{
}

} // verus!

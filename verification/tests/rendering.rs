//! Decimal rendering, the identity policy on plain observed values, and the
//! error descriptions built from them.

use sockact::identity::identity_fault;
use sockact::identity::SocketFamily;
use sockact::identity::SocketIdentity;
use sockact::identity::SocketKind;
use sockact::numeral::i32_dec;
use sockact::numeral::u64_dec;
use sockact::ConvertError;
use sockact::ConvertFault;

#[test]
fn unsigned_decimal_rendering() {
    assert_eq!(u64_dec(0), "0");
    assert_eq!(u64_dec(7), "7");
    assert_eq!(u64_dec(10), "10");
    assert_eq!(u64_dec(409), "409");
    assert_eq!(u64_dec(18446744073709551615), "18446744073709551615");
}

#[test]
fn signed_decimal_rendering() {
    assert_eq!(i32_dec(0), "0");
    assert_eq!(i32_dec(42), "42");
    assert_eq!(i32_dec(-1), "-1");
    assert_eq!(i32_dec(-409), "-409");
    assert_eq!(i32_dec(i32::MAX), "2147483647");
    assert_eq!(i32_dec(i32::MIN), "-2147483648");
}

fn socket_identity(family: u16, kind: u32) -> SocketIdentity {
    SocketIdentity { is_socket: true, family: Some(family), kind: Some(kind) }
}

#[test]
fn non_sockets_are_rejected_whatever_was_expected() {
    let id = SocketIdentity { is_socket: false, family: None, kind: None };
    for family in [SocketFamily::Ipv4, SocketFamily::Ipv6, SocketFamily::Local] {
        for kind in [SocketKind::Stream, SocketKind::Datagram] {
            assert_eq!(identity_fault(&id, family, kind), Some(ConvertFault::NotASocket));
        }
    }
}

#[test]
fn exact_family_and_type_match_is_accepted() {
    assert_eq!(identity_fault(&socket_identity(2, 1), SocketFamily::Ipv4, SocketKind::Stream), None);
    assert_eq!(identity_fault(&socket_identity(10, 2), SocketFamily::Ipv6, SocketKind::Datagram), None);
    assert_eq!(identity_fault(&socket_identity(1, 2), SocketFamily::Local, SocketKind::Datagram), None);
}

#[test]
fn ipv4_expectation_accepts_an_ipv6_socket() {
    assert_eq!(identity_fault(&socket_identity(10, 1), SocketFamily::Ipv4, SocketKind::Stream), None);
    // The leniency is by raw family value, so a raw IPv4 expectation gets it too.
    assert_eq!(identity_fault(&socket_identity(10, 1), SocketFamily::Other(2), SocketKind::Stream), None);
    // It runs one way only: an IPv6 expectation does not accept IPv4.
    assert_eq!(
        identity_fault(&socket_identity(2, 1), SocketFamily::Ipv6, SocketKind::Stream),
        Some(ConvertFault::WrongFamily)
    );
}

#[test]
fn type_mismatch_is_rejected_even_with_leniency() {
    assert_eq!(
        identity_fault(&socket_identity(10, 2), SocketFamily::Ipv4, SocketKind::Stream),
        Some(ConvertFault::WrongType)
    );
    assert_eq!(
        identity_fault(&socket_identity(1, 1), SocketFamily::Local, SocketKind::Datagram),
        Some(ConvertFault::WrongType)
    );
}

#[test]
fn failed_queries_count_as_mismatches() {
    let no_family = SocketIdentity { is_socket: true, family: None, kind: Some(1) };
    assert_eq!(
        identity_fault(&no_family, SocketFamily::Ipv4, SocketKind::Stream),
        Some(ConvertFault::WrongFamily)
    );
    let no_kind = SocketIdentity { is_socket: true, family: Some(2), kind: None };
    assert_eq!(
        identity_fault(&no_kind, SocketFamily::Ipv4, SocketKind::Stream),
        Some(ConvertFault::WrongType)
    );
}

#[test]
fn descriptions_name_the_descriptor_and_the_expected_kind() {
    let not_a_socket = ConvertError {
        fault: ConvertFault::NotASocket,
        fd: 7,
        hint: "udp socket".to_string(),
        errno: 0,
    };
    assert_eq!(not_a_socket.describe(), "fd 7 is not a socket");

    let wrong_family = ConvertError {
        fault: ConvertFault::WrongFamily,
        fd: 12,
        hint: "unix stream socket".to_string(),
        errno: 0,
    };
    assert_eq!(wrong_family.describe(), "fd 12 is not a valid unix stream socket");

    let wrong_type = ConvertError {
        fault: ConvertFault::WrongType,
        fd: -3,
        hint: "udp socket".to_string(),
        errno: 0,
    };
    assert_eq!(wrong_type.describe(), "fd -3 is not a valid udp socket");

    let hardening = ConvertError {
        fault: ConvertFault::HardeningFailed,
        fd: 9,
        hint: String::new(),
        errno: 13,
    };
    assert_eq!(hardening.describe(), "fd 9 cannot be marked close-on-exec (errno 13)");
}

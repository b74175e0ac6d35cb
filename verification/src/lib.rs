//! Socket-activation handoff: recover inherited listening sockets announced
//! through a pair of environment signals, validate that each descriptor
//! really is a socket of the expected address family and socket type, and
//! harden it with close-on-exec before it is handed to application code.
//!
//! Descriptor numbers announced this way are untrusted input: a misconfigured
//! supervisor or descriptor reuse can hand the process a closed, non-socket,
//! or wrong-type descriptor. Every failure path here therefore returns the
//! original descriptor to the caller unconsumed, paired with a structured
//! error, so no resource is silently leaked.

pub mod activation;
pub mod convert;
pub mod error;
pub mod identity;
pub mod numeral;
mod sys;

pub use activation::acquire_activation;
pub use activation::activation_fd_numbers;
pub use activation::authorized;
pub use activation::parse_count;
pub use activation::parse_pid;
pub use convert::classify;
pub use convert::convert_socket;
pub use convert::convert_tcp_listener;
pub use convert::convert_udp_socket;
pub use convert::convert_unix_datagram;
pub use convert::convert_unix_listener;
pub use convert::is_sock;
pub use convert::mark_cloexec;
pub use convert::validate_socket;
pub use convert::FdType;
pub use error::ConvertError;
pub use identity::ConvertFault;
pub use identity::SocketFamily;
pub use identity::SocketIdentity;
pub use identity::SocketKind;

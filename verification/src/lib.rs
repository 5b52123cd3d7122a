//! An ICMP datagram socket over a cooperatively polled network stack.
//!
//! The stack owns the socket registry; a socket adapter holds a handle into
//! it and offers non-blocking receive, send and flush polls, each of which
//! either completes or leaves a waker behind.

pub mod address;
pub mod decision;
pub mod error;
pub mod laws;
pub mod model;
pub mod registry;
pub mod socket;
pub mod stack;

pub use address::Endpoint;
pub use address::IpAddress;
pub use address::ListenEndpoint;
pub use error::RecvError;
pub use error::SendError;
pub use stack::NetworkStack;
pub use socket::IcmpSocket;

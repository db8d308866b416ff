//! TCP and UDP, over `bsdsocket.library`.
//!
//! Sockets have descriptors of their own kind, which no file call takes. There is IPv4 only.
//! Blocking works; a wish for a timeout is refused, for the library does not keep one.
pub mod addr;
pub mod call;
pub mod lookup;
pub mod open;
pub mod socket;
pub mod tcp;
pub mod udp;

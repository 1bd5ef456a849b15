//! XPUB and XSUB sockets on top of ZeroMQ.
//!
//! The library holds the parts of the XPUB/XSUB socket types that decide
//! something: the layout of the subscription messages an XSUB socket sends
//! upstream, the mapping of ZeroMQ results to this crate's error type, and
//! the socket options an XPUB socket exposes.
pub mod error;
pub mod socket_types;
pub mod subscription;
mod zmq_api;

pub use error::{Result, TmqError};
pub use socket_types::xpub::Xpub;
pub use socket_types::xsub::Xsub;
pub use subscription::SubscriptionKind;

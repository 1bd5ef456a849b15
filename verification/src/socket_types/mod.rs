//! The socket types.
pub mod xpub;
pub mod xsub;

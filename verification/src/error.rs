//! The error type of the crate and the mapping of ZeroMQ results onto it.
use vstd::prelude::*;

verus! {

/// Errors reported by the socket types of this crate.
#[derive(Debug)]
pub enum TmqError {
    /// An error reported by ZeroMQ.
    Zmq(zmq::Error),
}

/// Result type of the crate.
pub type Result<T> = core::result::Result<T, TmqError>;

/// What `from_zmq` turns a ZeroMQ result into: a success is kept, a ZeroMQ
/// error is wrapped in `TmqError::Zmq`.
pub open spec fn zmq_mapped<T>(r: core::result::Result<T, zmq::Error>) -> Result<T> {
    match r {
        Ok(v) => Ok(v),
        Err(e) => Err(TmqError::Zmq(e)),
    }
}

/// Converts the result of a ZeroMQ call into a result of this crate.
pub fn from_zmq<T>(r: core::result::Result<T, zmq::Error>) -> (res: Result<T>)
    ensures
        res == zmq_mapped(r),
{
    match r {
        Ok(v) => Ok(v),
        Err(e) => Err(TmqError::Zmq(e)),
    }
}

} // verus!

//! The ZeroMQ items the library calls, with what is believed of them.
//!
//! Every result below depends on the state of the underlying libzmq socket
//! (its type, whether its context was terminated, what it was bound to), so
//! none of these items promises success or gives its result as a function of
//! its arguments. What they do state is which socket and which value each
//! call was made with, through the predicates below: each predicate has no
//! definition and holds only where a call reported it. When libzmq
//! reports an errno that the `zmq` crate does not know, the crate's error
//! conversion panics; nothing here can rule that out.
use vstd::prelude::*;

use crate::socket_types::xpub::{Xpub, XpubOptionWrite};

verus! {

/// A ZeroMQ socket handle (`zmq::Socket`), carried through opaquely.
#[verifier::external_type_specification]
#[verifier::external_body]
pub struct ExZmqSocket(zmq::Socket);

/// An error reported by ZeroMQ (`zmq::Error`), carried through opaquely.
#[verifier::external_type_specification]
#[verifier::external_body]
pub struct ExZmqError(zmq::Error);

/// A request to set `ZMQ_XPUB_VERBOSE` to `verbose` (1 or 0) on `socket` was
/// answered with `r`: `Ok(())` when libzmq accepted it, else its error.
pub uninterp spec fn xpub_verbose_set_reported(
    socket: zmq::Socket,
    verbose: bool,
    r: core::result::Result<(), zmq::Error>,
) -> bool;

/// A request to set `ZMQ_XPUB_WELCOME_MSG` on `socket` to the text `msg`, or
/// to clear it for `None`, was answered with `r`: `Ok(())` when libzmq
/// accepted it, else its error.
pub uninterp spec fn xpub_welcome_msg_set_reported(
    socket: zmq::Socket,
    msg: Option<Seq<char>>,
    r: core::result::Result<(), zmq::Error>,
) -> bool;

/// A read of `ZMQ_LAST_ENDPOINT` on `socket` reported `r`: the endpoint text,
/// the raw bytes of an endpoint that is not UTF-8, or ZeroMQ's error.
pub uninterp spec fn last_endpoint_reported(
    socket: zmq::Socket,
    r: core::result::Result<core::result::Result<Seq<char>, Seq<u8>>, zmq::Error>,
) -> bool;

/// `e` is `zmq::Error::EINVAL`.
pub uninterp spec fn zmq_error_is_einval(e: zmq::Error) -> bool;

/// The text of an optional string, as characters.
pub open spec fn optional_text(msg: Option<&str>) -> Option<Seq<char>> {
    match msg {
        Some(s) => Some(s@),
        None => None,
    }
}

/// What a read of the last endpoint reported, by the views of its parts.
pub open spec fn endpoint_read_view(
    r: core::result::Result<core::result::Result<String, Vec<u8>>, zmq::Error>,
) -> core::result::Result<core::result::Result<Seq<char>, Seq<u8>>, zmq::Error> {
    match r {
        Ok(Ok(s)) => Ok(Ok(s@)),
        Ok(Err(b)) => Ok(Err(b@)),
        Err(e) => Err(e),
    }
}

/// Calls `zmq::Socket::set_xpub_verbose`, which sets `ZMQ_XPUB_VERBOSE` on
/// `socket` to 1 or 0 as `verbose` says and reports libzmq's answer. Whether
/// libzmq accepts it depends on the socket, so success is not claimed; the
/// result is said to be the answer to this very value on this very socket.
/// The handle keeps its socket, and its ghost log of option writes (which
/// exists only for proofs) gains this one request and whether libzmq
/// accepted it, the body making exactly that one request.
#[verifier::external_body]
pub(crate) fn socket_set_xpub_verbose(xpub: &mut Xpub, verbose: bool) -> (r: core::result::Result<
    (),
    zmq::Error,
>)
    ensures
        xpub_verbose_set_reported(old(xpub).zmq_socket(), verbose, r),
        final(xpub).zmq_socket() == old(xpub).zmq_socket(),
        final(xpub).option_writes() == old(xpub).option_writes().push(
            XpubOptionWrite::Verbose { value: verbose, accepted: r is Ok },
        ),
{
    xpub.socket.set_xpub_verbose(verbose)
}

/// Calls `zmq::Socket::set_xpub_welcome_msg`, which sets
/// `ZMQ_XPUB_WELCOME_MSG` on `socket` to the given text, or clears it for
/// `None`, and reports libzmq's answer. Whether libzmq accepts it depends on
/// the socket, so success is not claimed; the result is said to be the
/// answer to this very text (or the clearing) on this very socket.
/// The handle keeps its socket, and its ghost log of option writes (which
/// exists only for proofs) gains this one request and whether libzmq
/// accepted it, the body making exactly that one request.
#[verifier::external_body]
pub(crate) fn socket_set_xpub_welcome_msg(xpub: &mut Xpub, msg: Option<&str>) -> (r:
    core::result::Result<(), zmq::Error>)
    ensures
        xpub_welcome_msg_set_reported(old(xpub).zmq_socket(), optional_text(msg), r),
        final(xpub).zmq_socket() == old(xpub).zmq_socket(),
        final(xpub).option_writes() == old(xpub).option_writes().push(
            XpubOptionWrite::WelcomeMsg { text: optional_text(msg), accepted: r is Ok },
        ),
{
    xpub.socket.set_xpub_welcome_msg(msg)
}

/// Calls `zmq::Socket::get_last_endpoint`, which reads `ZMQ_LAST_ENDPOINT`
/// of `socket` and hands back the text, or its raw bytes when they are not
/// UTF-8. What comes back depends on what the socket was bound to, and may
/// change between reads (the socket can be bound through a shared
/// reference), so the result is only said to be what this read reported.
#[verifier::external_body]
pub(crate) fn socket_get_last_endpoint(socket: &zmq::Socket) -> (r: core::result::Result<
    core::result::Result<String, Vec<u8>>,
    zmq::Error,
>)
    ensures
        last_endpoint_reported(*socket, endpoint_read_view(r)),
{
    socket.get_last_endpoint()
}

/// Hands out `zmq::Error::EINVAL`.
#[verifier::external_body]
pub(crate) fn zmq_invalid_argument() -> (e: zmq::Error)
    ensures
        zmq_error_is_einval(e),
{
    zmq::Error::EINVAL
}

} // verus!

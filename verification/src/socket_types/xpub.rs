//! The XPUB socket.
use vstd::prelude::*;

use crate::error::{from_zmq, zmq_mapped, Result, TmqError};
use crate::zmq_api::{
    endpoint_read_view, last_endpoint_reported, optional_text, socket_get_last_endpoint,
    socket_set_xpub_verbose, socket_set_xpub_welcome_msg, xpub_verbose_set_reported,
    xpub_welcome_msg_set_reported, zmq_error_is_einval, zmq_invalid_argument,
};

verus! {

/// XPUB socket.
///
/// The XPUB socket is like PUB except that it can also receive
/// subscription messages from subscribers.
pub struct Xpub {
    pub(crate) socket: zmq::Socket,
    /// The option writes requested through this handle, oldest first.
    pub(crate) writes: Ghost<Seq<XpubOptionWrite>>,
}

/// An option write requested from libzmq through an `Xpub` handle, and
/// whether libzmq accepted it.
pub enum XpubOptionWrite {
    /// `ZMQ_XPUB_VERBOSE` set to `value`.
    Verbose { value: bool, accepted: bool },
    /// `ZMQ_XPUB_WELCOME_MSG` set to the text `text`, or cleared for `None`.
    WelcomeMsg { text: Option<Seq<char>>, accepted: bool },
}

/// The verbose setting that a sequence of option writes leaves on the
/// socket: the value of the last accepted verbose write, or `None` when no
/// verbose write was accepted.
pub open spec fn verbose_after(writes: Seq<XpubOptionWrite>) -> Option<bool>
    decreases writes.len(),
{
    if writes.len() == 0 {
        None
    } else {
        match writes.last() {
            XpubOptionWrite::Verbose { value, accepted: true } => Some(value),
            _ => verbose_after(writes.drop_last()),
        }
    }
}

/// The welcome message that a sequence of option writes leaves on the
/// socket: the text (or the clearing) of the last accepted welcome-message
/// write, or `None` when no such write was accepted.
pub open spec fn welcome_msg_after(writes: Seq<XpubOptionWrite>) -> Option<Option<Seq<char>>>
    decreases writes.len(),
{
    if writes.len() == 0 {
        None
    } else {
        match writes.last() {
            XpubOptionWrite::WelcomeMsg { text, accepted: true } => Some(text),
            _ => welcome_msg_after(writes.drop_last()),
        }
    }
}

/// The last accepted write of an option decides its setting: after an
/// accepted verbose write of `v`, the verbose setting is `v`; a rejected
/// verbose write, and any welcome-message write, leave it as it was.
pub proof fn lemma_verbose_last_accepted_write_wins(
    writes: Seq<XpubOptionWrite>,
    v: bool,
    text: Option<Seq<char>>,
    accepted: bool,
)
    ensures
        verbose_after(writes.push(XpubOptionWrite::Verbose { value: v, accepted: true })) == Some(v),
        verbose_after(writes.push(XpubOptionWrite::Verbose { value: v, accepted: false }))
            == verbose_after(writes),
        verbose_after(writes.push(XpubOptionWrite::WelcomeMsg { text, accepted }))
            == verbose_after(writes),
{
    assert(writes.push(XpubOptionWrite::Verbose { value: v, accepted: false }).drop_last() == writes);
    assert(writes.push(XpubOptionWrite::WelcomeMsg { text, accepted }).drop_last() == writes);
}

/// The last accepted write of an option decides its setting: after an
/// accepted welcome-message write of `text`, the welcome message is `text`;
/// a rejected one, and any verbose write, leave it as it was.
pub proof fn lemma_welcome_msg_last_accepted_write_wins(
    writes: Seq<XpubOptionWrite>,
    text: Option<Seq<char>>,
    v: bool,
    accepted: bool,
)
    ensures
        welcome_msg_after(writes.push(XpubOptionWrite::WelcomeMsg { text, accepted: true }))
            == Some(text),
        welcome_msg_after(writes.push(XpubOptionWrite::WelcomeMsg { text, accepted: false }))
            == welcome_msg_after(writes),
        welcome_msg_after(writes.push(XpubOptionWrite::Verbose { value: v, accepted }))
            == welcome_msg_after(writes),
{
    assert(writes.push(XpubOptionWrite::WelcomeMsg { text, accepted: false }).drop_last()
        == writes);
    assert(writes.push(XpubOptionWrite::Verbose { value: v, accepted }).drop_last() == writes);
}

/// What `get_last_endpoint` does with each read: UTF-8 text comes back
/// unchanged and is never an error; the only errors are the not-UTF-8 error
/// and ZeroMQ's own read error.
pub proof fn lemma_last_endpoint_result_keeps_text(
    r: core::result::Result<core::result::Result<String, Vec<u8>>, zmq::Error>,
    not_utf8: zmq::Error,
)
    ensures
        r matches Ok(Ok(s)) ==> last_endpoint_result(r, not_utf8) == Ok::<String, TmqError>(s),
        r matches Ok(Err(_)) ==> last_endpoint_result(r, not_utf8) == Err::<String, TmqError>(
            TmqError::Zmq(not_utf8),
        ),
        r matches Err(z) ==> last_endpoint_result(r, not_utf8) == Err::<String, TmqError>(
            TmqError::Zmq(z),
        ),
        last_endpoint_result(r, not_utf8) is Ok <==> r matches Ok(Ok(_)),
{
}

/// What `get_last_endpoint` makes of what ZeroMQ reported: the endpoint text
/// when ZeroMQ read it and it is UTF-8; `not_utf8` (the library passes
/// `EINVAL`) when ZeroMQ read it but it is not UTF-8; ZeroMQ's own error when
/// the read failed.
pub open spec fn last_endpoint_result(
    r: core::result::Result<core::result::Result<String, Vec<u8>>, zmq::Error>,
    not_utf8: zmq::Error,
) -> Result<String> {
    match r {
        Ok(Ok(endpoint)) => Ok(endpoint),
        Ok(Err(_)) => Err(TmqError::Zmq(not_utf8)),
        Err(e) => Err(TmqError::Zmq(e)),
    }
}

/// Turns what ZeroMQ reported for the last endpoint into the result of
/// `Xpub::get_last_endpoint`.
pub fn last_endpoint_outcome(
    r: core::result::Result<core::result::Result<String, Vec<u8>>, zmq::Error>,
    not_utf8: zmq::Error,
) -> (res: Result<String>)
    ensures
        res == last_endpoint_result(r, not_utf8),
        r matches Ok(Ok(s)) ==> res == Ok::<String, TmqError>(s),
        r matches Ok(Err(_)) ==> res == Err::<String, TmqError>(TmqError::Zmq(not_utf8)),
        r matches Err(z) ==> res == Err::<String, TmqError>(TmqError::Zmq(z)),
{
    match r {
        Ok(Ok(endpoint)) => Ok(endpoint),
        Ok(Err(_)) => Err(TmqError::Zmq(not_utf8)),
        Err(e) => Err(TmqError::Zmq(e)),
    }
}

/// The integer a boolean socket option is set to through libzmq's C
/// interface: 1 for `true`, 0 for `false`.
pub fn option_flag_value(flag: bool) -> (v: i32)
    ensures
        v == (if flag { 1i32 } else { 0i32 }),
{
    if flag {
        1
    } else {
        0
    }
}

impl Xpub {
    /// The ZeroMQ socket this XPUB socket sends and receives on.
    pub closed spec fn zmq_socket(&self) -> zmq::Socket {
        self.socket
    }

    /// The option writes requested through this handle, oldest first.
    pub closed spec fn option_writes(&self) -> Seq<XpubOptionWrite> {
        self.writes@
    }

    /// The verbose setting left by the writes through this handle.
    pub open spec fn verbose_setting(&self) -> Option<bool> {
        verbose_after(self.option_writes())
    }

    /// The welcome message left by the writes through this handle.
    pub open spec fn welcome_msg_setting(&self) -> Option<Option<Seq<char>>> {
        welcome_msg_after(self.option_writes())
    }

    /// Wraps a ZeroMQ socket of type XPUB.
    pub fn from_zmq_socket(socket: zmq::Socket) -> (res: Result<Xpub>)
        ensures
            res matches Ok(x) && x.zmq_socket() == socket,
            res matches Ok(x) && x.option_writes() == Seq::<XpubOptionWrite>::empty(),
    {
        Ok(Xpub { socket, writes: Ghost(Seq::empty()) })
    }

    /// The underlying ZeroMQ socket.
    pub fn get_socket(&self) -> (s: &zmq::Socket)
        ensures
            *s == self.zmq_socket(),
    {
        &self.socket
    }

    /// The underlying ZeroMQ socket, for changes this type does not offer.
    pub fn get_socket_mut(&mut self) -> (s: &mut zmq::Socket)
        ensures
            *s == old(self).zmq_socket(),
            final(self).zmq_socket() == *final(s),
            final(self).option_writes() == old(self).option_writes(),
    {
        &mut self.socket
    }

    /// Enable verbose mode to receive all subscription messages.
    ///
    /// By default, XPUB only notifies about unique subscriptions or
    /// when the last unsubscribe for a topic happens. When verbose mode
    /// is enabled, it notifies for all subscriptions, even duplicates.
    ///
    /// Whether ZeroMQ accepts the option depends on the socket; its error is
    /// handed back as `TmqError::Zmq` (see `from_zmq`).
    pub fn set_xpub_verbose(&mut self, verbose: bool) -> (res: Result<()>)
        ensures
            final(self).zmq_socket() == old(self).zmq_socket(),
            exists|r: core::result::Result<(), zmq::Error>|
                #[trigger] xpub_verbose_set_reported(old(self).zmq_socket(), verbose, r) && res
                    == zmq_mapped(r),
            final(self).option_writes() == old(self).option_writes().push(
                XpubOptionWrite::Verbose { value: verbose, accepted: res is Ok },
            ),
            res is Ok ==> final(self).verbose_setting() == Some(verbose),
            res is Err ==> final(self).verbose_setting() == old(self).verbose_setting(),
            final(self).welcome_msg_setting() == old(self).welcome_msg_setting(),
    {
        let r = socket_set_xpub_verbose(self, verbose);
        let ghost answer = r;
        let res = from_zmq(r);
        assert(xpub_verbose_set_reported(old(self).zmq_socket(), verbose, answer) && res
            == zmq_mapped(answer));
        proof {
            lemma_verbose_last_accepted_write_wins(old(self).option_writes(), verbose, None, true);
            lemma_welcome_msg_last_accepted_write_wins(
                old(self).option_writes(),
                None,
                verbose,
                res is Ok,
            );
        }
        res
    }

    /// Set welcome message for new subscribers.
    ///
    /// This message will be sent to any new subscriber that connects to
    /// this socket, regardless of their subscription filter.
    ///
    /// Whether ZeroMQ accepts the option depends on the socket; its error is
    /// handed back as `TmqError::Zmq` (see `from_zmq`).
    pub fn set_xpub_welcome_msg(&mut self, msg: Option<&str>) -> (res: Result<()>)
        ensures
            final(self).zmq_socket() == old(self).zmq_socket(),
            exists|r: core::result::Result<(), zmq::Error>|
                #[trigger] xpub_welcome_msg_set_reported(old(self).zmq_socket(), optional_text(msg), r)
                    && res == zmq_mapped(r),
            final(self).option_writes() == old(self).option_writes().push(
                XpubOptionWrite::WelcomeMsg { text: optional_text(msg), accepted: res is Ok },
            ),
            res is Ok ==> final(self).welcome_msg_setting() == Some(optional_text(msg)),
            res is Err ==> final(self).welcome_msg_setting() == old(self).welcome_msg_setting(),
            final(self).verbose_setting() == old(self).verbose_setting(),
    {
        let r = socket_set_xpub_welcome_msg(self, msg);
        let ghost answer = r;
        let res = from_zmq(r);
        assert(xpub_welcome_msg_set_reported(old(self).zmq_socket(), optional_text(msg), answer)
            && res == zmq_mapped(answer));
        proof {
            lemma_welcome_msg_last_accepted_write_wins(
                old(self).option_writes(),
                optional_text(msg),
                false,
                true,
            );
            lemma_verbose_last_accepted_write_wins(
                old(self).option_writes(),
                false,
                optional_text(msg),
                res is Ok,
            );
        }
        res
    }

    /// Get the last bound endpoint.
    ///
    /// Useful when binding to an ephemeral port (using * wildcard).
    /// An endpoint that is not UTF-8 is reported as `EINVAL`; what ZeroMQ
    /// reports is turned into the result by `last_endpoint_outcome`.
    pub fn get_last_endpoint(&self) -> (res: Result<String>)
        ensures
            exists|
                r: core::result::Result<core::result::Result<String, Vec<u8>>, zmq::Error>,
                e: zmq::Error,
            |
                #![trigger last_endpoint_reported(self.zmq_socket(), endpoint_read_view(r)), zmq_error_is_einval(e)]
                {
                    &&& last_endpoint_reported(self.zmq_socket(), endpoint_read_view(r))
                    &&& zmq_error_is_einval(e)
                    &&& res == last_endpoint_result(r, e)
                    &&& (r matches Ok(Ok(s)) ==> res == Ok::<String, TmqError>(s))
                    &&& (r matches Ok(Err(_)) ==> res == Err::<String, TmqError>(TmqError::Zmq(e)))
                    &&& (r matches Err(z) ==> res == Err::<String, TmqError>(TmqError::Zmq(z)))
                },
    {
        let r = socket_get_last_endpoint(&self.socket);
        let ghost read = r;
        let invalid = zmq_invalid_argument();
        let res = last_endpoint_outcome(r, invalid);
        assert(last_endpoint_reported(self.zmq_socket(), endpoint_read_view(read))
            && zmq_error_is_einval(invalid) && res == last_endpoint_result(read, invalid));
        res
    }
}

} // verus!

//! The XSUB socket.
use vstd::prelude::*;

use crate::error::Result;
use crate::subscription::{frame_bytes, subscription_message, SubscriptionKind};

verus! {

/// XSUB socket.
///
/// The XSUB socket is like SUB except that it can also send
/// subscription messages to publishers.
pub struct Xsub {
    socket: zmq::Socket,
}

impl Xsub {
    /// The ZeroMQ socket this XSUB socket sends and receives on.
    pub closed spec fn zmq_socket(&self) -> zmq::Socket {
        self.socket
    }

    /// Wraps a ZeroMQ socket of type XSUB.
    pub fn from_zmq_socket(socket: zmq::Socket) -> (res: Result<Xsub>)
        ensures
            res matches Ok(x) && x.zmq_socket() == socket,
    {
        Ok(Xsub { socket })
    }

    /// The underlying ZeroMQ socket.
    pub fn get_socket(&self) -> (s: &zmq::Socket)
        ensures
            *s == self.zmq_socket(),
    {
        &self.socket
    }

    /// The underlying ZeroMQ socket, for changes this type does not offer.
    pub fn get_socket_mut(&mut self) -> (s: &mut zmq::Socket)
        ensures
            *s == old(self).zmq_socket(),
            final(self).zmq_socket() == *final(s),
    {
        &mut self.socket
    }

    /// The message that subscribes to the given topic.
    ///
    /// This is similar to SUB's subscribe method but instead of using socket
    /// options, XSUB sends a message upstream with a special format: first
    /// byte is 1 (subscription flag) followed by the subscription topic.
    pub fn subscribe_message(topic: &[u8]) -> (msg: Vec<Vec<u8>>)
        ensures
            msg@.len() == 1,
            msg@[0]@ == frame_bytes(SubscriptionKind::Subscribe, topic@),
            msg@[0]@.len() == topic@.len() + 1,
            msg@[0]@[0] == 1,
            msg@[0]@.drop_first() == topic@,
    {
        let msg = subscription_message(SubscriptionKind::Subscribe, topic);
        assert(frame_bytes(SubscriptionKind::Subscribe, topic@).drop_first() == topic@);
        msg
    }

    /// The message that drops the subscription to the given topic.
    ///
    /// This is similar to SUB's unsubscribe method but instead of using
    /// socket options, XSUB sends a message upstream with a special format:
    /// first byte is 0 (unsubscription flag) followed by the subscription
    /// topic.
    pub fn unsubscribe_message(topic: &[u8]) -> (msg: Vec<Vec<u8>>)
        ensures
            msg@.len() == 1,
            msg@[0]@ == frame_bytes(SubscriptionKind::Unsubscribe, topic@),
            msg@[0]@.len() == topic@.len() + 1,
            msg@[0]@[0] == 0,
            msg@[0]@.drop_first() == topic@,
    {
        let msg = subscription_message(SubscriptionKind::Unsubscribe, topic);
        assert(frame_bytes(SubscriptionKind::Unsubscribe, topic@).drop_first() == topic@);
        msg
    }
}

} // verus!

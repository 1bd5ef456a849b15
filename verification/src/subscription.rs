//! The subscription messages an XSUB socket sends upstream.
//!
//! A subscription message is a multipart message of a single frame. The first
//! byte of the frame is the flag (1 to subscribe, 0 to unsubscribe); the rest
//! of the frame is the topic.
use vstd::prelude::*;

verus! {

/// Whether a subscription message subscribes to a topic or drops it.
#[derive(Clone, Copy, Debug, PartialEq, Eq, Structural)]
pub enum SubscriptionKind {
    /// Drop a subscription: flag byte 0.
    Unsubscribe,
    /// Add a subscription: flag byte 1.
    Subscribe,
}

/// The flag byte that opens a subscription frame of the given kind.
pub open spec fn flag_of(kind: SubscriptionKind) -> u8 {
    match kind {
        SubscriptionKind::Subscribe => 1,
        SubscriptionKind::Unsubscribe => 0,
    }
}

/// The single frame of a subscription message: the flag byte, then the topic.
pub open spec fn frame_bytes(kind: SubscriptionKind, topic: Seq<u8>) -> Seq<u8> {
    seq![flag_of(kind)] + topic
}

/// The flag byte of a subscription kind.
pub fn flag_byte(kind: SubscriptionKind) -> (b: u8)
    ensures
        b == flag_of(kind),
{
    match kind {
        SubscriptionKind::Subscribe => 1,
        SubscriptionKind::Unsubscribe => 0,
    }
}

/// Builds the frame of a subscription message: the flag byte followed by the
/// topic.
pub fn subscription_frame(kind: SubscriptionKind, topic: &[u8]) -> (frame: Vec<u8>)
    ensures
        frame@ == frame_bytes(kind, topic@),
        frame@.len() == topic@.len() + 1,
        frame@[0] == flag_of(kind),
        frame@.drop_first() == topic@,
{
    let mut frame: Vec<u8> = Vec::new();
    frame.push(flag_byte(kind));
    let mut i: usize = 0;
    while i < topic.len()
        invariant
            i <= topic@.len(),
            frame@ == seq![flag_of(kind)] + topic@.take(i as int),
        decreases topic@.len() - i,
    {
        frame.push(topic[i]);
        assert(topic@.take(i + 1) == topic@.take(i as int).push(topic@[i as int]));
        i = i + 1;
    }
    assert(topic@.take(topic@.len() as int) == topic@);
    assert((seq![flag_of(kind)] + topic@).drop_first() == topic@);
    frame
}

/// Builds a subscription message: one frame holding the flag byte and the
/// topic.
pub fn subscription_message(kind: SubscriptionKind, topic: &[u8]) -> (msg: Vec<Vec<u8>>)
    ensures
        msg@.len() == 1,
        msg@[0]@ == frame_bytes(kind, topic@),
{
    let mut msg: Vec<Vec<u8>> = Vec::new();
    msg.push(subscription_frame(kind, topic));
    msg
}

/// A subscription frame names exactly one kind and one topic: two frames are
/// equal only when they were built from the same kind and the same topic, so
/// the receiving side can always tell a subscription from an unsubscription
/// and recover the topic.
pub proof fn lemma_frame_unambiguous(
    k1: SubscriptionKind,
    t1: Seq<u8>,
    k2: SubscriptionKind,
    t2: Seq<u8>,
)
    ensures
        frame_bytes(k1, t1) == frame_bytes(k2, t2) <==> (k1 == k2 && t1 == t2),
{
    if frame_bytes(k1, t1) == frame_bytes(k2, t2) {
        assert(frame_bytes(k1, t1)[0] == flag_of(k1));
        assert(frame_bytes(k2, t2)[0] == flag_of(k2));
        assert(frame_bytes(k1, t1).drop_first() == t1);
        assert(frame_bytes(k2, t2).drop_first() == t2);
    }
}

/// A subscription frame and an unsubscription frame for the same topic have
/// the same length and differ only in their first byte, which is 1 for the
/// subscription and 0 for the unsubscription.
pub proof fn lemma_subscribe_unsubscribe_differ_in_flag(topic: Seq<u8>)
    ensures
        frame_bytes(SubscriptionKind::Subscribe, topic).len() == frame_bytes(
            SubscriptionKind::Unsubscribe,
            topic,
        ).len(),
        frame_bytes(SubscriptionKind::Subscribe, topic)[0] == 1,
        frame_bytes(SubscriptionKind::Unsubscribe, topic)[0] == 0,
        frame_bytes(SubscriptionKind::Subscribe, topic).drop_first() == frame_bytes(
            SubscriptionKind::Unsubscribe,
            topic,
        ).drop_first(),
{
    assert(frame_bytes(SubscriptionKind::Subscribe, topic).drop_first() == topic);
    assert(frame_bytes(SubscriptionKind::Unsubscribe, topic).drop_first() == topic);
}

} // verus!

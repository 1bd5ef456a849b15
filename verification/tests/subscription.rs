use tmq::subscription::{flag_byte, subscription_frame, subscription_message};
use tmq::{SubscriptionKind, Xsub};

#[test]
fn subscribe_message_is_flag_one_then_topic() {
    let topic = b"test_topic";
    let msg = Xsub::subscribe_message(topic);
    assert_eq!(msg.len(), 1);
    assert!(!msg[0].is_empty());
    assert_eq!(msg[0][0], 1);
    assert_eq!(&msg[0][1..], topic);
    assert_eq!(msg[0], b"\x01test_topic".to_vec());
}

#[test]
fn unsubscribe_message_is_flag_zero_then_topic() {
    let topic = b"test_topic";
    let msg = Xsub::unsubscribe_message(topic);
    assert_eq!(msg.len(), 1);
    assert_eq!(msg[0][0], 0);
    assert_eq!(&msg[0][1..], topic);
    assert_eq!(msg[0], b"\x00test_topic".to_vec());
}

#[test]
fn empty_topic_gives_flag_only() {
    assert_eq!(Xsub::subscribe_message(b""), vec![vec![1u8]]);
    assert_eq!(Xsub::unsubscribe_message(b""), vec![vec![0u8]]);
}

#[test]
fn frames_of_same_topic_differ_only_in_flag() {
    let sub = subscription_frame(SubscriptionKind::Subscribe, b"weather");
    let unsub = subscription_frame(SubscriptionKind::Unsubscribe, b"weather");
    assert_eq!(sub.len(), unsub.len());
    assert_ne!(sub, unsub);
    assert_eq!(sub[1..], unsub[1..]);
}

#[test]
fn frames_of_different_topics_differ() {
    let a = subscription_frame(SubscriptionKind::Subscribe, b"topic1");
    let b = subscription_frame(SubscriptionKind::Subscribe, b"topic2");
    assert_ne!(a, b);
}

#[test]
fn flag_bytes() {
    assert_eq!(flag_byte(SubscriptionKind::Subscribe), 1);
    assert_eq!(flag_byte(SubscriptionKind::Unsubscribe), 0);
}

#[test]
fn subscription_message_holds_binary_topic() {
    let topic = [0u8, 255, 1, 0];
    let msg = subscription_message(SubscriptionKind::Subscribe, &topic);
    assert_eq!(msg, vec![vec![1u8, 0, 255, 1, 0]]);
}

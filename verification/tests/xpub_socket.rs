use tmq::error::from_zmq;
use tmq::socket_types::xpub::last_endpoint_outcome;
use tmq::{TmqError, Xpub, Xsub};

fn xpub_socket(ctx: &zmq::Context) -> Xpub {
    let socket = ctx.socket(zmq::XPUB).expect("socket");
    match Xpub::from_zmq_socket(socket) {
        Ok(x) => x,
        Err(_) => panic!("from_zmq_socket failed"),
    }
}

#[test]
fn last_endpoint_outcome_keeps_text() {
    let r = last_endpoint_outcome(Ok(Ok("inproc://a".to_string())), zmq::Error::EINVAL);
    match r {
        Ok(s) => assert_eq!(s, "inproc://a"),
        Err(_) => panic!("expected the endpoint"),
    }
}

#[test]
fn last_endpoint_outcome_not_utf8_is_einval() {
    let r = last_endpoint_outcome(Ok(Err(vec![0xff, 0xfe])), zmq::Error::EINVAL);
    match r {
        Err(TmqError::Zmq(e)) => assert!(e == zmq::Error::EINVAL),
        Ok(_) => panic!("expected an error"),
    }
}

#[test]
fn last_endpoint_outcome_passes_zmq_error() {
    let r = last_endpoint_outcome(Err(zmq::Error::ETERM), zmq::Error::EINVAL);
    match r {
        Err(TmqError::Zmq(e)) => assert!(e == zmq::Error::ETERM),
        Ok(_) => panic!("expected an error"),
    }
}

#[test]
fn from_zmq_maps_both_ways() {
    match from_zmq(Ok::<u32, zmq::Error>(7)) {
        Ok(v) => assert_eq!(v, 7),
        Err(_) => panic!("expected Ok"),
    }
    match from_zmq(Err::<u32, zmq::Error>(zmq::Error::EAGAIN)) {
        Err(TmqError::Zmq(e)) => assert!(e == zmq::Error::EAGAIN),
        Ok(_) => panic!("expected Err"),
    }
}

#[test]
fn xpub_options_are_accepted() {
    let ctx = zmq::Context::new();
    let mut publisher = xpub_socket(&ctx);
    assert!(publisher.set_xpub_verbose(true).is_ok());
    assert!(publisher.set_xpub_verbose(false).is_ok());
    assert!(publisher.set_xpub_welcome_msg(Some("Welcome to XPUB")).is_ok());
    assert!(publisher.set_xpub_welcome_msg(None).is_ok());
}

#[test]
fn xpub_reports_last_bound_endpoint() {
    let ctx = zmq::Context::new();
    let publisher = xpub_socket(&ctx);
    publisher.get_socket().bind("inproc://xpub-last-endpoint").expect("bind");
    match publisher.get_last_endpoint() {
        Ok(endpoint) => assert_eq!(endpoint, "inproc://xpub-last-endpoint"),
        Err(_) => panic!("expected the endpoint"),
    }
}

#[test]
fn xpub_without_bind_has_empty_last_endpoint() {
    let ctx = zmq::Context::new();
    let publisher = xpub_socket(&ctx);
    match publisher.get_last_endpoint() {
        Ok(endpoint) => assert_eq!(endpoint, ""),
        Err(_) => panic!("expected an empty endpoint"),
    }
}

fn xsub_socket(ctx: &zmq::Context, endpoint: &str) -> Xsub {
    let socket = ctx.socket(zmq::XSUB).expect("socket");
    socket.set_rcvtimeo(2000).expect("rcvtimeo");
    socket.connect(endpoint).expect("connect");
    match Xsub::from_zmq_socket(socket) {
        Ok(s) => s,
        Err(_) => panic!("from_zmq_socket failed"),
    }
}

#[test]
fn test_subscription_message() {
    let ctx = zmq::Context::new();
    let mut publisher = xpub_socket(&ctx);
    assert!(publisher.set_xpub_verbose(true).is_ok());
    publisher.get_socket().set_rcvtimeo(2000).expect("rcvtimeo");
    publisher.get_socket().bind("inproc://test-subscription").expect("bind");
    let endpoint = match publisher.get_last_endpoint() {
        Ok(e) => e,
        Err(_) => panic!("no endpoint"),
    };
    let subscriber = xsub_socket(&ctx, &endpoint);

    let topic = b"test_topic";
    subscriber.get_socket().send_multipart(Xsub::subscribe_message(topic), 0).expect("send");
    let sub_msg = publisher.get_socket().recv_multipart(0).expect("recv");
    assert_eq!(sub_msg.len(), 1);
    assert!(!sub_msg[0].is_empty());
    assert_eq!(sub_msg[0][0], 1);
    assert_eq!(&sub_msg[0][1..], topic);

    let out: Vec<Vec<u8>> = vec![topic.to_vec(), b"Hello XPUB".to_vec()];
    publisher.get_socket().send_multipart(out, 0).expect("send");
    let recv_msg = subscriber.get_socket().recv_multipart(0).expect("recv");
    assert_eq!(recv_msg.len(), 2);
    assert_eq!(recv_msg[0], topic.to_vec());
    assert_eq!(recv_msg[1], b"Hello XPUB".to_vec());

    subscriber.get_socket().send_multipart(Xsub::unsubscribe_message(topic), 0).expect("send");
    let unsub_msg = publisher.get_socket().recv_multipart(0).expect("recv");
    assert_eq!(unsub_msg.len(), 1);
    assert!(!unsub_msg[0].is_empty());
    assert_eq!(unsub_msg[0][0], 0);
    assert_eq!(&unsub_msg[0][1..], topic);
}

#[test]
fn test_xpub_welcome_message() {
    let ctx = zmq::Context::new();
    let mut publisher = xpub_socket(&ctx);
    assert!(publisher.set_xpub_welcome_msg(Some("Welcome to XPUB")).is_ok());
    publisher.get_socket().bind("inproc://test-welcome").expect("bind");
    let endpoint = match publisher.get_last_endpoint() {
        Ok(e) => e,
        Err(_) => panic!("no endpoint"),
    };
    let subscriber = xsub_socket(&ctx, &endpoint);
    subscriber.get_socket().send_multipart(Xsub::subscribe_message(b"topic"), 0).expect("send");
    let out: Vec<Vec<u8>> = vec![b"topic".to_vec(), b"Initial message".to_vec()];
    publisher.get_socket().send_multipart(out, 0).expect("send");
    let msg = subscriber.get_socket().recv_multipart(0).expect("recv");
    assert!(!msg.is_empty());
}

#[test]
fn test_multiple_subscribers() {
    let ctx = zmq::Context::new();
    let mut publisher = xpub_socket(&ctx);
    assert!(publisher.set_xpub_verbose(true).is_ok());
    publisher.get_socket().set_rcvtimeo(2000).expect("rcvtimeo");
    publisher.get_socket().bind("inproc://test-multiple").expect("bind");
    let endpoint = match publisher.get_last_endpoint() {
        Ok(e) => e,
        Err(_) => panic!("no endpoint"),
    };
    let subscriber1 = xsub_socket(&ctx, &endpoint);
    let subscriber2 = xsub_socket(&ctx, &endpoint);

    let topic1 = b"topic1";
    let topic2 = b"topic2";
    subscriber1.get_socket().send_multipart(Xsub::subscribe_message(topic1), 0).expect("send");
    let _ = publisher.get_socket().recv_multipart(0);
    subscriber2.get_socket().send_multipart(Xsub::subscribe_message(topic2), 0).expect("send");
    let _ = publisher.get_socket().recv_multipart(0);

    let m1: Vec<Vec<u8>> = vec![topic1.to_vec(), b"Message for subscriber 1".to_vec()];
    let m2: Vec<Vec<u8>> = vec![topic2.to_vec(), b"Message for subscriber 2".to_vec()];
    publisher.get_socket().send_multipart(m1, 0).expect("send");
    publisher.get_socket().send_multipart(m2, 0).expect("send");

    let msg = subscriber1.get_socket().recv_multipart(0).expect("Subscriber 1 didn't receive message");
    assert_eq!(msg.len(), 2);
    assert_eq!(msg[0], topic1.to_vec());
    assert_eq!(msg[1], b"Message for subscriber 1".to_vec());
    subscriber1.get_socket().set_rcvtimeo(100).expect("rcvtimeo");
    assert!(subscriber1.get_socket().recv_multipart(0).is_err());

    let msg = subscriber2.get_socket().recv_multipart(0).expect("Subscriber 2 didn't receive message");
    assert_eq!(msg.len(), 2);
    assert_eq!(msg[0], topic2.to_vec());
    assert_eq!(msg[1], b"Message for subscriber 2".to_vec());
    subscriber2.get_socket().set_rcvtimeo(100).expect("rcvtimeo");
    assert!(subscriber2.get_socket().recv_multipart(0).is_err());
}

#[test]
fn xpub_reports_expanded_wildcard_endpoint() {
    let ctx = zmq::Context::new();
    let publisher = xpub_socket(&ctx);
    publisher.get_socket().bind("tcp://127.0.0.1:*").expect("bind");
    match publisher.get_last_endpoint() {
        Ok(endpoint) => {
            assert!(endpoint.starts_with("tcp://127.0.0.1:"));
            let port = &endpoint["tcp://127.0.0.1:".len()..];
            assert!(port.parse::<u16>().map(|p| p > 0).unwrap_or(false));
        }
        Err(_) => panic!("expected the endpoint"),
    }
}

#[test]
fn option_flag_values() {
    assert_eq!(tmq::socket_types::xpub::option_flag_value(true), 1);
    assert_eq!(tmq::socket_types::xpub::option_flag_value(false), 0);
}

use dart_port::prelude::{accepted_or_invalid, port_target, DartPortID, ILLEGAL_PORT_ID};
use dart_port::{
    close_port, post_integer_to, post_message, DartPort, Host, Error, Message, NativeApi, NativePort, RawReceivePort, SendPort,
};

/// A host that records every call and answers as it is told.
#[derive(Default)]
struct FakeHost {
    reject: bool,
    allocate: DartPortID,
    allocations: usize,
    closes: Vec<DartPortID>,
    posts: Vec<(DartPortID, Message)>,
    integers: Vec<(DartPortID, i64)>,
}

impl FakeHost {
    fn count(&self) -> usize {
        self.allocations + self.closes.len() + self.posts.len() + self.integers.len()
    }
}

impl NativeApi for FakeHost {
    fn new_native_port(&mut self) -> DartPortID {
        self.allocations += 1;
        self.allocate
    }

    fn close_native_port(&mut self, id: DartPortID) -> bool {
        self.closes.push(id);
        !self.reject
    }

    fn post_cobject(&mut self, id: DartPortID, message: &Message) -> bool {
        self.posts.push((id, message.clone()));
        !self.reject
    }

    fn post_integer(&mut self, id: DartPortID, value: i64) -> bool {
        self.integers.push((id, value));
        !self.reject
    }
}

#[test]
fn close_twice_succeeds_then_is_illegal() {
    let mut host = Host::new(FakeHost::default());
    let mut port = SendPort::open(7);
    assert_eq!(port.close(&mut host), Ok(()));
    assert!(port.is_closed());
    assert_eq!(port.close(&mut host), Err(Error::IllegalPort));
    assert_eq!(host.api.closes, vec![7]);
}

#[test]
fn dart_port_close_twice_succeeds_then_is_illegal() {
    let mut host = Host::new(FakeHost::default());
    let mut port = DartPort::new();
    port.open(9);
    assert!(port.is_open());
    assert_eq!(port.close(&mut host), Ok(()));
    assert_eq!(port.close(&mut host), Err(Error::IllegalPort));
    assert_eq!(host.api.closes, vec![9]);
    assert_eq!(port.id(), ILLEGAL_PORT_ID);
}

#[test]
fn receive_port_close_twice_succeeds_then_is_illegal() {
    let mut host = Host::new(FakeHost { allocate: 11, ..FakeHost::default() });
    let mut port = RawReceivePort::new(&mut host).unwrap();
    assert_eq!(port.id(), 11);
    assert_eq!(port.close(&mut host), Ok(()));
    assert_eq!(port.close(&mut host), Err(Error::IllegalPort));
    assert_eq!(host.api.closes, vec![11]);
}

#[test]
fn close_rejected_by_host_is_invalid_and_still_closes() {
    let mut host = Host::new(FakeHost { reject: true, ..FakeHost::default() });
    let mut port = SendPort::open(5);
    assert_eq!(port.close(&mut host), Err(Error::InvalidPort));
    assert!(port.is_closed());
    assert_eq!(port.close(&mut host), Err(Error::IllegalPort));
    assert_eq!(host.api.closes, vec![5]);
}

#[test]
fn unopened_ports_refuse_everything_without_host_calls() {
    let mut host = Host::new(FakeHost::default());
    let mut send = SendPort::default();
    let target = SendPort::open(3);
    assert!(send.is_closed());
    assert_eq!(send.post_null(&mut host), Err(Error::IllegalPort));
    assert_eq!(send.post_bool(&mut host, true), Err(Error::IllegalPort));
    assert_eq!(send.post_integer(&mut host, 1), Err(Error::IllegalPort));
    assert_eq!(send.post_integers(&mut host, &[1, 2]), Err(Error::IllegalPort));
    assert_eq!(send.post_string(&mut host, "hi"), Err(Error::IllegalPort));
    assert_eq!(send.post_port(&mut host, &target), Err(Error::IllegalPort));
    assert_eq!(send.post_cobject(&mut host, &Message::Null), Err(Error::IllegalPort));
    assert_eq!(send.close(&mut host), Err(Error::IllegalPort));

    let mut dart = DartPort::new();
    assert!(dart.is_closed());
    assert_eq!(dart.post_bool(&mut host, false), Err(Error::IllegalPort));
    assert_eq!(dart.post_integer(&mut host, 4), Err(Error::IllegalPort));
    assert_eq!(dart.close(&mut host), Err(Error::IllegalPort));

    let mut receive = RawReceivePort::default();
    assert_eq!(receive.close(&mut host), Err(Error::IllegalPort));
    assert_eq!(host.api.count(), 0);
}

#[test]
fn string_with_nul_fails_before_any_host_call() {
    let mut host = Host::new(FakeHost::default());
    let port = SendPort::open(8);
    let r = port.post_string(&mut host, "a\0b");
    assert_eq!(r, Err(Error::Other("string must not contain embedded NULs".to_string())));
    assert_eq!(host.api.count(), 0);
    let closed = SendPort::default();
    assert!(matches!(closed.post_string(&mut host, "\0"), Err(Error::Other(_))));
    assert_eq!(host.api.count(), 0);
}

#[test]
fn string_post_follows_the_host_answer() {
    let mut host = Host::new(FakeHost::default());
    let port = SendPort::open(8);
    assert_eq!(port.post_string(&mut host, "héllo"), Ok(()));
    assert_eq!(host.api.posts, vec![(8, Message::Utf8String("héllo".to_string()))]);
    host.api.reject = true;
    assert_eq!(port.post_string(&mut host, "x"), Err(Error::InvalidPort));
    assert_eq!(host.api.posts.len(), 2);
}

#[test]
fn repeated_closes_reach_host_once() {
    let mut host = Host::new(FakeHost::default());
    let mut port = SendPort::open(21);
    let mut successes = 0;
    for _ in 0..8 {
        if port.close(&mut host).is_ok() {
            successes += 1;
        }
    }
    assert_eq!(successes, 1);
    assert_eq!(host.api.closes, vec![21]);
    assert!(port.is_closed());
}

#[test]
fn post_bool_round_trip() {
    let mut host = Host::new(FakeHost::default());
    let port = SendPort::open(42);
    assert_eq!(port.post_bool(&mut host, true), Ok(()));
    assert_eq!(host.api.posts, vec![(42, Message::Bool(true))]);
    assert_eq!(host.api.count(), 1);
}

#[test]
fn post_integers_in_order() {
    let mut host = Host::new(FakeHost::default());
    let port = SendPort::open(17);
    assert_eq!(port.post_integers(&mut host, &[1, 2, 3]), Ok(()));
    assert_eq!(host.api.posts.len(), 1);
    let (id, message) = &host.api.posts[0];
    assert_eq!(*id, port.id());
    match message {
        Message::Int64Array(values) => {
            assert_eq!(values.len(), 3);
            assert_eq!(values, &vec![1, 2, 3]);
        }
        _ => panic!("expected a typed-data message"),
    }
}

#[test]
fn new_receive_port_fails_on_sentinel() {
    let mut host = Host::new(FakeHost { allocate: ILLEGAL_PORT_ID, ..FakeHost::default() });
    let r = RawReceivePort::new(&mut host);
    assert!(matches!(r, Err(Error::Other(_))));
    assert_eq!(host.api.allocations, 1);
}

#[test]
fn rejected_post_is_invalid_and_keeps_id() {
    let mut host = Host::new(FakeHost { reject: true, ..FakeHost::default() });
    let port = SendPort::open(64);
    assert_eq!(port.post_null(&mut host), Err(Error::InvalidPort));
    assert_eq!(port.post_integer(&mut host, 5), Err(Error::InvalidPort));
    assert_eq!(port.id(), 64);
    assert!(port.is_open());
    assert_eq!(host.api.posts, vec![(64, Message::Null)]);
    assert_eq!(host.api.integers, vec![(64, 5)]);
}

#[test]
fn post_integer_uses_integer_call() {
    let mut host = Host::new(FakeHost::default());
    let port = DartPort::from_id(6);
    assert_eq!(port.post_integer(&mut host, -3), Ok(()));
    assert_eq!(host.api.integers, vec![(6, -3)]);
    assert!(host.api.posts.is_empty());
}

#[test]
fn post_port_sends_id_with_sentinel_origin() {
    let mut host = Host::new(FakeHost::default());
    let port = SendPort::open(2);
    let other = SendPort::open(99);
    assert_eq!(port.post_port(&mut host, &other), Ok(()));
    assert_eq!(host.api.posts, vec![(2, Message::SendPort { id: 99, origin_id: ILLEGAL_PORT_ID })]);
}

#[test]
fn dart_port_posts_every_kind() {
    let mut host = Host::new(FakeHost::default());
    let port = DartPort::from_id(12);
    let other = DartPort::from_id(13);
    assert_eq!(port.post_null(&mut host), Ok(()));
    assert_eq!(port.post_bool(&mut host, false), Ok(()));
    assert_eq!(port.post_integers(&mut host, &[]), Ok(()));
    assert_eq!(port.post_string(&mut host, "ok"), Ok(()));
    assert_eq!(port.post_port(&mut host, &other), Ok(()));
    assert_eq!(port.post_cobject(&mut host, &Message::Int64(4)), Ok(()));
    assert_eq!(
        host.api.posts,
        vec![
            (12, Message::Null),
            (12, Message::Bool(false)),
            (12, Message::Int64Array(vec![])),
            (12, Message::Utf8String("ok".to_string())),
            (12, Message::SendPort { id: 13, origin_id: 0 }),
            (12, Message::Int64(4)),
        ]
    );
}

#[test]
fn allocated_port_is_kept() {
    assert_eq!(RawReceivePort::from_allocated(31).unwrap().id(), 31);
    let e = RawReceivePort::from_allocated(ILLEGAL_PORT_ID).unwrap_err();
    assert_eq!(e, Error::Other("Dart_NewNativePort_DL".to_string()));
}

#[test]
fn host_answers_map_to_results() {
    assert_eq!(accepted_or_invalid(true), Ok(()));
    assert_eq!(accepted_or_invalid(false), Err(Error::InvalidPort));
    assert_eq!(port_target(0), Err(Error::IllegalPort));
    assert_eq!(port_target(-5), Ok(-5));
}

#[test]
fn messages_are_built_from_values() {
    assert_eq!(Message::integers(&[4, -4]), Message::Int64Array(vec![4, -4]));
    assert_eq!(Message::port(8), Message::SendPort { id: 8, origin_id: 0 });
    assert_eq!(Message::string("abc"), Ok(Message::Utf8String("abc".to_string())));
    assert_eq!(Message::string(""), Ok(Message::Utf8String(String::new())));
    assert!(Message::string("abc\0").is_err());
}

#[test]
fn error_messages() {
    assert_eq!(Error::IllegalPort.message(), "illegal port ID (port not opened?)");
    assert_eq!(Error::InvalidPort.message(), "invalid port ID (port already closed?)");
    assert_eq!(Error::Other("boom".to_string()).message(), "boom");
}

#[test]
fn open_and_state_queries() {
    let port = SendPort::open(ILLEGAL_PORT_ID);
    assert!(port.is_closed());
    assert!(!port.is_open());
    let port = SendPort::open(-1);
    assert!(port.is_open());
    assert_eq!(DartPort::default().id(), ILLEGAL_PORT_ID);
    assert_eq!(RawReceivePort::default().id(), ILLEGAL_PORT_ID);
}

#[test]
fn host_steps_ask_the_host_only_for_real_ports() {
    let mut host = Host::new(FakeHost::default());
    assert_eq!(close_port(ILLEGAL_PORT_ID, &mut host), Err(Error::IllegalPort));
    assert_eq!(post_message(ILLEGAL_PORT_ID, &mut host, &Message::Null), Err(Error::IllegalPort));
    assert_eq!(post_integer_to(ILLEGAL_PORT_ID, &mut host, 1), Err(Error::IllegalPort));
    assert_eq!(host.api.count(), 0);
    assert_eq!(close_port(4, &mut host), Ok(()));
    assert_eq!(post_message(4, &mut host, &Message::Bool(true)), Ok(()));
    assert_eq!(post_integer_to(4, &mut host, 1), Ok(()));
    host.api.reject = true;
    assert_eq!(close_port(4, &mut host), Err(Error::InvalidPort));
    assert_eq!(post_message(4, &mut host, &Message::Null), Err(Error::InvalidPort));
    assert_eq!(post_integer_to(4, &mut host, 2), Err(Error::InvalidPort));
    assert_eq!(host.api.closes, vec![4, 4]);
    assert_eq!(host.api.posts, vec![(4, Message::Bool(true)), (4, Message::Null)]);
    assert_eq!(host.api.integers, vec![(4, 1), (4, 2)]);
}

#[test]
fn reopened_dart_port_posts_to_new_id() {
    let mut host = Host::new(FakeHost::default());
    let mut port = DartPort::from_id(1);
    assert_eq!(port.close(&mut host), Ok(()));
    port.open(2);
    assert_eq!(port.post_null(&mut host), Ok(()));
    assert_eq!(host.api.posts, vec![(2, Message::Null)]);
}

#[test]
fn message_string_with_nul_is_refused_before_the_host() {
    let mut host = Host::new(FakeHost::default());
    let port = SendPort::open(3);
    let bad = Message::Utf8String("a\0".to_string());
    assert_eq!(port.post_cobject(&mut host, &bad), Err(Error::Other("string must not contain embedded NULs".to_string())));
    assert_eq!(post_message(3, &mut host, &bad), Err(Error::Other("string must not contain embedded NULs".to_string())));
    assert_eq!(host.api.count(), 0);
    let closed = SendPort::default();
    assert_eq!(closed.post_cobject(&mut host, &bad), Err(Error::IllegalPort));
    assert_eq!(host.api.count(), 0);
}

#[test]
fn receive_port_allocation_asks_host_once() {
    let mut host = Host::new(FakeHost { allocate: 77, ..FakeHost::default() });
    let port = RawReceivePort::new(&mut host).unwrap();
    assert_eq!(port.id(), 77);
    assert_eq!(host.api.allocations, 1);
    assert!(host.api.closes.is_empty());
}

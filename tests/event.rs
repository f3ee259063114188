use zyre::{Error, Event, RawEvent, Zyre};

fn node() -> Zyre<u32> {
    Zyre::from_engine(7, b"0123456789abcdef0123456789abcdef".to_vec(), b"test".to_vec())
}

fn shout_event() -> RawEvent {
    RawEvent {
        event_type: Some(b"SHOUT".to_vec()),
        peer_uuid: Some(b"fedcba9876543210fedcba9876543210".to_vec()),
        peer_name: Some(b"peer".to_vec()),
        peer_addr: Some(b"tcp://10.0.0.2:49152".to_vec()),
        group: Some(b"GLOBAL".to_vec()),
        message: Some(vec![b"hello".to_vec(), b"world".to_vec()]),
    }
}

fn enter_event() -> RawEvent {
    RawEvent {
        event_type: Some(b"ENTER".to_vec()),
        peer_uuid: Some(b"fedcba9876543210fedcba9876543210".to_vec()),
        peer_name: Some(b"peer".to_vec()),
        peer_addr: Some(b"tcp://10.0.0.2:49152".to_vec()),
        group: None,
        message: None,
    }
}

#[test]
fn read_event() {
    let mut zyre = node();
    zyre.start(0).ok();
    zyre.read_event(Some(enter_event())).ok();
    zyre.stop();
    zyre.destroy();
}

#[test]
fn event_read_destroy() {
    let zyre = node();
    let mut event = zyre.read_event(Some(enter_event())).ok().unwrap();
    event.destroy();
    assert!(!event.is_live());
}

#[test]
fn event_double_destroy() {
    let zyre = node();
    let mut event = zyre.read_event(Some(shout_event())).ok().unwrap();
    event.destroy();
    event.destroy();
    assert!(!event.is_live());
    let message = event.message();
    assert!(!message.is_live());
    assert_eq!(message.size(), 0);
}

#[test]
fn interrupted_read() {
    let zyre = node();
    assert!(matches!(zyre.read_event(None), Err(Error::ReadInterrupted)));
}

#[test]
fn event_fields() {
    let zyre = node();
    let event = zyre.read_event(Some(shout_event())).ok().unwrap();
    assert_eq!(event.event_type().unwrap(), "SHOUT");
    assert_eq!(event.peer_uuid().unwrap(), "fedcba9876543210fedcba9876543210");
    assert_eq!(event.peer_name().unwrap(), "peer");
    assert_eq!(event.peer_addr().unwrap(), "tcp://10.0.0.2:49152");
    assert_eq!(event.group().unwrap(), "GLOBAL");
}

#[test]
fn malformed_event_field() {
    let mut raw = enter_event();
    raw.peer_name = Some(vec![b'p', 0xe2, 0x82]);
    let event = Event::new(raw);
    assert_eq!(event.peer_name(), Err(Error::FromCStr));
    assert_eq!(event.event_type().unwrap(), "ENTER");
}

#[test]
fn message_taken_once() {
    let mut event = Event::new(shout_event());
    let mut first = event.message();
    assert!(first.is_live());
    assert_eq!(first.collect().ok().unwrap(), vec!["hello".to_string(), "world".to_string()]);
    let second = event.message();
    assert!(!second.is_live());
    assert_eq!(second.size(), 0);
}

#[test]
fn field_presence() {
    let mut event = Event::new(enter_event());
    assert!(event.has_event_type());
    assert!(event.has_peer_uuid());
    assert!(event.has_peer_name());
    assert!(event.has_peer_addr());
    assert!(!event.has_group());
    event.destroy();
    assert!(!event.has_event_type());
    assert!(!event.has_peer_uuid());
}

#[test]
fn event_without_message() {
    let mut event = Event::new(enter_event());
    let message = event.message();
    assert!(!message.is_live());
    assert_eq!(message.size(), 0);
}

use zyre::{Error, Message, NodeState, Zyre};

const UUID: &str = "0123456789abcdef0123456789abcdef";

/// A node as the engine reports it after creation, with a stand-in handle.
fn engine_node(name: &str) -> Zyre<u32> {
    Zyre::from_engine(7, UUID.as_bytes().to_vec(), name.as_bytes().to_vec())
}

fn acquire_context<F>(test_fn: F)
where
    F: Fn(&mut Zyre<u32>),
{
    let name = Zyre::<u32>::name_for_engine(Some("test")).ok().unwrap().unwrap();
    let mut zyre = Zyre::from_engine(7, UUID.as_bytes().to_vec(), name);
    test_fn(&mut zyre);
    zyre.destroy();
}

fn acquire_started_context<F>(test_fn: F)
where
    F: Fn(&mut Zyre<u32>),
{
    acquire_context(|zyre: &mut Zyre<u32>| {
        zyre.start(0).ok();
        test_fn(zyre);
        zyre.stop();
    });
}

#[test]
fn new_destroy() {
    assert_eq!(Zyre::<u32>::name_for_engine(None), Ok(None));
    let mut zyre = engine_node("A1B2C3");
    assert_eq!(zyre.destroy(), Some(7));
}

#[test]
fn double_destroy() {
    let mut zyre = engine_node("A1B2C3");
    assert_eq!(zyre.destroy(), Some(7));
    assert_eq!(zyre.destroy(), None);
    assert_eq!(zyre.state(), NodeState::Destroyed);
    assert!(zyre.handle().is_none());
}

#[test]
fn uuid_length() {
    acquire_context(|zyre: &mut Zyre<u32>| {
        assert_eq!(zyre.uuid().unwrap().len(), 32);
    });
}

#[test]
fn name_value() {
    acquire_context(|zyre: &mut Zyre<u32>| {
        assert_eq!(zyre.name().unwrap(), "test");
    });
}

#[test]
fn start_stop() {
    acquire_context(|zyre: &mut Zyre<u32>| {
        zyre.start(0).ok();
        zyre.stop();
    });
}

#[test]
fn join_leave() {
    acquire_started_context(|zyre: &mut Zyre<u32>| {
        assert_eq!(zyre.join("GLOBAL").ok().unwrap(), b"GLOBAL".to_vec());
        zyre.join_status(0).ok();
        assert_eq!(zyre.leave("GLOBAL").ok().unwrap(), b"GLOBAL".to_vec());
        zyre.leave_status(0).ok();
    });
}

#[test]
fn lifecycle_states() {
    let mut zyre = engine_node("n");
    assert_eq!(zyre.state(), NodeState::Created);
    assert_eq!(zyre.start(0), Ok(()));
    assert_eq!(zyre.state(), NodeState::Started);
    zyre.stop();
    assert_eq!(zyre.state(), NodeState::Stopped);
    assert_eq!(zyre.start(0), Ok(()));
    assert_eq!(zyre.state(), NodeState::Started);
    assert_eq!(zyre.destroy(), Some(7));
    assert_eq!(zyre.state(), NodeState::Destroyed);
    zyre.stop();
    assert_eq!(zyre.state(), NodeState::Destroyed);
}

#[test]
fn failed_start_keeps_state() {
    let mut zyre = engine_node("n");
    assert_eq!(zyre.start(-1), Err(Error::StartFailed));
    assert_eq!(zyre.state(), NodeState::Created);
}

#[test]
fn join_and_leave_failures() {
    let zyre = engine_node("n");
    assert_eq!(zyre.join_status(-1), Err(Error::JoinFailed));
    assert_eq!(zyre.leave_status(1), Err(Error::LeaveFailed));
    assert_eq!(zyre.join_status(0), Ok(()));
    assert_eq!(zyre.leave_status(0), Ok(()));
}

#[test]
fn group_names_are_checked() {
    let zyre = engine_node("n");
    assert_eq!(zyre.join("GR\0UP"), Err(Error::ToCString));
    assert_eq!(zyre.leave("\0"), Err(Error::ToCString));
    assert_eq!(zyre.join("\u{e9}quipe").ok().unwrap(), vec![0xc3, 0xa9, b'q', b'u', b'i', b'p', b'e']);
}

#[test]
fn name_for_engine_checks_text() {
    assert_eq!(Zyre::<u32>::name_for_engine(Some("test")), Ok(Some(b"test".to_vec())));
    assert_eq!(Zyre::<u32>::name_for_engine(Some("te\0st")), Err(Error::ToCString));
}

#[test]
fn malformed_identity_is_refused() {
    let zyre = Zyre::from_engine(1u32, vec![0x80], vec![0xff]);
    assert_eq!(zyre.uuid(), Err(Error::FromCStr));
    assert_eq!(zyre.name(), Err(Error::FromCStr));
}

#[test]
fn whisper_moves_the_frames() {
    let zyre = engine_node("n");
    let msg = Message::from_frames(vec!["hi", "there"]).ok().unwrap();
    let out = zyre.whisper("PEER", msg).ok().unwrap();
    assert_eq!(out.target, b"PEER".to_vec());
    assert_eq!(out.frames, vec![b"hi".to_vec(), b"there".to_vec()]);
}

#[test]
fn shout_moves_the_frames() {
    let zyre = engine_node("n");
    let msg = Message::from_frames(vec!["x"]).ok().unwrap();
    let out = zyre.shout("GLOBAL", msg).ok().unwrap();
    assert_eq!(out.target, b"GLOBAL".to_vec());
    assert_eq!(out.frames, vec![b"x".to_vec()]);
}

#[test]
fn send_refuses_bad_addressee() {
    let zyre = engine_node("n");
    let msg = Message::from_frames(vec!["x"]).ok().unwrap();
    assert!(matches!(zyre.shout("G\0", msg), Err(Error::ToCString)));
}

#[test]
fn error_descriptions() {
    assert_eq!(Error::StartFailed.description(), "Zyre node failed to start");
    assert_eq!(Error::JoinFailed.description(), "Failed to join Zyre group");
    assert_eq!(Error::LeaveFailed.description(), "Failed to leave Zyre group");
    assert_eq!(Error::ReadInterrupted.description(), "Read was interrupted");
    assert_eq!(Error::ToCString.description(), "nul byte found in data");
    assert_eq!(Error::FromCStr.description(), "invalid utf-8: corrupt contents");
    assert_eq!(Error::from_status(0, Error::JoinFailed), Ok(()));
    assert_eq!(Error::from_status(3, Error::JoinFailed), Err(Error::JoinFailed));
}

use vstd::prelude::*;
use crate::error::{Error, Result};
use crate::message::{frames_of, Message, MessageView};
use crate::text::{from_boundary, inbound};

verus! {

/// The fields of one event as the engine reported them, before any of them
/// is validated. A field the engine left out is `None`.
pub struct RawEvent {
    pub event_type: Option<Vec<u8>>,
    pub peer_uuid: Option<Vec<u8>>,
    pub peer_name: Option<Vec<u8>>,
    pub peer_addr: Option<Vec<u8>>,
    pub group: Option<Vec<u8>>,
    pub message: Option<Vec<Vec<u8>>>,
}

/// The mathematical value of an event.
pub ghost struct EventView {
    pub live: bool,
    pub event_type: Option<Seq<u8>>,
    pub peer_uuid: Option<Seq<u8>>,
    pub peer_name: Option<Seq<u8>>,
    pub peer_addr: Option<Seq<u8>>,
    pub group: Option<Seq<u8>>,
    pub message: Option<MessageView>,
}

impl EventView {
    /// The value after the event has been released: nothing is left.
    pub open spec fn released(self) -> EventView {
        EventView {
            live: false,
            event_type: None,
            peer_uuid: None,
            peer_name: None,
            peer_addr: None,
            group: None,
            message: None,
        }
    }

    /// The value after the attached message has been taken out.
    pub open spec fn detached(self) -> EventView {
        EventView { message: None, ..self }
    }
}

/// What a message taken from an event that has none looks like: it owns
/// nothing and holds no frames.
pub open spec fn absent_message() -> MessageView {
    MessageView { live: false, frames: Seq::empty() }
}

/// The view of an optional byte field.
pub open spec fn field_of(f: Option<Vec<u8>>) -> Option<Seq<u8>> {
    match f {
        Some(b) => Some(b@),
        None => None,
    }
}

/// The event that a snapshot of the engine's fields becomes.
pub open spec fn event_of(raw: RawEvent) -> EventView {
    EventView {
        live: true,
        event_type: field_of(raw.event_type),
        peer_uuid: field_of(raw.peer_uuid),
        peer_name: field_of(raw.peer_name),
        peer_addr: field_of(raw.peer_addr),
        group: field_of(raw.group),
        message: match raw.message {
            Some(f) => Some(MessageView { live: true, frames: frames_of(f@) }),
            None => None,
        },
    }
}

/// One inbound occurrence, held as a snapshot that no longer depends on the
/// engine. Its attached message, if any, can be taken out once.
pub struct Event {
    live: bool,
    event_type: Option<Vec<u8>>,
    peer_uuid: Option<Vec<u8>>,
    peer_name: Option<Vec<u8>>,
    peer_addr: Option<Vec<u8>>,
    group: Option<Vec<u8>>,
    message: Option<Message>,
}

impl View for Event {
    type V = EventView;

    closed spec fn view(&self) -> EventView {
        EventView {
            live: self.live,
            event_type: field_of(self.event_type),
            peer_uuid: field_of(self.peer_uuid),
            peer_name: field_of(self.peer_name),
            peer_addr: field_of(self.peer_addr),
            group: field_of(self.group),
            message: match self.message {
                Some(m) => Some(m@),
                None => None,
            },
        }
    }
}

/// The text of a field that is present.
fn field_text(f: &Option<Vec<u8>>) -> (r: Result<String>)
    requires
        f.is_some(),
    ensures
        match r {
            Ok(s) => inbound(f.unwrap()@) == Ok::<Seq<char>, Error>(s@),
            Err(e) => inbound(f.unwrap()@) == Err::<Seq<char>, Error>(e),
        },
{
    from_boundary(f.as_ref().unwrap().as_slice())
}

impl Event {
    /// An event built from the fields the engine reported.
    pub fn new(raw: RawEvent) -> (e: Event)
        ensures
            e@ == event_of(raw),
    {
        let RawEvent { event_type, peer_uuid, peer_name, peer_addr, group, message } = raw;
        let message = match message {
            Some(f) => Some(Message::from_received(f)),
            None => None,
        };
        Event { live: true, event_type, peer_uuid, peer_name, peer_addr, group, message }
    }

    /// Releases the snapshot and any message still attached. Releasing twice
    /// is the same as releasing once.
    pub fn destroy(&mut self)
        ensures
            final(self)@ == old(self)@.released(),
    {
        self.live = false;
        self.event_type = None;
        self.peer_uuid = None;
        self.peer_name = None;
        self.peer_addr = None;
        self.group = None;
        self.message = None;
    }

    /// Whether the snapshot is still held.
    pub fn is_live(&self) -> (r: bool)
        ensures
            r == self@.live,
    {
        self.live
    }

    /// The type tag of the event.
    pub fn event_type(&self) -> (r: Result<String>)
        requires
            self@.event_type is Some,
        ensures
            match r {
                Ok(s) => inbound(self@.event_type->0) == Ok::<Seq<char>, Error>(s@),
                Err(e) => inbound(self@.event_type->0) == Err::<Seq<char>, Error>(e),
            },
    {
        field_text(&self.event_type)
    }

    /// The identity of the peer the event is about.
    pub fn peer_uuid(&self) -> (r: Result<String>)
        requires
            self@.peer_uuid is Some,
        ensures
            match r {
                Ok(s) => inbound(self@.peer_uuid->0) == Ok::<Seq<char>, Error>(s@),
                Err(e) => inbound(self@.peer_uuid->0) == Err::<Seq<char>, Error>(e),
            },
    {
        field_text(&self.peer_uuid)
    }

    /// The name of the peer the event is about.
    pub fn peer_name(&self) -> (r: Result<String>)
        requires
            self@.peer_name is Some,
        ensures
            match r {
                Ok(s) => inbound(self@.peer_name->0) == Ok::<Seq<char>, Error>(s@),
                Err(e) => inbound(self@.peer_name->0) == Err::<Seq<char>, Error>(e),
            },
    {
        field_text(&self.peer_name)
    }

    /// The network address of the peer the event is about.
    pub fn peer_addr(&self) -> (r: Result<String>)
        requires
            self@.peer_addr is Some,
        ensures
            match r {
                Ok(s) => inbound(self@.peer_addr->0) == Ok::<Seq<char>, Error>(s@),
                Err(e) => inbound(self@.peer_addr->0) == Err::<Seq<char>, Error>(e),
            },
    {
        field_text(&self.peer_addr)
    }

    /// The group a group-related event is about.
    pub fn group(&self) -> (r: Result<String>)
        requires
            self@.group is Some,
        ensures
            match r {
                Ok(s) => inbound(self@.group->0) == Ok::<Seq<char>, Error>(s@),
                Err(e) => inbound(self@.group->0) == Err::<Seq<char>, Error>(e),
            },
    {
        field_text(&self.group)
    }

    /// Whether the engine reported a type tag for this event.
    pub fn has_event_type(&self) -> (r: bool)
        ensures
            r == self@.event_type is Some,
    {
        self.event_type.is_some()
    }

    /// Whether the engine reported a peer identity for this event.
    pub fn has_peer_uuid(&self) -> (r: bool)
        ensures
            r == self@.peer_uuid is Some,
    {
        self.peer_uuid.is_some()
    }

    /// Whether the engine reported a peer name for this event.
    pub fn has_peer_name(&self) -> (r: bool)
        ensures
            r == self@.peer_name is Some,
    {
        self.peer_name.is_some()
    }

    /// Whether the engine reported a peer address for this event.
    pub fn has_peer_addr(&self) -> (r: bool)
        ensures
            r == self@.peer_addr is Some,
    {
        self.peer_addr.is_some()
    }

    /// Whether the engine reported a group for this event.
    pub fn has_group(&self) -> (r: bool)
        ensures
            r == self@.group is Some,
    {
        self.group.is_some()
    }

    /// Takes the attached message out of the event; the caller owns it from
    /// then on. Once taken, or where the event carried none, the result is
    /// a released, empty message.
    pub fn message(&mut self) -> (r: Message)
        ensures
            final(self)@ == old(self)@.detached(),
            r@ == match old(self)@.message {
                Some(m) => m,
                None => absent_message(),
            },
    {
        let taken = self.message.take();
        match taken {
            Some(m) => m,
            None => {
                let mut m = Message::new();
                m.destroy();
                m
            },
        }
    }
}

/// Releasing an event a second time changes nothing.
pub proof fn lemma_event_destroy_idempotent(e: EventView)
    ensures
        e.released().released() == e.released(),
{
}

/// Taking the message out of an event twice gives, the second time, a
/// released and empty message, never the one handed out first.
pub proof fn lemma_message_taken_once(e: EventView)
    ensures
        e.detached().message is None,
        e.detached().detached() == e.detached(),
        !absent_message().live,
        absent_message().frames.len() == 0,
{
}

} // verus!

use vstd::prelude::*;
use crate::error::{status_result, Error, Result};
use crate::event::{event_of, field_of, Event, RawEvent};
use crate::message::{frames_of, Message};
use crate::text::{from_boundary, inbound, outbound, to_boundary};

verus! {

/// Where a node stands in its lifecycle.
#[derive(PartialEq, Eq, Structural, Debug, Clone, Copy)]
pub enum NodeState {
    Created,
    Started,
    Stopped,
    Destroyed,
}

/// The lifecycle states of a node that still owns its handle.
#[derive(PartialEq, Eq, Structural, Debug, Clone, Copy)]
enum Phase {
    Created,
    Started,
    Stopped,
}

/// The lifecycle state a phase stands for.
spec fn state_of(p: Phase) -> NodeState {
    match p {
        Phase::Created => NodeState::Created,
        Phase::Started => NodeState::Started,
        Phase::Stopped => NodeState::Stopped,
    }
}

/// The mathematical value of a node: the engine handle it owns, if any, its
/// lifecycle state, and the identity fields the engine assigned at creation.
pub ghost struct NodeView<H> {
    pub handle: Option<H>,
    pub state: NodeState,
    pub uuid: Seq<u8>,
    pub name: Seq<u8>,
}

impl<H> NodeView<H> {
    /// The value after the node has been released: the handle is gone and
    /// the node is destroyed for good.
    pub open spec fn released(self) -> NodeView<H> {
        NodeView { handle: None, state: NodeState::Destroyed, ..self }
    }

    /// The value with another lifecycle state, as long as the node lives.
    pub open spec fn moved_to(self, state: NodeState) -> NodeView<H> {
        if self.handle is Some {
            NodeView { state, ..self }
        } else {
            self
        }
    }
}

/// A message ready for the engine's send path: the addressee (a peer or a
/// group) and the frames, both as the bytes the engine takes.
pub struct Outgoing {
    pub target: Vec<u8>,
    pub frames: Vec<Vec<u8>>,
}

/// The local node. It owns at most one engine handle of type `H`; once the
/// handle has been given back for release the node is destroyed, and every
/// later release is a no-op.
pub struct Zyre<H> {
    sys: Option<H>,
    phase: Phase,
    uuid: Vec<u8>,
    name: Vec<u8>,
}

impl<H> View for Zyre<H> {
    type V = NodeView<H>;

    closed spec fn view(&self) -> NodeView<H> {
        NodeView {
            handle: self.sys,
            state: if self.sys is Some {
                state_of(self.phase)
            } else {
                NodeState::Destroyed
            },
            uuid: self.uuid@,
            name: self.name@,
        }
    }
}

/// What the engine receives as the name of a new node: nothing where none
/// was given, else the name's bytes.
pub open spec fn engine_name(name: Option<Seq<char>>) -> Result<Option<Seq<u8>>> {
    match name {
        None => Ok(None),
        Some(s) => match outbound(s) {
            Ok(b) => Ok(Some(b)),
            Err(e) => Err(e),
        },
    }
}

/// The view of an optional text.
pub open spec fn optional_text(t: Option<&str>) -> Option<Seq<char>> {
    match t {
        Some(s) => Some(s@),
        None => None,
    }
}

/// What a send of `msg` to `target` hands the engine.
pub open spec fn outgoing_of(target: Seq<char>, frames: Seq<Seq<u8>>) -> Result<(Seq<u8>, Seq<Seq<u8>>)> {
    match outbound(target) {
        Ok(t) => Ok((t, frames)),
        Err(e) => Err(e),
    }
}

/// The view of an outgoing message.
pub open spec fn outgoing_view(o: Outgoing) -> (Seq<u8>, Seq<Seq<u8>>) {
    (o.target@, frames_of(o.frames@))
}

impl<H> Zyre<H> {
    /// Checks the optional name of a node about to be created and returns
    /// what to hand the engine's constructor.
    pub fn name_for_engine(name: Option<&str>) -> (r: Result<Option<Vec<u8>>>)
        ensures
            match r {
                Ok(b) => engine_name(optional_text(name)) == Ok::<Option<Seq<u8>>, Error>(
                    field_of(b),
                ),
                Err(e) => engine_name(optional_text(name)) == Err::<Option<Seq<u8>>, Error>(e),
            },
    {
        match name {
            None => Ok(None),
            Some(s) => {
                let b = to_boundary(s)?;
                Ok(Some(b))
            },
        }
    }

    /// A created node that owns the engine handle `sys`, with the identity
    /// and name the engine assigned to it.
    pub fn from_engine(sys: H, uuid: Vec<u8>, name: Vec<u8>) -> (z: Zyre<H>)
        ensures
            z@ == (NodeView { handle: Some(sys), state: NodeState::Created, uuid: uuid@, name: name@ }),
    {
        Zyre { sys: Some(sys), phase: Phase::Created, uuid, name }
    }

    /// Gives the engine handle back for release, the first time; afterwards
    /// there is nothing left to give.
    pub fn destroy(&mut self) -> (r: Option<H>)
        ensures
            r == old(self)@.handle,
            final(self)@ == old(self)@.released(),
    {
        self.sys.take()
    }

    /// The engine handle, while the node lives.
    pub fn handle(&self) -> (r: Option<&H>)
        ensures
            match r {
                Some(h) => self@.handle == Some(*h),
                None => self@.handle is None,
            },
    {
        self.sys.as_ref()
    }

    /// The lifecycle state.
    pub fn state(&self) -> (r: NodeState)
        ensures
            r == self@.state,
    {
        if self.sys.is_some() {
            match self.phase {
                Phase::Created => NodeState::Created,
                Phase::Started => NodeState::Started,
                Phase::Stopped => NodeState::Stopped,
            }
        } else {
            NodeState::Destroyed
        }
    }

    /// The node's unique identity.
    pub fn uuid(&self) -> (r: Result<String>)
        ensures
            match r {
                Ok(s) => inbound(self@.uuid) == Ok::<Seq<char>, Error>(s@),
                Err(e) => inbound(self@.uuid) == Err::<Seq<char>, Error>(e),
            },
    {
        from_boundary(self.uuid.as_slice())
    }

    /// The node's name.
    pub fn name(&self) -> (r: Result<String>)
        ensures
            match r {
                Ok(s) => inbound(self@.name) == Ok::<Seq<char>, Error>(s@),
                Err(e) => inbound(self@.name) == Err::<Seq<char>, Error>(e),
            },
    {
        from_boundary(self.name.as_slice())
    }

    /// Records the status code the engine returned on starting the node: the
    /// node is started on zero; otherwise the start failed and nothing changes.
    pub fn start(&mut self, rc: i32) -> (r: Result<()>)
        ensures
            r == status_result(rc, Error::StartFailed),
            final(self)@ == if rc == 0 {
                old(self)@.moved_to(NodeState::Started)
            } else {
                old(self)@
            },
    {
        if self.sys.is_some() && rc == 0 {
            self.phase = Phase::Started;
        }
        Error::from_status(rc, Error::StartFailed)
    }

    /// Records that the node left the network.
    pub fn stop(&mut self)
        ensures
            final(self)@ == old(self)@.moved_to(NodeState::Stopped),
    {
        if self.sys.is_some() {
            self.phase = Phase::Stopped;
        }
    }

    /// Checks the name of a group to join and returns the bytes to hand the
    /// engine. Where the name cannot cross the boundary the engine is not to
    /// be called.
    pub fn join(&self, group: &str) -> (r: Result<Vec<u8>>)
        ensures
            match r {
                Ok(b) => outbound(group@) == Ok::<Seq<u8>, Error>(b@),
                Err(e) => outbound(group@) == Err::<Seq<u8>, Error>(e),
            },
    {
        to_boundary(group)
    }

    /// Maps the status code the engine returned on joining a group.
    pub fn join_status(&self, rc: i32) -> (r: Result<()>)
        ensures
            r == status_result(rc, Error::JoinFailed),
    {
        Error::from_status(rc, Error::JoinFailed)
    }

    /// Checks the name of a group to leave and returns the bytes to hand the
    /// engine. Where the name cannot cross the boundary the engine is not to
    /// be called.
    pub fn leave(&self, group: &str) -> (r: Result<Vec<u8>>)
        ensures
            match r {
                Ok(b) => outbound(group@) == Ok::<Seq<u8>, Error>(b@),
                Err(e) => outbound(group@) == Err::<Seq<u8>, Error>(e),
            },
    {
        to_boundary(group)
    }

    /// Maps the status code the engine returned on leaving a group.
    pub fn leave_status(&self, rc: i32) -> (r: Result<()>)
        ensures
            r == status_result(rc, Error::LeaveFailed),
    {
        Error::from_status(rc, Error::LeaveFailed)
    }

    /// Turns what a blocking read of the engine returned into an event; no
    /// event at all means the read was interrupted.
    ///
    /// A read issued before the node is started is no error here: the
    /// engine's read blocks until an event arrives or the engine is
    /// interrupted, and whatever it then returns is handled as above. A
    /// destroyed node has no engine to read from; its caller passes `None`.
    pub fn read_event(&self, polled: Option<RawEvent>) -> (r: Result<Event>)
        ensures
            match polled {
                Some(raw) => r is Ok && r->Ok_0@ == event_of(raw),
                None => r == Err::<Event, Error>(Error::ReadInterrupted),
            },
    {
        match polled {
            Some(raw) => Ok(Event::new(raw)),
            None => Err(Error::ReadInterrupted),
        }
    }

    /// Prepares `msg` for a send to one peer. The message is consumed: its
    /// frames move into the result, or are released with it where the peer's
    /// identity cannot cross the boundary.
    pub fn whisper(&self, peer: &str, msg: Message) -> (r: Result<Outgoing>)
        requires
            msg@.live,
        ensures
            match r {
                Ok(o) => outgoing_of(peer@, msg@.frames) == Ok::<(Seq<u8>, Seq<Seq<u8>>), Error>(
                    outgoing_view(o),
                ),
                Err(e) => outgoing_of(peer@, msg@.frames) == Err::<(Seq<u8>, Seq<Seq<u8>>), Error>(
                    e,
                ),
            },
    {
        send_to(peer, msg)
    }

    /// Prepares `msg` for a send to every member of `group`, on the same
    /// terms as a whisper.
    pub fn shout(&self, group: &str, msg: Message) -> (r: Result<Outgoing>)
        requires
            msg@.live,
        ensures
            match r {
                Ok(o) => outgoing_of(group@, msg@.frames) == Ok::<(Seq<u8>, Seq<Seq<u8>>), Error>(
                    outgoing_view(o),
                ),
                Err(e) => outgoing_of(group@, msg@.frames) == Err::<(Seq<u8>, Seq<Seq<u8>>), Error>(
                    e,
                ),
            },
    {
        send_to(group, msg)
    }
}

/// Checks the addressee and moves the frames out of the message.
fn send_to(target: &str, msg: Message) -> (r: Result<Outgoing>)
    requires
        msg@.live,
    ensures
        match r {
            Ok(o) => outgoing_of(target@, msg@.frames) == Ok::<(Seq<u8>, Seq<Seq<u8>>), Error>(
                outgoing_view(o),
            ),
            Err(e) => outgoing_of(target@, msg@.frames) == Err::<(Seq<u8>, Seq<Seq<u8>>), Error>(e),
        },
{
    let mut msg = msg;
    let target = to_boundary(target)?;
    let frames = msg.transfer().unwrap();
    Ok(Outgoing { target, frames })
}

/// A node is destroyed exactly when it owns no engine handle.
pub proof fn lemma_destroyed_iff_no_handle<H>(z: &Zyre<H>)
    ensures
        z@.handle is None <==> z@.state == NodeState::Destroyed,
{
}

/// Releasing a node a second time changes nothing, and hands back no handle:
/// the engine handle is released at most once.
pub proof fn lemma_node_destroy_idempotent<H>(n: NodeView<H>)
    ensures
        n.released().released() == n.released(),
        n.released().handle is None,
{
}

/// A node created by the engine, started with a zero status code, stopped
/// and destroyed sees its start succeed and ends destroyed with no handle.
pub proof fn lemma_start_stop_destroy<H>(sys: H, uuid: Seq<u8>, name: Seq<u8>)
    ensures
        status_result(0, Error::StartFailed) == Ok::<(), Error>(()),
        ({
            let created = NodeView { handle: Some(sys), state: NodeState::Created, uuid, name };
            let started = created.moved_to(NodeState::Started);
            let stopped = started.moved_to(NodeState::Stopped);
            &&& started.state == NodeState::Started
            &&& stopped.state == NodeState::Stopped
            &&& stopped.released().state == NodeState::Destroyed
            &&& stopped.released().handle is None
        }),
{
}

} // verus!

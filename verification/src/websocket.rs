//! Duplex sessions: one per accepted connection. A session claims a channel
//! key in the registry when it is accepted, decides for each event of its two
//! loops what happens next, and gives the key up once when it ends. The two
//! loops share the session: when one of them stops, the other stops at its
//! next step.

use vstd::prelude::*;
use tokio::sync::mpsc::UnboundedReceiver;
use crate::channel::ChannelKey;
use crate::channel::ChannelName;
use crate::channel::Sink;
use crate::frame::Frame;
use crate::registry::Registry;
use crate::router::resolvable;
use crate::router::route;
use crate::router::routed;
use crate::router::target_of;
use crate::text::text_of;

verus! {

/// The parameters a client gives when it opens a connection.
#[derive(Debug)]
pub struct WebSocketQuery {
    pub phone: Option<String>,
    pub call_id: Option<String>,
    pub from: Option<String>,
    pub to: Option<String>,
}

/// The identity a connection is opened for: the phone number given, or the
/// empty text where none was.
pub open spec fn identity_of(phone: Option<String>) -> Seq<char> {
    match phone {
        Some(number) => number@,
        None => Seq::empty(),
    }
}

/// The key a session claims: the call's where it is attached to a call, the
/// user's otherwise.
pub open spec fn session_key(phone: Seq<char>, call_id: Option<Seq<char>>) -> ChannelName {
    match call_id {
        Some(id) => ChannelName::Call(id),
        None => ChannelName::User(phone),
    }
}

/// Reads from the connection's parameters what the session is opened with:
/// the identity and, where the connection is attached to a call, the call's
/// identifier.
pub fn websocket_handler(params: &WebSocketQuery) -> (attachment: (String, Option<String>))
    ensures
        attachment.0@ == identity_of(params.phone),
        text_of(attachment.1) == text_of(params.call_id),
{
    let phone = match &params.phone {
        Some(number) => number.clone(),
        None => String::new(),
    };
    let call_id = match &params.call_id {
        Some(id) => Some(id.clone()),
        None => None,
    };
    (phone, call_id)
}

/// The key under which a session with these parameters registers.
pub fn channel_key(phone: String, call_id: Option<String>) -> (key: ChannelKey)
    ensures
        key@ == session_key(phone@, text_of(call_id)),
{
    match call_id {
        Some(id) => ChannelKey::Call(id),
        None => ChannelKey::User(phone),
    }
}

/// The source of session tokens. Each token is issued once; its view is the
/// token that comes next.
pub struct SinkIds {
    next: u64,
}

impl View for SinkIds {
    type V = u64;

    closed spec fn view(&self) -> u64 {
        self.next
    }
}

impl SinkIds {
    /// A source that has issued nothing yet.
    pub fn new() -> (ids: SinkIds)
        ensures
            ids@ == 0,
    {
        SinkIds { next: 0 }
    }

    /// A source whose next token is `next`.
    pub fn starting_at(next: u64) -> (ids: SinkIds)
        ensures
            ids@ == next,
    {
        SinkIds { next }
    }

    /// Issues the next token, or `None` once every token has been issued.
    pub fn issue(&mut self) -> (issued: Option<u64>)
        ensures
            match issued {
                Some(id) => id == old(self)@ && final(self)@ == id + 1,
                None => old(self)@ == u64::MAX && final(self)@ == old(self)@,
            },
    {
        if self.next < u64::MAX {
            let id = self.next;
            self.next = id + 1;
            Some(id)
        } else {
            None
        }
    }
}

/// What the inbound loop saw on the connection.
#[derive(Debug)]
pub enum Inbound {
    /// A frame of application data.
    Frame(Frame),
    /// A frame of the transport's own, such as a ping.
    Control,
    /// The connection was closed or failed.
    Closed,
}

/// What the outbound loop got from the session's queue.
#[derive(Debug)]
pub enum Outbound {
    /// The next frame in the queue.
    Queued(Frame),
    /// The queue is closed and empty.
    Drained,
}

/// Whether a loop goes on.
#[derive(Debug, Clone, Copy, PartialEq, Eq, Structural)]
pub enum Flow {
    Continue,
    Stop,
}

/// What the outbound loop does next.
#[derive(Debug)]
pub enum OutboundStep {
    /// Write this frame to the connection.
    Write(Frame),
    /// Stop the loop.
    Stop,
}

/// Where a session stands in its life.
#[derive(Debug, Clone, Copy, PartialEq, Eq, Structural)]
pub enum SessionState {
    /// Both loops run.
    Running,
    /// One loop has stopped, and the other stops at its next step.
    Stopping,
    /// The session has given up its key.
    Closed,
}

/// The state of a session after a loop has taken a step: a running session
/// whose loop stops is stopping, and nothing else changes.
pub open spec fn after_step(state: SessionState, flow: Flow) -> SessionState {
    if state == SessionState::Running && flow == Flow::Stop {
        SessionState::Stopping
    } else {
        state
    }
}

/// One accepted connection: the key it claimed, a handle to its own sink,
/// and where it stands in its life.
pub struct DuplexSession {
    key: ChannelKey,
    sink: Sink,
    state: SessionState,
}

impl DuplexSession {
    /// The key this session claimed.
    pub closed spec fn key(&self) -> ChannelName {
        self.key@
    }

    /// The token of this session, which its sink carries.
    pub closed spec fn id(&self) -> u64 {
        self.sink.id()
    }

    /// Where the session stands in its life.
    pub closed spec fn state(&self) -> SessionState {
        self.state
    }

    /// Whether both loops of the session run.
    pub open spec fn is_running(&self) -> bool {
        self.state() == SessionState::Running
    }

    /// Accepts a connection. A fresh sink is opened under a token that no
    /// session had before, and registered under the key that the parameters
    /// give; a sink registered there before is superseded and left to its
    /// owner. The session comes back with the end of the queue that its
    /// outbound loop drains. Only when no token is left is the connection
    /// refused, and then nothing changes.
    pub fn accept(
        registry: &mut Registry,
        ids: &mut SinkIds,
        phone: String,
        call_id: Option<String>,
    ) -> (accepted: Option<(DuplexSession, UnboundedReceiver<Frame>)>)
        ensures
            accepted.is_some() == (old(ids)@ < u64::MAX),
            match accepted {
                Some((session, _)) => {
                    &&& session.is_running()
                    &&& session.key() == session_key(phone@, text_of(call_id))
                    &&& session.id() == old(ids)@
                    &&& final(ids)@ == old(ids)@ + 1
                    &&& final(registry)@.owned_by(session.key(), session.id())
                    &&& final(registry)@ == old(registry)@.register(
                        session.key(),
                        final(registry)@.sinks[session.key()],
                    )
                },
                None => final(ids)@ == old(ids)@ && final(registry)@ == old(registry)@,
            },
    {
        match ids.issue() {
            Some(id) => {
                let key = channel_key(phone, call_id);
                let (sink, receiver) = Sink::open(id);
                let own = sink.handle();
                let _ = registry.register(key.duplicate(), sink);
                Some((DuplexSession { key, sink: own, state: SessionState::Running }, receiver))
            },
            None => None,
        }
    }

    /// Where the session stands in its life.
    pub fn phase(&self) -> (state: SessionState)
        ensures
            state == self.state(),
    {
        self.state
    }

    /// The token of this session.
    pub fn token(&self) -> (id: u64)
        ensures
            id == self.id(),
    {
        self.sink.id()
    }

    /// The key this session claimed.
    pub fn claimed(&self) -> (key: &ChannelKey)
        ensures
            key@ == self.key(),
    {
        &self.key
    }

    /// Notes what a loop decided: a running session whose loop stops is
    /// stopping from then on.
    fn settle(&mut self, flow: Flow)
        ensures
            final(self).key() == old(self).key(),
            final(self).id() == old(self).id(),
            final(self).state() == after_step(old(self).state(), flow),
    {
        match (self.state, flow) {
            (SessionState::Running, Flow::Stop) => {
                self.state = SessionState::Stopping;
            },
            _ => {},
        }
    }

    /// One step of the inbound loop: whether the loop goes on, and whether a
    /// live sink took a frame. A frame of application data is routed and the
    /// loop goes on whether or not anything took it; a frame of the
    /// transport's own is passed over. The loop stops when the connection is
    /// closed or has failed, or when the session is no longer running; once
    /// it has stopped, the other loop stops at its next step.
    pub fn on_inbound(&mut self, registry: &mut Registry, event: Inbound) -> (step: (Flow, bool))
        ensures
            final(self).key() == old(self).key(),
            final(self).id() == old(self).id(),
            final(self).state() == after_step(old(self).state(), step.0),
            step.0 == if old(self).is_running() && !(event is Closed) {
                Flow::Continue
            } else {
                Flow::Stop
            },
            match event {
                Inbound::Frame(frame) if old(self).is_running() => {
                    &&& step.1 ==> resolvable(old(registry)@, target_of(frame@))
                    &&& final(registry)@ == routed(
                        old(registry)@,
                        target_of(frame@),
                        frame@,
                        step.1,
                    )
                },
                _ => !step.1 && final(registry)@ == old(registry)@,
            },
    {
        let step = match (self.state, event) {
            (SessionState::Running, Inbound::Frame(frame)) => (
                Flow::Continue,
                route(registry, frame),
            ),
            (SessionState::Running, Inbound::Control) => (Flow::Continue, false),
            _ => (Flow::Stop, false),
        };
        self.settle(step.0);
        step
    }

    /// One step of the outbound loop: the frame that the queue gave is to be
    /// written to the connection as it is. The loop stops when the queue is
    /// closed, or when the session is no longer running; once it has stopped,
    /// the other loop stops at its next step.
    pub fn on_outbound(&mut self, event: Outbound) -> (step: OutboundStep)
        ensures
            final(self).key() == old(self).key(),
            final(self).id() == old(self).id(),
            step == match event {
                Outbound::Queued(frame) if old(self).is_running() => OutboundStep::Write(frame),
                _ => OutboundStep::Stop,
            },
            final(self).state() == after_step(
                old(self).state(),
                if step is Stop {
                    Flow::Stop
                } else {
                    Flow::Continue
                },
            ),
    {
        match (self.state, event) {
            (SessionState::Running, Outbound::Queued(frame)) => OutboundStep::Write(frame),
            _ => {
                self.settle(Flow::Stop);
                OutboundStep::Stop
            },
        }
    }

    /// What the outbound loop does after a write: it goes on if the write
    /// went through and the session is running, and stops otherwise.
    pub fn on_written(&mut self, written: bool) -> (flow: Flow)
        ensures
            final(self).key() == old(self).key(),
            final(self).id() == old(self).id(),
            flow == if old(self).is_running() && written {
                Flow::Continue
            } else {
                Flow::Stop
            },
            final(self).state() == after_step(old(self).state(), flow),
    {
        let flow = match (self.state, written) {
            (SessionState::Running, true) => Flow::Continue,
            _ => Flow::Stop,
        };
        self.settle(flow);
        flow
    }

    /// Ends the session. The first call gives the session's key up, unless
    /// another session has claimed it since; a later call changes nothing.
    /// The answer says whether an entry left the registry.
    pub fn close(&mut self, registry: &mut Registry) -> (released: bool)
        ensures
            final(self).state() == SessionState::Closed,
            final(self).key() == old(self).key(),
            final(self).id() == old(self).id(),
            released == (old(self).state() != SessionState::Closed && old(registry)@.owned_by(
                old(self).key(),
                old(self).id(),
            )),
            final(registry)@ == if old(self).state() != SessionState::Closed {
                old(registry)@.release(old(self).key(), old(self).id())
            } else {
                old(registry)@
            },
    {
        match self.state {
            SessionState::Closed => false,
            _ => {
                self.state = SessionState::Closed;
                registry.release(&self.key, self.sink.id())
            },
        }
    }
}

/// Sends a frame to the session of the user with the given phone number, and
/// says whether a live sink took it.
pub fn send_to_phone(registry: &mut Registry, phone: &str, message: Frame) -> (delivered: bool)
    ensures
        delivered ==> old(registry)@.sinks.contains_key(ChannelName::User(phone@)),
        final(registry)@ == old(registry)@.deliver(ChannelName::User(phone@), message@, delivered),
{
    let key = ChannelKey::user(phone);
    registry.send(&key, message)
}

/// Sends a frame to the session attached to the given call, and says whether
/// a live sink took it.
pub fn send_to_call(registry: &mut Registry, call_id: &str, message: Frame) -> (delivered: bool)
    ensures
        delivered ==> old(registry)@.sinks.contains_key(ChannelName::Call(call_id@)),
        final(registry)@ == old(registry)@.deliver(ChannelName::Call(call_id@), message@, delivered),
{
    let key = ChannelKey::call(call_id);
    registry.send(&key, message)
}

} // verus!

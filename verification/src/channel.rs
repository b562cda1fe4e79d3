//! Channel keys and sinks: how a live connection is addressed, and the
//! handle through which frames are queued for it.

use vstd::prelude::*;
use tokio::sync::mpsc::UnboundedReceiver;
use tokio::sync::mpsc::UnboundedSender;
use crate::frame::Frame;

verus! {

/// The address of a registry entry: a user identity or an active call.
#[derive(Debug, Clone, PartialEq, Eq)]
pub enum ChannelKey {
    User(String),
    Call(String),
}

/// A channel key as a mathematical value: the tag and the text under it.
pub enum ChannelName {
    User(Seq<char>),
    Call(Seq<char>),
}

impl View for ChannelKey {
    type V = ChannelName;

    open spec fn view(&self) -> ChannelName {
        match self {
            ChannelKey::User(identity) => ChannelName::User(identity@),
            ChannelKey::Call(call_id) => ChannelName::Call(call_id@),
        }
    }
}

impl ChannelKey {
    /// The key of the user with the given identity.
    pub fn user(identity: &str) -> (key: ChannelKey)
        ensures
            key@ == ChannelName::User(identity@),
    {
        ChannelKey::User(identity.to_owned())
    }

    /// The key of the call with the given identifier.
    pub fn call(call_id: &str) -> (key: ChannelKey)
        ensures
            key@ == ChannelName::Call(call_id@),
    {
        ChannelKey::Call(call_id.to_owned())
    }

    /// A copy of this key.
    pub fn duplicate(&self) -> (copy: ChannelKey)
        ensures
            copy@ == self@,
    {
        match self {
            ChannelKey::User(identity) => ChannelKey::User(identity.clone()),
            ChannelKey::Call(call_id) => ChannelKey::Call(call_id.clone()),
        }
    }

    /// Whether two keys are the same: equal tags and equal text.
    pub fn same(&self, other: &ChannelKey) -> (equal: bool)
        ensures
            equal == (self@ == other@),
    {
        match (self, other) {
            (ChannelKey::User(a), ChannelKey::User(b)) => *a == *b,
            (ChannelKey::Call(a), ChannelKey::Call(b)) => *a == *b,
            _ => false,
        }
    }
}

/// The sending half of tokio's unbounded channel, `tokio::sync::mpsc::UnboundedSender`.
/// Nothing is known of what a value of it holds.
#[verifier::external_type_specification]
#[verifier::external_body]
#[verifier::reject_recursive_types(T)]
pub struct ExUnboundedSender<T>(UnboundedSender<T>);

/// The receiving half of tokio's unbounded channel, `tokio::sync::mpsc::UnboundedReceiver`.
/// Nothing is known of what a value of it holds.
#[verifier::external_type_specification]
#[verifier::external_body]
#[verifier::reject_recursive_types(T)]
pub struct ExUnboundedReceiver<T>(UnboundedReceiver<T>);

/// Calls `tokio::sync::mpsc::unbounded_channel`, which makes a new channel
/// and returns its two halves. Nothing is claimed of them.
#[verifier::external_body]
fn channel_open() -> (halves: (UnboundedSender<Frame>, UnboundedReceiver<Frame>)) {
    tokio::sync::mpsc::unbounded_channel()
}

/// Calls `UnboundedSender::send`, which queues the frame without waiting
/// unless the receiving half is closed or gone. Whether it is queued depends
/// on the receiver, so nothing is claimed of that; a frame that is refused
/// comes back in the error as it was handed in.
#[verifier::external_body]
fn channel_send(sender: &UnboundedSender<Frame>, frame: Frame) -> (sent: Result<(), Frame>)
    ensures
        sent matches Err(refused) ==> refused == frame,
{
    sender.send(frame).map_err(|error| error.0)
}

/// Calls `UnboundedSender::clone`, which returns another sender for the same
/// channel. Nothing is claimed of it.
#[verifier::external_body]
fn channel_share(sender: &UnboundedSender<Frame>) -> (shared: UnboundedSender<Frame>) {
    sender.clone()
}

/// The outbound queue of one connection, seen from the side that fills it.
/// A sink carries the token of the session that opened it; handles to the
/// same queue carry the same token.
pub struct Sink {
    token: u64,
    sender: UnboundedSender<Frame>,
}

impl Sink {
    /// The token of the session that opened this sink.
    pub closed spec fn spec_id(&self) -> u64 {
        self.token
    }

    /// Opens a new queue for the session with token `id`, and returns the
    /// sink together with the end from which the session drains it.
    pub fn open(id: u64) -> (opened: (Sink, UnboundedReceiver<Frame>))
        ensures
            opened.0.id() == id,
    {
        let (sender, receiver) = channel_open();
        (Sink { token: id, sender }, receiver)
    }

    /// The token of the session that opened this sink.
    #[verifier::when_used_as_spec(spec_id)]
    pub fn id(&self) -> (id: u64)
        ensures
            id == self.id(),
    {
        self.token
    }

    /// Another handle to the same queue, with the same token.
    pub fn handle(&self) -> (other: Sink)
        ensures
            other.id() == self.id(),
    {
        Sink { token: self.token, sender: channel_share(&self.sender) }
    }

    /// Offers a frame to the queue. The queue takes it unless its draining
    /// end is closed or gone; a frame that is refused comes back unchanged.
    pub fn offer(&self, frame: Frame) -> (offered: Result<(), Frame>)
        ensures
            offered matches Err(refused) ==> refused == frame,
    {
        channel_send(&self.sender, frame)
    }
}

} // verus!

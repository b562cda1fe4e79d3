//! Call control: starting and ending calls, and telling the callee.
//!
//! A callee is told over their live connection where they have one, and by
//! push notification otherwise.

use vstd::prelude::*;
use crate::channel::ChannelName;
use crate::common::PushSubscriptionsStore;
use crate::frame::Frame;
use crate::random::fresh_uuid;
use crate::random::is_hyphenated_id;
use crate::registry::Registry;
use crate::store::KeyedStore;
use crate::text::joined;
use crate::websocket::send_to_phone;

verus! {

/// A request to start a call.
#[derive(Debug)]
pub struct InitiateCallRequest {
    pub from: String,
    pub to: String,
}

/// The answer to a request to start a call.
#[derive(Debug)]
pub struct InitiateCallResponse {
    pub success: bool,
    pub call_id: String,
    pub message: String,
}

/// A request to end a call.
#[derive(Debug)]
pub struct EndCallRequest {
    pub call_id: String,
    pub from: String,
    pub to: String,
}

/// The answer to a request to end a call.
#[derive(Debug)]
pub struct EndCallResponse {
    pub success: bool,
    pub message: String,
}

/// The two parties of a call in progress.
#[derive(Debug)]
pub struct ActiveCall {
    pub caller: String,
    pub callee: String,
}

/// The calls in progress, by call identifier.
pub type ActiveCalls = KeyedStore<ActiveCall>;

/// How a notification went out.
#[derive(Debug, Clone, Copy, PartialEq, Eq, Structural)]
pub enum Notice {
    /// The callee's live connection took it.
    Relayed,
    /// No live connection took it, and the callee has devices to push to.
    Pushed,
    /// No live connection took it, and the callee has no device to push to.
    Unreachable,
    /// None was due.
    Skipped,
}

/// The way a notification takes: the live connection first, push second.
pub open spec fn notice_for(delivered: bool, subscribed: bool) -> Notice {
    if delivered {
        Notice::Relayed
    } else if subscribed {
        Notice::Pushed
    } else {
        Notice::Unreachable
    }
}

/// The text pushed to the callee when a call comes in.
pub open spec fn incoming_text(from: Seq<char>) -> Seq<char> {
    from + " vous appelle"@
}

/// The text pushed to the callee after a call that was not answered.
pub open spec fn missed_text(from: Seq<char>) -> Seq<char> {
    "Appel manqu\u{e9} de "@ + from
}

/// The text pushed to the callee when a call comes in.
pub fn incoming_call_text(from: &str) -> (text: String)
    ensures
        text@ == incoming_text(from@),
{
    joined(from, " vous appelle")
}

/// The text pushed to the callee after a call that was not answered.
pub fn missed_call_text(from: &str) -> (text: String)
    ensures
        text@ == missed_text(from@),
{
    joined("Appel manqu\u{e9} de ", from)
}

/// A fresh identifier for a call. Which one comes is chance; it has the
/// hyphenated form.
pub fn new_call_id() -> (call_id: String)
    ensures
        is_hyphenated_id(call_id@),
{
    fresh_uuid()
}

/// Offers `frame` to the live connection of the user `identity`, and says
/// whether it was taken. On `false` the caller falls back to a push
/// notification.
pub fn notify_callee(registry: &mut Registry, identity: &str, frame: Frame) -> (delivered: bool)
    ensures
        delivered ==> old(registry)@.sinks.contains_key(ChannelName::User(identity@)),
        final(registry)@ == old(registry)@.deliver(ChannelName::User(identity@), frame@, delivered),
{
    send_to_phone(registry, identity, frame)
}

/// Tells `callee` by the live connection first and by push second, and says
/// which way it went.
pub fn notify(
    registry: &mut Registry,
    subscriptions: &PushSubscriptionsStore,
    callee: &String,
    frame: Frame,
) -> (notice: Notice)
    ensures
        notice == notice_for(notice == Notice::Relayed, subscriptions@.contains_key(callee@)),
        notice == Notice::Relayed ==> old(registry)@.sinks.contains_key(ChannelName::User(callee@)),
        final(registry)@ == old(registry)@.deliver(
            ChannelName::User(callee@),
            frame@,
            notice == Notice::Relayed,
        ),
{
    if notify_callee(registry, callee.as_str(), frame) {
        Notice::Relayed
    } else if subscriptions.contains(callee) {
        Notice::Pushed
    } else {
        Notice::Unreachable
    }
}

/// Starts the call `call_id`: records its two parties, and tells the callee
/// with `frame`. The answer carries the call's identifier.
pub fn initiate_call(
    calls: &mut ActiveCalls,
    registry: &mut Registry,
    subscriptions: &PushSubscriptionsStore,
    body: &InitiateCallRequest,
    call_id: String,
    frame: Frame,
) -> (outcome: (InitiateCallResponse, Notice))
    ensures
        outcome.0.success,
        outcome.0.call_id@ == call_id@,
        outcome.0.message@ == "Call initiated"@,
        final(calls)@ == old(calls)@.insert(
            call_id@,
            (ActiveCall { caller: body.from, callee: body.to }),
        ),
        outcome.1 == notice_for(outcome.1 == Notice::Relayed, subscriptions@.contains_key(body.to@)),
        outcome.1 == Notice::Relayed ==> old(registry)@.sinks.contains_key(
            ChannelName::User(body.to@),
        ),
        final(registry)@ == old(registry)@.deliver(
            ChannelName::User(body.to@),
            frame@,
            outcome.1 == Notice::Relayed,
        ),
{
    let call = ActiveCall { caller: body.from.clone(), callee: body.to.clone() };
    let _ = calls.insert(call_id.clone(), call);
    let notice = notify(registry, subscriptions, &body.to, frame);
    let response = InitiateCallResponse {
        success: true,
        call_id,
        message: "Call initiated".to_owned(),
    };
    (response, notice)
}

/// Ends a call: forgets it, and where it was not answered tells the callee
/// with `frame` that a call was missed.
pub fn end_call(
    calls: &mut ActiveCalls,
    registry: &mut Registry,
    subscriptions: &PushSubscriptionsStore,
    body: &EndCallRequest,
    answered: bool,
    frame: Frame,
) -> (outcome: (EndCallResponse, Notice))
    ensures
        outcome.0.success,
        outcome.0.message@ == "Call ended"@,
        final(calls)@ == old(calls)@.remove(body.call_id@),
        answered ==> outcome.1 == Notice::Skipped && final(registry)@ == old(registry)@,
        !answered ==> {
            &&& outcome.1 == notice_for(
                outcome.1 == Notice::Relayed,
                subscriptions@.contains_key(body.to@),
            )
            &&& outcome.1 == Notice::Relayed ==> old(registry)@.sinks.contains_key(
                ChannelName::User(body.to@),
            )
            &&& final(registry)@ == old(registry)@.deliver(
                ChannelName::User(body.to@),
                frame@,
                outcome.1 == Notice::Relayed,
            )
        },
{
    let _ = calls.remove(&body.call_id);
    let notice = if answered {
        Notice::Skipped
    } else {
        notify(registry, subscriptions, &body.to, frame)
    };
    let response = EndCallResponse { success: true, message: "Call ended".to_owned() };
    (response, notice)
}

} // verus!

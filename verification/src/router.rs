//! The signal router: turns one inbound frame into at most one delivery.
//!
//! A frame is routed when it is text, parses as JSON and carries the target
//! call's identifier as a string member; it then goes to the sink registered
//! for that call. Any other frame is dropped without a trace.

use vstd::prelude::*;
use crate::channel::ChannelKey;
use crate::channel::ChannelName;
use crate::frame::Frame;
use crate::frame::FrameView;
use crate::registry::Registry;
use crate::registry::RegistryView;
use crate::text::text_of;

verus! {

/// A parsed JSON document of serde_json, `serde_json::Value`. Nothing is
/// known of what a value of it holds but through `json_strings`.
#[verifier::external_type_specification]
#[verifier::external_body]
pub struct ExJsonValue(serde_json::Value);

/// The error of serde_json, `serde_json::Error`. Nothing is known of what a
/// value of it holds.
#[verifier::external_type_specification]
#[verifier::external_body]
pub struct ExJsonError(serde_json::Error);

/// The string members of a JSON document, by name: where the document is an
/// object, each member whose value is a string; otherwise none.
pub uninterp spec fn json_strings(document: serde_json::Value) -> Map<Seq<char>, Seq<char>>;

/// The string members of the document that `text` parses to, or `None` where
/// `text` is not well-formed JSON. It stands for what serde_json computes.
pub uninterp spec fn json_document(text: Seq<char>) -> Option<Map<Seq<char>, Seq<char>>>;

/// Parses `text` with `serde_json::from_str` into a `serde_json::Value`. The
/// contract only names the outcome: the same text always parses alike.
#[verifier::external_body]
fn json_parse(text: &str) -> (parsed: Result<serde_json::Value, serde_json::Error>)
    ensures
        match parsed {
            Ok(document) => json_document(text@) == Some(json_strings(document)),
            Err(_) => json_document(text@).is_none(),
        },
{
    serde_json::from_str(text)
}

/// Looks `name` up with `serde_json::Value::get`, which finds a member only
/// in an object, and hands the member back if it is a JSON string.
#[verifier::external_body]
fn json_string(document: &serde_json::Value, name: &str) -> (member: Option<String>)
    ensures
        match member {
            Some(found) => json_strings(*document).contains_key(name@) && json_strings(
                *document,
            )[name@] == found@,
            None => !json_strings(*document).contains_key(name@),
        },
{
    match document.get(name) {
        Some(serde_json::Value::String(found)) => Some(found.clone()),
        _ => None,
    }
}

/// The name of the member that carries the target call's identifier.
pub open spec fn target_member() -> Seq<char> {
    "callId"@
}

/// The target call's identifier in a JSON text: the string member of that
/// name, where the text is well-formed and has one.
pub open spec fn text_target(text: Seq<char>) -> Option<Seq<char>> {
    match json_document(text) {
        Some(members) => if members.contains_key(target_member()) {
            Some(members[target_member()])
        } else {
            None
        },
        None => None,
    }
}

/// The call that a frame is addressed to, if it names one. A binary frame
/// names none.
pub open spec fn target_of(frame: FrameView) -> Option<Seq<char>> {
    match frame {
        FrameView::Text(text) => text_target(text),
        FrameView::Binary(_) => None,
    }
}

/// The registry after a frame addressed to `target` has been routed, where
/// `accepted` says whether the queue that was found took it.
pub open spec fn routed(
    registry: RegistryView,
    target: Option<Seq<char>>,
    frame: FrameView,
    accepted: bool,
) -> RegistryView {
    match target {
        Some(call_id) => registry.deliver(ChannelName::Call(call_id), frame, accepted),
        None => registry,
    }
}

/// Whether a frame addressed to `target` has a sink to go to.
pub open spec fn resolvable(registry: RegistryView, target: Option<Seq<char>>) -> bool {
    match target {
        Some(call_id) => registry.sinks.contains_key(ChannelName::Call(call_id)),
        None => false,
    }
}

/// Reads the target call's identifier out of a frame. Binary frames, text
/// that does not parse, and documents that carry no such identifier as a
/// string have none.
pub fn frame_target(frame: &Frame) -> (target: Option<String>)
    ensures
        text_of(target) == target_of(frame@),
{
    match frame {
        Frame::Text(text) => match json_parse(text.as_str()) {
            Ok(document) => json_string(&document, "callId"),
            Err(_) => None,
        },
        Frame::Binary(_) => None,
    }
}

/// Forwards `frame` to the sink registered for the call `target`, and says
/// whether a live sink took it. Without a target, or without a sink for it,
/// nothing is handed to any queue; with both, the frame is handed to that
/// sink's queue and to no other.
pub fn forward(registry: &mut Registry, target: Option<String>, frame: Frame) -> (delivered: bool)
    ensures
        delivered ==> resolvable(old(registry)@, text_of(target)),
        final(registry)@ == routed(old(registry)@, text_of(target), frame@, delivered),
{
    match target {
        Some(call_id) => {
            let key = ChannelKey::Call(call_id);
            registry.send(&key, frame)
        },
        None => false,
    }
}

/// Routes one inbound frame: reads its target and forwards the frame,
/// unchanged, to the sink registered for that call. The answer says whether
/// a live sink took it; the sender is told nothing either way.
pub fn route(registry: &mut Registry, frame: Frame) -> (delivered: bool)
    ensures
        delivered ==> resolvable(old(registry)@, target_of(frame@)),
        final(registry)@ == routed(old(registry)@, target_of(frame@), frame@, delivered),
{
    let target = frame_target(&frame);
    forward(registry, target, frame)
}

/// Routing correctness: a frame addressed to a call whose sink is registered
/// and live is added, as it is, to the end of that sink's log; no other sink
/// is handed anything, and the entries of the registry stay as they were.
pub proof fn routing_reaches_its_target(registry: RegistryView, frame: FrameView, call_id: Seq<char>)
    requires
        target_of(frame) == Some(call_id),
        registry.sinks.contains_key(ChannelName::Call(call_id)),
    ensures
        ({
            let id = registry.sinks[ChannelName::Call(call_id)].id();
            let after = routed(registry, target_of(frame), frame, true);
            &&& after.sinks == registry.sinks
            &&& after.log(id) == registry.log(id).push(frame)
            &&& after.offers(id) == registry.offers(id).push(frame)
            &&& forall|other: u64|
                other != id ==> after.log(other) == registry.log(other) && after.offers(other)
                    == registry.offers(other)
        }),
{
}

/// Silent drop: a frame that names no target, or a target for which no sink
/// is registered, is handed to no queue: the registry and every log stay as
/// they were, whatever the answer of the routing was.
pub proof fn unroutable_frame_is_dropped(registry: RegistryView, frame: FrameView, delivered: bool)
    requires
        !resolvable(registry, target_of(frame)),
    ensures
        routed(registry, target_of(frame), frame, delivered) == registry,
{
}

} // verus!

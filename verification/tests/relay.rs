use blinder_server::channel::{ChannelKey, Sink};
use blinder_server::frame::Frame;
use blinder_server::registry::Registry;
use blinder_server::router::{forward, frame_target, route};
use blinder_server::websocket::{
    channel_key, send_to_call, send_to_phone, websocket_handler, DuplexSession, Flow, Inbound,
    Outbound, OutboundStep, SessionState, SinkIds, WebSocketQuery,
};
use blinder_server::calls::notify_callee;

fn text(content: &str) -> Frame {
    Frame::Text(content.to_string())
}

#[test]
fn register_twice_supersedes() {
    let mut registry = Registry::new();
    let (s1, mut r1) = Sink::open(1);
    let (s2, mut r2) = Sink::open(2);
    assert!(registry.register(ChannelKey::user("k"), s1).is_none());
    let superseded = registry.register(ChannelKey::user("k"), s2);
    assert_eq!(superseded.map(|s| s.id()), Some(1));
    assert_eq!(registry.lookup(&ChannelKey::user("k")).map(|s| s.id()), Some(2));
    assert!(registry.send(&ChannelKey::user("k"), text("f")));
    assert_eq!(r2.try_recv().ok(), Some(text("f")));
    assert!(r1.try_recv().is_err());
}

#[test]
fn unregister_after_register_leaves_nothing() {
    let mut registry = Registry::new();
    let (sink, _rx) = Sink::open(7);
    registry.register(ChannelKey::call("c"), sink);
    let removed = registry.unregister(&ChannelKey::call("c"));
    assert_eq!(removed.map(|s| s.id()), Some(7));
    assert!(registry.lookup(&ChannelKey::call("c")).is_none());
}

#[test]
fn unregister_is_idempotent() {
    let mut registry = Registry::new();
    let (kept, _rk) = Sink::open(1);
    let (gone, _rg) = Sink::open(2);
    registry.register(ChannelKey::user("kept"), kept);
    registry.register(ChannelKey::user("gone"), gone);
    assert!(registry.unregister(&ChannelKey::user("absent")).is_none());
    assert!(registry.unregister(&ChannelKey::user("gone")).is_some());
    assert!(registry.unregister(&ChannelKey::user("gone")).is_none());
    assert_eq!(registry.lookup(&ChannelKey::user("kept")).map(|s| s.id()), Some(1));
    assert!(registry.lookup(&ChannelKey::user("gone")).is_none());
}

#[test]
fn user_and_call_keys_are_apart() {
    let mut registry = Registry::new();
    let (user, mut ru) = Sink::open(1);
    let (call, mut rc) = Sink::open(2);
    registry.register(ChannelKey::user("x"), user);
    registry.register(ChannelKey::call("x"), call);
    assert_eq!(registry.lookup(&ChannelKey::user("x")).map(|s| s.id()), Some(1));
    assert_eq!(registry.lookup(&ChannelKey::call("x")).map(|s| s.id()), Some(2));
    assert!(registry.send(&ChannelKey::call("x"), text("to call")));
    assert_eq!(rc.try_recv().ok(), Some(text("to call")));
    assert!(ru.try_recv().is_err());
    assert!(!ChannelKey::user("x").same(&ChannelKey::call("x")));
    assert!(ChannelKey::user("x").same(&ChannelKey::user("x")));
    assert!(!ChannelKey::user("x").same(&ChannelKey::user("y")));
    assert_eq!(ChannelKey::call("x").duplicate(), ChannelKey::Call("x".to_string()));
}

#[test]
fn send_without_entry_is_false() {
    let mut registry = Registry::new();
    assert!(!registry.send(&ChannelKey::user("nobody"), text("f")));
}

#[test]
fn send_to_closed_queue_is_false() {
    let mut registry = Registry::new();
    let (sink, rx) = Sink::open(1);
    registry.register(ChannelKey::user("u"), sink);
    drop(rx);
    assert!(!registry.send(&ChannelKey::user("u"), text("f")));
    assert_eq!(registry.lookup(&ChannelKey::user("u")).map(|s| s.id()), Some(1));
}

#[test]
fn lookup_gives_a_usable_handle() {
    let mut registry = Registry::new();
    let (sink, mut rx) = Sink::open(3);
    registry.register(ChannelKey::user("u"), sink);
    let found = registry.lookup(&ChannelKey::user("u")).map(|s| s.handle());
    let handle = found.unwrap();
    assert_eq!(handle.id(), 3);
    assert!(handle.offer(text("direct")).is_ok());
    assert_eq!(rx.try_recv().ok(), Some(text("direct")));
    drop(rx);
    assert_eq!(handle.offer(text("late")), Err(text("late")));
}

#[test]
fn release_only_removes_own_entry() {
    let mut registry = Registry::new();
    let (first, _r1) = Sink::open(1);
    let (second, _r2) = Sink::open(2);
    registry.register(ChannelKey::user("u"), first);
    registry.register(ChannelKey::user("u"), second);
    assert!(!registry.release(&ChannelKey::user("u"), 1));
    assert_eq!(registry.lookup(&ChannelKey::user("u")).map(|s| s.id()), Some(2));
    assert!(registry.release(&ChannelKey::user("u"), 2));
    assert!(registry.lookup(&ChannelKey::user("u")).is_none());
    assert!(!registry.release(&ChannelKey::user("u"), 2));
}

#[test]
fn frames_arrive_in_order() {
    let mut registry = Registry::new();
    let (sink, mut rx) = Sink::open(1);
    registry.register(ChannelKey::call("c"), sink);
    assert!(registry.send(&ChannelKey::call("c"), text("f1")));
    assert!(registry.send(&ChannelKey::call("c"), Frame::Binary(vec![2, 2])));
    assert!(registry.send(&ChannelKey::call("c"), text("f3")));
    assert_eq!(rx.try_recv().ok(), Some(text("f1")));
    assert_eq!(rx.try_recv().ok(), Some(Frame::Binary(vec![2, 2])));
    assert_eq!(rx.try_recv().ok(), Some(text("f3")));
    assert!(rx.try_recv().is_err());
}

#[test]
fn target_is_read_from_the_frame() {
    assert_eq!(frame_target(&text("{\"callId\":\"call-42\"}")), Some("call-42".to_string()));
    assert_eq!(
        frame_target(&text("{\"type\":\"offer\",\"callId\":\"a b\",\"sdp\":{\"x\":1}}")),
        Some("a b".to_string())
    );
    assert_eq!(frame_target(&text("{\"callId\":\"\"}")), Some(String::new()));
}

#[test]
fn frames_without_target_have_none() {
    assert_eq!(frame_target(&text("not json")), None);
    assert_eq!(frame_target(&text("")), None);
    assert_eq!(frame_target(&text("{\"callId\":42}")), None);
    assert_eq!(frame_target(&text("{\"callId\":null}")), None);
    assert_eq!(frame_target(&text("{\"call_id\":\"x\"}")), None);
    assert_eq!(frame_target(&text("[\"callId\"]")), None);
    assert_eq!(frame_target(&text("\"callId\"")), None);
    assert_eq!(frame_target(&text("{\"callId\":\"x\"")), None);
    assert_eq!(frame_target(&Frame::Binary(b"{\"callId\":\"x\"}".to_vec())), None);
}

#[test]
fn routed_frame_reaches_only_its_target() {
    let mut registry = Registry::new();
    let (target, mut rt) = Sink::open(1);
    let (other, mut ro) = Sink::open(2);
    let (user, mut ru) = Sink::open(3);
    registry.register(ChannelKey::call("X"), target);
    registry.register(ChannelKey::call("Y"), other);
    registry.register(ChannelKey::user("X"), user);
    let raw = "{ \"callId\" : \"X\",  \"payload\":\"\\u00e9 caf\u{e9}\" }";
    assert!(route(&mut registry, text(raw)));
    assert_eq!(rt.try_recv().ok(), Some(text(raw)));
    assert!(rt.try_recv().is_err());
    assert!(ro.try_recv().is_err());
    assert!(ru.try_recv().is_err());
}

#[test]
fn unroutable_frames_are_dropped() {
    let mut registry = Registry::new();
    let (sink, mut rx) = Sink::open(1);
    registry.register(ChannelKey::call("X"), sink);
    assert!(!route(&mut registry, text("garbage")));
    assert!(!route(&mut registry, text("{\"other\":\"X\"}")));
    assert!(!route(&mut registry, text("{\"callId\":\"unknown\"}")));
    assert!(!route(&mut registry, Frame::Binary(vec![1, 2, 3])));
    assert!(!forward(&mut registry, None, text("f")));
    assert!(rx.try_recv().is_err());
    assert_eq!(registry.lookup(&ChannelKey::call("X")).map(|s| s.id()), Some(1));
    assert!(forward(&mut registry, Some("X".to_string()), text("f")));
    assert_eq!(rx.try_recv().ok(), Some(text("f")));
}

#[test]
fn end_to_end_notification() {
    let mut registry = Registry::new();
    let mut ids = SinkIds::new();
    let (mut a, mut ra) =
        DuplexSession::accept(&mut registry, &mut ids, "+15550001".to_string(), None).unwrap();
    let (_b, mut rb) = DuplexSession::accept(
        &mut registry,
        &mut ids,
        "+15550002".to_string(),
        Some("call-42".to_string()),
    )
    .unwrap();
    assert!(notify_callee(&mut registry, "+15550001", text("frame")));
    assert_eq!(ra.try_recv().ok(), Some(text("frame")));
    assert!(rb.try_recv().is_err());
    assert!(a.close(&mut registry));
    assert!(!notify_callee(&mut registry, "+15550001", text("frame")));
    assert!(ra.try_recv().is_err());
    assert!(registry.lookup(&ChannelKey::call("call-42")).is_some());
}

#[test]
fn superseded_session_gets_nothing_and_evicts_nobody() {
    let mut registry = Registry::new();
    let mut ids = SinkIds::new();
    let (mut a, mut ra) =
        DuplexSession::accept(&mut registry, &mut ids, "u1".to_string(), None).unwrap();
    let (mut c, mut rc) =
        DuplexSession::accept(&mut registry, &mut ids, "u1".to_string(), None).unwrap();
    assert_ne!(a.token(), c.token());
    assert!(registry.send(&ChannelKey::user("u1"), text("f")));
    assert_eq!(rc.try_recv().ok(), Some(text("f")));
    assert!(ra.try_recv().is_err());
    assert_eq!(a.phase(), SessionState::Running);
    assert!(!a.close(&mut registry));
    assert_eq!(registry.lookup(&ChannelKey::user("u1")).map(|s| s.id()), Some(c.token()));
    assert!(send_to_phone(&mut registry, "u1", text("g")));
    assert_eq!(rc.try_recv().ok(), Some(text("g")));
    assert!(c.close(&mut registry));
    assert!(registry.lookup(&ChannelKey::user("u1")).is_none());
}

#[test]
fn session_key_prefers_the_call() {
    assert_eq!(channel_key("p".to_string(), None), ChannelKey::User("p".to_string()));
    assert_eq!(
        channel_key("p".to_string(), Some("c".to_string())),
        ChannelKey::Call("c".to_string())
    );
    let query = WebSocketQuery {
        phone: None,
        call_id: Some("c9".to_string()),
        from: None,
        to: None,
    };
    assert_eq!(websocket_handler(&query), (String::new(), Some("c9".to_string())));
    let query = WebSocketQuery {
        phone: Some("+1".to_string()),
        call_id: None,
        from: Some("a".to_string()),
        to: Some("b".to_string()),
    };
    assert_eq!(websocket_handler(&query), ("+1".to_string(), None));
}

#[test]
fn accept_registers_under_fresh_tokens() {
    let mut registry = Registry::new();
    let mut ids = SinkIds::new();
    let (first, _r1) =
        DuplexSession::accept(&mut registry, &mut ids, "a".to_string(), None).unwrap();
    let (second, _r2) =
        DuplexSession::accept(&mut registry, &mut ids, "b".to_string(), Some("c".to_string()))
            .unwrap();
    assert_eq!(first.token(), 0);
    assert_eq!(second.token(), 1);
    assert_eq!(first.claimed(), &ChannelKey::User("a".to_string()));
    assert_eq!(second.claimed(), &ChannelKey::Call("c".to_string()));
    assert_eq!(registry.lookup(&ChannelKey::user("a")).map(|s| s.id()), Some(0));
    assert_eq!(registry.lookup(&ChannelKey::call("c")).map(|s| s.id()), Some(1));
    assert!(registry.lookup(&ChannelKey::user("b")).is_none());
}

#[test]
fn accept_is_refused_when_tokens_run_out() {
    let mut registry = Registry::new();
    let mut ids = SinkIds::starting_at(u64::MAX - 1);
    assert_eq!(ids.issue(), Some(u64::MAX - 1));
    assert!(DuplexSession::accept(&mut registry, &mut ids, "a".to_string(), None).is_none());
    assert!(registry.lookup(&ChannelKey::user("a")).is_none());
    assert_eq!(ids.issue(), None);
}

#[test]
fn superseded_queue_stays_open_for_its_owner() {
    let mut registry = Registry::new();
    let mut ids = SinkIds::new();
    let (_a, mut ra) =
        DuplexSession::accept(&mut registry, &mut ids, "u".to_string(), None).unwrap();
    let (_c, _rc) = DuplexSession::accept(&mut registry, &mut ids, "u".to_string(), None).unwrap();
    assert!(matches!(
        ra.try_recv(),
        Err(tokio::sync::mpsc::error::TryRecvError::Empty)
    ));
}

#[test]
fn inbound_loop_routes_and_goes_on() {
    let mut registry = Registry::new();
    let mut ids = SinkIds::new();
    let (mut sender, _rs) =
        DuplexSession::accept(&mut registry, &mut ids, "s".to_string(), None).unwrap();
    let (_peer, mut rp) =
        DuplexSession::accept(&mut registry, &mut ids, "p".to_string(), Some("c1".to_string()))
            .unwrap();
    let frame = text("{\"callId\":\"c1\",\"kind\":\"offer\"}");
    assert_eq!(
        sender.on_inbound(&mut registry, Inbound::Frame(frame.clone())),
        (Flow::Continue, true)
    );
    assert_eq!(rp.try_recv().ok(), Some(frame));
    assert_eq!(
        sender.on_inbound(&mut registry, Inbound::Frame(text("junk"))),
        (Flow::Continue, false)
    );
    assert_eq!(
        sender.on_inbound(&mut registry, Inbound::Frame(text("{\"callId\":\"none\"}"))),
        (Flow::Continue, false)
    );
    assert_eq!(sender.on_inbound(&mut registry, Inbound::Control), (Flow::Continue, false));
    assert!(rp.try_recv().is_err());
    assert_eq!(sender.phase(), SessionState::Running);
    assert_eq!(sender.on_inbound(&mut registry, Inbound::Closed), (Flow::Stop, false));
    assert_eq!(sender.phase(), SessionState::Stopping);
    assert_eq!(
        sender.on_inbound(&mut registry, Inbound::Frame(text("{\"callId\":\"c1\"}"))),
        (Flow::Stop, false)
    );
    assert!(rp.try_recv().is_err());
    assert!(sender.close(&mut registry));
    assert_eq!(
        sender.on_inbound(&mut registry, Inbound::Frame(text("{\"callId\":\"c1\"}"))),
        (Flow::Stop, false)
    );
    assert_eq!(sender.phase(), SessionState::Closed);
    assert!(rp.try_recv().is_err());
}

#[test]
fn outbound_loop_writes_what_it_gets() {
    let mut registry = Registry::new();
    let mut ids = SinkIds::new();
    let (mut session, _rx) =
        DuplexSession::accept(&mut registry, &mut ids, "s".to_string(), None).unwrap();
    assert!(matches!(
        session.on_outbound(Outbound::Queued(text("out"))),
        OutboundStep::Write(Frame::Text(t)) if t == "out"
    ));
    assert!(matches!(
        session.on_outbound(Outbound::Queued(Frame::Binary(vec![0, 255]))),
        OutboundStep::Write(Frame::Binary(b)) if b == vec![0, 255]
    ));
    assert_eq!(session.on_written(true), Flow::Continue);
    assert_eq!(session.phase(), SessionState::Running);
    assert!(matches!(session.on_outbound(Outbound::Drained), OutboundStep::Stop));
    assert_eq!(session.phase(), SessionState::Stopping);
    assert!(matches!(session.on_outbound(Outbound::Queued(text("late"))), OutboundStep::Stop));
    assert_eq!(session.on_written(true), Flow::Stop);
}

#[test]
fn a_stopped_loop_stops_the_other() {
    let mut registry = Registry::new();
    let mut ids = SinkIds::new();
    let (mut session, _rx) =
        DuplexSession::accept(&mut registry, &mut ids, "s".to_string(), None).unwrap();
    let (_peer, mut rp) =
        DuplexSession::accept(&mut registry, &mut ids, "p".to_string(), Some("c".to_string()))
            .unwrap();
    assert_eq!(session.on_written(false), Flow::Stop);
    assert_eq!(session.phase(), SessionState::Stopping);
    assert_eq!(
        session.on_inbound(&mut registry, Inbound::Frame(text("{\"callId\":\"c\"}"))),
        (Flow::Stop, false)
    );
    assert!(rp.try_recv().is_err());
    assert_eq!(session.on_inbound(&mut registry, Inbound::Control), (Flow::Stop, false));
    assert!(registry.lookup(&ChannelKey::user("s")).is_some());
    assert!(session.close(&mut registry));
    assert!(registry.lookup(&ChannelKey::user("s")).is_none());
    assert!(!session.close(&mut registry));
}

#[test]
fn close_unregisters_once() {
    let mut registry = Registry::new();
    let mut ids = SinkIds::new();
    let (mut first, _r1) =
        DuplexSession::accept(&mut registry, &mut ids, "u".to_string(), None).unwrap();
    assert_eq!(first.phase(), SessionState::Running);
    assert!(first.close(&mut registry));
    assert_eq!(first.phase(), SessionState::Closed);
    let (second, _r2) =
        DuplexSession::accept(&mut registry, &mut ids, "u".to_string(), None).unwrap();
    assert!(!first.close(&mut registry));
    assert_eq!(registry.lookup(&ChannelKey::user("u")).map(|s| s.id()), Some(second.token()));
}

#[test]
fn send_to_call_and_phone_address_their_own_keys() {
    let mut registry = Registry::new();
    let (phone, mut rp) = Sink::open(1);
    let (call, mut rc) = Sink::open(2);
    registry.register(ChannelKey::user("same"), phone);
    registry.register(ChannelKey::call("same"), call);
    assert!(send_to_call(&mut registry, "same", text("c")));
    assert!(send_to_phone(&mut registry, "same", text("p")));
    assert!(!send_to_call(&mut registry, "other", text("x")));
    assert!(!send_to_phone(&mut registry, "other", text("x")));
    assert_eq!(rc.try_recv().ok(), Some(text("c")));
    assert_eq!(rp.try_recv().ok(), Some(text("p")));
    assert!(rc.try_recv().is_err());
    assert!(rp.try_recv().is_err());
}

#[test]
fn text_frames_hold_their_content() {
    assert_eq!(Frame::text("abc"), Frame::Text("abc".to_string()));
    assert_eq!(Frame::text(""), Frame::Text(String::new()));
    assert_ne!(Frame::text("abc"), Frame::Binary(b"abc".to_vec()));
}

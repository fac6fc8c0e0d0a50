use clipsync::bridge::on_clipboard_change;
use clipsync::guard::LoopGuard;
use clipsync::lifecycle::{follow_edge, poll, LinkCommand, LockEdge, LockMonitor};
use clipsync::multicast_link::{IpType, MulticastLink};
use clipsync::receiver::{decode_payload, receiver_step, ReceiverAction, ReceiverEvent};

#[test]
fn watcher_hello_with_empty_guard_emits_one_datagram() {
    let link = MulticastLink::new(IpType::IPV4);
    let mut guard = LoopGuard::new();
    let d = on_clipboard_change(Some("hello".to_string()), &mut guard, Some(&link)).unwrap();
    assert_eq!(d.payload, b"hello".to_vec());
    assert_eq!(guard.text(), "hello");
    // The same text reported again is not broadcast a second time.
    assert!(on_clipboard_change(Some("hello".to_string()), &mut guard, Some(&link)).is_none());
}

#[test]
fn received_hello_is_applied_and_not_broadcast_again() {
    let link = MulticastLink::new(IpType::IPV4);
    let mut guard = LoopGuard::new();
    let action = receiver_step(Some(&guard), ReceiverEvent::Datagram(b"hello".to_vec()));
    let text = match action {
        ReceiverAction::Apply(t) => t,
        _ => panic!("the payload should be applied"),
    };
    assert_eq!(text, "hello");
    guard.after_apply(text, true);
    assert_eq!(guard.text(), "hello");
    let r = on_clipboard_change(Some("hello".to_string()), &mut guard, Some(&link));
    assert!(r.is_none());
}

#[test]
fn failed_apply_leaves_guard_alone() {
    let mut guard = LoopGuard::with_text("old".to_string());
    guard.after_apply("new".to_string(), false);
    assert_eq!(guard.text(), "old");
    guard.record("other".to_string());
    assert_eq!(guard.text(), "other");
}

#[test]
fn receiving_the_guard_text_is_discarded() {
    for t in ["", "abc", "héllo"] {
        let guard = LoopGuard::with_text(t.to_string());
        let action = receiver_step(Some(&guard), ReceiverEvent::Datagram(t.as_bytes().to_vec()));
        assert!(matches!(action, ReceiverAction::Discard));
        assert_eq!(guard.text(), t);
    }
}

#[test]
fn contended_guard_still_applies() {
    let action = receiver_step(None, ReceiverEvent::Datagram(b"abc".to_vec()));
    assert!(matches!(action, ReceiverAction::Apply(ref t) if t == "abc"));
}

#[test]
fn shutdown_and_idle_events() {
    let guard = LoopGuard::new();
    assert!(matches!(receiver_step(Some(&guard), ReceiverEvent::Shutdown), ReceiverAction::Stop));
    assert!(matches!(receiver_step(Some(&guard), ReceiverEvent::Idle), ReceiverAction::Wait));
}

#[test]
fn invalid_utf8_is_decoded_lossily() {
    assert_eq!(decode_payload(&vec![0xff, b'a']), "\u{FFFD}a");
    assert_eq!(decode_payload(&"é€".as_bytes().to_vec()), "é€");
    assert_eq!(decode_payload(&vec![]), "");
}

#[test]
fn round_trip_between_two_links() {
    let a = MulticastLink::new(IpType::IPV4);
    let mut guard_b = LoopGuard::new();
    let d = a.send_data("sync me".to_string()).unwrap();
    match receiver_step(Some(&guard_b), ReceiverEvent::Datagram(d.payload)) {
        ReceiverAction::Apply(t) => {
            assert_eq!(t, "sync me");
            guard_b.after_apply(t, true);
        }
        _ => panic!("the payload should be applied"),
    }
    assert!(guard_b.holds(&"sync me".to_string()));
}

#[test]
fn bridge_skips_on_missing_parts() {
    let link = MulticastLink::new(IpType::IPV4);
    let mut guard = LoopGuard::new();
    assert!(on_clipboard_change(None, &mut guard, Some(&link)).is_none());
    assert!(on_clipboard_change(Some("a".to_string()), &mut guard, None).is_none());
    let mut disposed = MulticastLink::new(IpType::IPV4);
    disposed.dispose();
    assert!(on_clipboard_change(Some("a".to_string()), &mut guard, Some(&disposed)).is_none());
    assert_eq!(guard.text(), "");
}

#[test]
fn lock_edge_disposes_and_send_yields_nothing() {
    let mut link = MulticastLink::new(IpType::IPV4);
    let mut monitor = LockMonitor::new();
    assert_eq!(poll(&mut monitor, &mut link, true), LinkCommand::TearDown);
    assert!(monitor.is_locked());
    assert!(link.send_data("x".to_string()).is_none());
}

#[test]
fn link_follows_a_sequence_of_lock_polls() {
    let mut link = MulticastLink::new(IpType::IPV4);
    let mut monitor = LockMonitor::new();
    let polls = [false, true, true, false, false, true, false];
    let expected = [
        LinkCommand::Keep,
        LinkCommand::TearDown,
        LinkCommand::Keep,
        LinkCommand::Build,
        LinkCommand::Keep,
        LinkCommand::TearDown,
        LinkCommand::Build,
    ];
    for (locked, cmd) in polls.iter().zip(expected.iter()) {
        assert_eq!(poll(&mut monitor, &mut link, *locked), *cmd);
        assert_eq!(link.is_active(), !*locked);
        assert_eq!(link.send_data("x".to_string()).is_some(), !*locked);
    }
}

#[test]
fn edges_are_seen_only_on_change() {
    let mut monitor = LockMonitor::new();
    assert_eq!(monitor.observe(false), LockEdge::Steady);
    assert_eq!(monitor.observe(true), LockEdge::Locked);
    assert_eq!(monitor.observe(true), LockEdge::Steady);
    assert_eq!(monitor.observe(false), LockEdge::Unlocked);
    let mut link = MulticastLink::new(IpType::IPV4);
    assert_eq!(follow_edge(&mut link, LockEdge::Unlocked), LinkCommand::Keep);
    assert_eq!(follow_edge(&mut link, LockEdge::Steady), LinkCommand::Keep);
    assert!(link.is_active());
}

use kr_shim::flag::SharedOutputFlag;
use kr_shim::relay::{
    BackoffPolicy, NotificationRelay, RelayAction, RelayEvent, RelayNext, RelayPhase, Variant,
};

fn read(bytes: &[u8]) -> RelayEvent {
    RelayEvent::Read(bytes.to_vec())
}

fn lines(texts: &[&[u8]]) -> Vec<Vec<u8>> {
    texts.iter().map(|t| t.to_vec()).collect()
}

fn tailing(variant: Variant) -> NotificationRelay {
    let flag = SharedOutputFlag::new();
    let mut relay = NotificationRelay::new(variant, BackoffPolicy::default());
    let action = relay.step(RelayEvent::Opened, &flag);
    assert_eq!(action.next, RelayNext::Read);
    assert_eq!(relay.phase(), RelayPhase::Tailing);
    relay
}

fn quiet(report: bool, pause_millis: u64, next: RelayNext) -> RelayAction {
    RelayAction { report, emit: Vec::new(), pause_millis, next }
}

#[test]
fn it_works() {
    let relay = NotificationRelay::new(Variant::GeneralPurpose, BackoffPolicy::default());
    assert_eq!(relay.phase(), RelayPhase::Opening);
    assert_eq!(relay.variant(), Variant::GeneralPurpose);
    assert!(relay.printed().is_empty());
}

#[test]
fn lib_it_works() {
    let relay = NotificationRelay::new(Variant::Restricted, BackoffPolicy::default());
    assert_eq!(relay.phase(), RelayPhase::Opening);
    assert_eq!(relay.variant(), Variant::Restricted);
}

#[test]
fn default_policy_is_ten_and_quarter_second() {
    let policy = BackoffPolicy::default();
    assert_eq!(policy.idle_millis, 10);
    assert_eq!(policy.error_millis, 250);
}

#[test]
fn general_relay_first_opens_with_create() {
    let relay = NotificationRelay::new(Variant::GeneralPurpose, BackoffPolicy::default());
    assert_eq!(relay.awaited(), quiet(false, 0, RelayNext::Open { create: true }));
}

#[test]
fn restricted_relay_first_opens_without_create() {
    let relay = NotificationRelay::new(Variant::Restricted, BackoffPolicy::default());
    assert_eq!(relay.awaited(), quiet(false, 0, RelayNext::Open { create: false }));
}

#[test]
fn general_relay_gives_up_when_open_fails() {
    let flag = SharedOutputFlag::new();
    let mut relay = NotificationRelay::new(Variant::GeneralPurpose, BackoffPolicy::default());
    let action = relay.step(RelayEvent::OpenFailed, &flag);
    assert_eq!(action, quiet(true, 0, RelayNext::Stop));
    assert_eq!(relay.phase(), RelayPhase::Stopped);
}

#[test]
fn restricted_relay_retries_open_after_error_pause() {
    let flag = SharedOutputFlag::new();
    let mut relay = NotificationRelay::new(Variant::Restricted, BackoffPolicy::default());
    for _ in 0..3 {
        let action = relay.step(RelayEvent::OpenFailed, &flag);
        assert_eq!(action, quiet(true, 250, RelayNext::Open { create: false }));
        assert_eq!(relay.phase(), RelayPhase::Opening);
    }
    let action = relay.step(RelayEvent::Opened, &flag);
    assert_eq!(action, quiet(false, 0, RelayNext::Read));
    assert_eq!(relay.phase(), RelayPhase::Tailing);
}

#[test]
fn distinct_lines_are_shown_once_in_order() {
    let flag = SharedOutputFlag::new();
    let mut relay = tailing(Variant::GeneralPurpose);
    let mut shown: Vec<Vec<u8>> = Vec::new();
    for line in [&b"first\n"[..], b"second\n", b"third\n"] {
        let action = relay.step(read(line), &flag);
        assert!(!action.report);
        assert_eq!(action.pause_millis, 0);
        assert_eq!(action.next, RelayNext::Read);
        shown.extend(action.emit);
    }
    assert_eq!(shown, lines(&[b"first\n", b"second\n", b"third\n"]));
    assert_eq!(relay.printed(), &shown);
}

#[test]
fn several_lines_in_one_read_are_all_shown() {
    let flag = SharedOutputFlag::new();
    let mut relay = tailing(Variant::Restricted);
    let action = relay.step(read(b"a1\nb2\nc3\n"), &flag);
    assert_eq!(action.emit, lines(&[b"a1\n", b"b2\n", b"c3\n"]));
}

#[test]
fn same_line_twice_is_shown_once() {
    let flag = SharedOutputFlag::new();
    let mut relay = tailing(Variant::GeneralPurpose);
    let first = relay.step(read(b"approve on your phone\n"), &flag);
    assert_eq!(first.emit, lines(&[b"approve on your phone\n"]));
    assert_eq!(first.pause_millis, 0);
    let second = relay.step(read(b"approve on your phone\n"), &flag);
    assert!(second.emit.is_empty());
    assert_eq!(second.pause_millis, 10);
    assert_eq!(second.next, RelayNext::Read);
    assert_eq!(relay.printed().len(), 1);
}

#[test]
fn same_line_twice_in_one_read_is_shown_once() {
    let flag = SharedOutputFlag::new();
    let mut relay = tailing(Variant::GeneralPurpose);
    let action = relay.step(read(b"one\ntwo\none\n"), &flag);
    assert_eq!(action.emit, lines(&[b"one\n", b"two\n"]));
}

#[test]
fn line_is_told_apart_by_every_byte() {
    let flag = SharedOutputFlag::new();
    let mut relay = tailing(Variant::GeneralPurpose);
    let action = relay.step(read(b"ab\nab \nAb\n"), &flag);
    assert_eq!(action.emit, lines(&[b"ab\n", b"ab \n", b"Ab\n"]));
}

#[test]
fn empty_read_sleeps_idle_pause() {
    let flag = SharedOutputFlag::new();
    let mut relay = tailing(Variant::GeneralPurpose);
    let action = relay.step(read(b""), &flag);
    assert_eq!(action, quiet(false, 10, RelayNext::Read));
}

#[test]
fn bare_terminator_is_not_shown() {
    let flag = SharedOutputFlag::new();
    let mut relay = tailing(Variant::GeneralPurpose);
    let action = relay.step(read(b"\n"), &flag);
    assert_eq!(action, quiet(false, 10, RelayNext::Read));
    let action = relay.step(read(b"\n\nx\n\n"), &flag);
    assert_eq!(action.emit, lines(&[b"x\n"]));
    assert!(relay.printed().iter().all(|l| l.len() > 1));
}

#[test]
fn partial_line_waits_for_its_end() {
    let flag = SharedOutputFlag::new();
    let mut relay = tailing(Variant::GeneralPurpose);
    let action = relay.step(read(b"hel"), &flag);
    assert_eq!(action, quiet(false, 10, RelayNext::Read));
    let action = relay.step(read(b"lo"), &flag);
    assert_eq!(action, quiet(false, 10, RelayNext::Read));
    let action = relay.step(read(b"\nwor"), &flag);
    assert_eq!(action.emit, lines(&[b"hello\n"]));
    assert_eq!(action.pause_millis, 0);
    let action = relay.step(read(b"ld\n"), &flag);
    assert_eq!(action.emit, lines(&[b"world\n"]));
}

#[test]
fn chunking_does_not_change_what_is_shown() {
    let text: &[u8] = b"alpha\nbeta\n\nalpha\ngamma\nbe";
    let expected = lines(&[b"alpha\n", b"beta\n", b"gamma\n"]);
    for size in 1..=text.len() {
        let flag = SharedOutputFlag::new();
        let mut relay = tailing(Variant::Restricted);
        let mut shown: Vec<Vec<u8>> = Vec::new();
        for chunk in text.chunks(size) {
            shown.extend(relay.step(read(chunk), &flag).emit);
        }
        assert_eq!(shown, expected);
    }
}

#[test]
fn read_failure_is_reported_and_retried() {
    let flag = SharedOutputFlag::new();
    let mut relay = tailing(Variant::GeneralPurpose);
    relay.step(read(b"par"), &flag);
    let action = relay.step(RelayEvent::ReadFailed, &flag);
    assert_eq!(action, quiet(true, 250, RelayNext::Read));
    assert_eq!(relay.phase(), RelayPhase::Tailing);
    let action = relay.step(read(b"t\n"), &flag);
    assert_eq!(action.emit, lines(&[b"part\n"]));
}

#[test]
fn custom_policy_sets_the_pauses() {
    let flag = SharedOutputFlag::new();
    let policy = BackoffPolicy { idle_millis: 3, error_millis: 77 };
    let mut relay = NotificationRelay::new(Variant::Restricted, policy);
    assert_eq!(
        relay.step(RelayEvent::OpenFailed, &flag),
        quiet(true, 77, RelayNext::Open { create: false })
    );
    relay.step(RelayEvent::Opened, &flag);
    assert_eq!(relay.step(read(b""), &flag), quiet(false, 3, RelayNext::Read));
    assert_eq!(relay.step(RelayEvent::ReadFailed, &flag), quiet(true, 77, RelayNext::Read));
}

#[test]
fn general_relay_stops_once_output_has_begun() {
    let mut flag = SharedOutputFlag::new();
    let mut relay = tailing(Variant::GeneralPurpose);
    let before = relay.step(read(b"before one\nbefore two\n"), &flag);
    assert_eq!(before.emit, lines(&[b"before one\n", b"before two\n"]));
    flag.raise();
    let after = relay.step(read(b"after\n"), &flag);
    assert_eq!(after, quiet(false, 0, RelayNext::Stop));
    assert_eq!(relay.phase(), RelayPhase::Stopped);
    for event in [read(b"later\n"), RelayEvent::ReadFailed, RelayEvent::Opened, read(b"")] {
        assert_eq!(relay.step(event, &flag), quiet(false, 0, RelayNext::Stop));
    }
    assert_eq!(relay.printed(), &lines(&[b"before one\n", b"before two\n"]));
}

#[test]
fn general_relay_stops_on_empty_read_once_output_has_begun() {
    let mut flag = SharedOutputFlag::new();
    let mut relay = tailing(Variant::GeneralPurpose);
    flag.raise();
    assert_eq!(relay.step(read(b""), &flag), quiet(false, 0, RelayNext::Stop));
    assert_eq!(relay.phase(), RelayPhase::Stopped);
}

#[test]
fn read_failure_does_not_look_at_the_flag() {
    let mut flag = SharedOutputFlag::new();
    let mut relay = tailing(Variant::GeneralPurpose);
    flag.raise();
    assert_eq!(relay.step(RelayEvent::ReadFailed, &flag), quiet(true, 250, RelayNext::Read));
    assert_eq!(relay.phase(), RelayPhase::Tailing);
}

#[test]
fn restricted_relay_ignores_the_flag() {
    let mut flag = SharedOutputFlag::new();
    let mut relay = tailing(Variant::Restricted);
    flag.raise();
    let action = relay.step(read(b"still shown\n"), &flag);
    assert_eq!(action.emit, lines(&[b"still shown\n"]));
    assert_eq!(action.next, RelayNext::Read);
    assert_eq!(relay.phase(), RelayPhase::Tailing);
}

#[test]
fn stray_events_are_answered_with_what_is_awaited() {
    let flag = SharedOutputFlag::new();
    let mut relay = NotificationRelay::new(Variant::GeneralPurpose, BackoffPolicy::default());
    assert_eq!(relay.step(read(b"early\n"), &flag), quiet(false, 0, RelayNext::Open { create: true }));
    assert_eq!(
        relay.step(RelayEvent::ReadFailed, &flag),
        quiet(false, 0, RelayNext::Open { create: true })
    );
    assert_eq!(relay.phase(), RelayPhase::Opening);
    assert!(relay.printed().is_empty());
    relay.step(RelayEvent::Opened, &flag);
    assert_eq!(relay.step(RelayEvent::Opened, &flag), quiet(false, 0, RelayNext::Read));
    assert_eq!(relay.step(RelayEvent::OpenFailed, &flag), quiet(false, 0, RelayNext::Read));
    assert_eq!(relay.phase(), RelayPhase::Tailing);
}

#[test]
fn flag_starts_lowered_and_stays_raised() {
    let mut flag = SharedOutputFlag::new();
    assert!(!flag.is_raised());
    flag.raise();
    assert!(flag.is_raised());
    flag.raise();
    assert!(flag.is_raised());
}

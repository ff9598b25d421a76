use wl_copy::session::{
    next_loop_action, should_fork, startup_check, ClipboardManager, LoopAction, SelectionVariant,
};
use wl_copy::source::{BackingPath, DataSource};
use wl_copy::CopyError;

fn manager(needs_serial: bool) -> ClipboardManager {
    ClipboardManager::new(SelectionVariant::Regular, needs_serial)
}

#[test]
fn startup_needs_a_seat() {
    let err = startup_check(0, &manager(false)).unwrap_err();
    assert_eq!(err, CopyError::NoSeats);
}

#[test]
fn startup_refuses_serial_protocols() {
    // A protocol that demands an input serial is refused at startup, before
    // anything is published, rather than failing mid-publish.
    let m = ClipboardManager::new(SelectionVariant::Primary, true);
    let err = startup_check(1, &m).unwrap_err();
    assert_eq!(err, CopyError::SerialRequiredUnsupported);
}

#[test]
fn startup_passes_with_seats_and_serial_free_protocol() {
    assert!(startup_check(2, &manager(false)).is_ok());
}

#[test]
fn missing_seat_reported_before_serial() {
    let err = startup_check(0, &manager(true)).unwrap_err();
    assert_eq!(err, CopyError::NoSeats);
}

#[test]
fn manager_reports_its_negotiation() {
    let m = ClipboardManager::new(SelectionVariant::Primary, false);
    assert_eq!(m.variant(), SelectionVariant::Primary);
    assert!(!m.requires_serial());
}

#[test]
fn forking_happens_only_for_background_publishes() {
    assert!(should_fork(false, false));
    assert!(!should_fork(false, true));
    assert!(!should_fork(true, false));
    assert!(!should_fork(true, true));
}

#[test]
fn loop_polls_until_the_source_quits() {
    let backing = BackingPath {
        dir: String::from("/tmp/d"),
        file: String::from("f"),
    };
    let mut s = DataSource::new(backing, false);
    s.offer(String::from("TEXT"));
    s.attach();
    assert_eq!(next_loop_action(&s), LoopAction::PollEvents);
    s.cancel();
    assert_eq!(next_loop_action(&s), LoopAction::Finish);
}

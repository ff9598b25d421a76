use wl_copy::seats::SeatRegistry;
use wl_copy::CopyError;

fn registry_with(names: &[Option<&str>], devices: &[bool]) -> SeatRegistry {
    let mut r = SeatRegistry::new();
    for i in 0..names.len() {
        r.add_seat();
        if let Some(n) = names[i] {
            r.set_name(i, String::from(n));
        }
        if devices[i] {
            r.bind_device(i);
        }
    }
    r
}

#[test]
fn all_seats_selected_without_filter() {
    let r = registry_with(&[Some("seat0"), Some("seat1")], &[true, true]);
    let plan = r.selection_plan(&None).unwrap();
    assert_eq!(plan, vec![0, 1]);
}

#[test]
fn seat_without_device_is_skipped() {
    let r = registry_with(&[Some("seat0"), Some("seat1"), None], &[true, false, true]);
    let plan = r.selection_plan(&None).unwrap();
    assert_eq!(plan, vec![0, 2]);
}

#[test]
fn named_seat_filter_selects_only_that_seat() {
    let r = registry_with(&[Some("seat0"), Some("seat1")], &[true, true]);
    let plan = r.selection_plan(&Some(String::from("seat1"))).unwrap();
    assert_eq!(plan, vec![1]);
}

#[test]
fn named_seat_with_no_match_selects_nothing() {
    // All-or-nothing: when the requested name matches no seat, the plan
    // fails as a whole and no device gets the selection.
    let r = registry_with(&[Some("seat0"), Some("seat1")], &[true, true]);
    let err = r.selection_plan(&Some(String::from("seat7"))).unwrap_err();
    assert_eq!(err, CopyError::NamedSeatNotFound);
}

#[test]
fn named_seat_needs_a_device() {
    // The name matches, but the seat carries no device: nothing is selected.
    let r = registry_with(&[Some("seat0"), Some("seat1")], &[true, false]);
    let err = r.selection_plan(&Some(String::from("seat1"))).unwrap_err();
    assert_eq!(err, CopyError::NamedSeatNotFound);
}

#[test]
fn no_devices_at_all_is_no_seats() {
    let r = registry_with(&[Some("seat0")], &[false]);
    let err = r.selection_plan(&None).unwrap_err();
    assert_eq!(err, CopyError::NoSeats);
}

#[test]
fn rebinding_a_device_is_idempotent() {
    let mut r = registry_with(&[Some("seat0")], &[true]);
    r.bind_device(0);
    let plan = r.selection_plan(&None).unwrap();
    assert_eq!(plan, vec![0]);
}

#[test]
fn nameless_seat_never_matches_a_name() {
    let r = registry_with(&[None, Some("seat1")], &[true, true]);
    let err = r.selection_plan(&Some(String::from("seat0"))).unwrap_err();
    assert_eq!(err, CopyError::NamedSeatNotFound);
    let plan = r.selection_plan(&None).unwrap();
    assert_eq!(plan, vec![0, 1]);
}

#[test]
fn registry_grows_by_advertisement() {
    let mut r = SeatRegistry::new();
    assert_eq!(r.len(), 0);
    r.add_seat();
    r.add_seat();
    assert_eq!(r.len(), 2);
}

use wl_copy::source::{BackingPath, CleanupStep, DataSource};

fn backing() -> BackingPath {
    BackingPath {
        dir: String::from("/tmp/wlcopy-x"),
        file: String::from("stdin"),
    }
}

fn text_source(paste_once: bool) -> DataSource {
    let mut s = DataSource::new(backing(), paste_once);
    s.offer(String::from("text/plain;charset=utf-8"));
    s.offer(String::from("text/plain"));
    s.offer(String::from("TEXT"));
    s.attach();
    s
}

#[test]
fn idle_source_answers_nothing() {
    let mut s = DataSource::new(backing(), false);
    s.offer(String::from("text/plain"));
    let t = s.begin_transfer(&String::from("text/plain"));
    assert!(t.is_none());
    assert_eq!(s.serving(), 0);
}

#[test]
fn offered_label_is_served() {
    let mut s = text_source(false);
    let t = s.begin_transfer(&String::from("text/plain"));
    let path = t.expect("an offered label must be answered");
    assert_eq!(path.dir, "/tmp/wlcopy-x");
    assert_eq!(path.file, "stdin");
    assert_eq!(s.serving(), 1);
}

#[test]
fn unknown_label_is_ignored() {
    let mut s = text_source(false);
    let t = s.begin_transfer(&String::from("image/png"));
    assert!(t.is_none());
    assert_eq!(s.serving(), 0);
    assert!(!s.should_quit());
}

#[test]
fn label_independence() {
    // Any two offered labels stream byte-identical content: the same
    // backing payload comes back whichever label is requested.
    let mut a = text_source(false);
    let mut b = text_source(false);
    let ta = a.begin_transfer(&String::from("TEXT")).unwrap();
    let tb = b.begin_transfer(&String::from("text/plain;charset=utf-8")).unwrap();
    assert_eq!(ta.dir, tb.dir);
    assert_eq!(ta.file, tb.file);
}

#[test]
fn paste_once_single_shot() {
    let mut s = text_source(true);
    let t = s.begin_transfer(&String::from("text/plain"));
    assert!(t.is_some());
    assert!(!s.should_quit());
    s.complete_transfer(true);
    assert!(s.should_quit());
    assert!(!s.cancelled());
    // No further transfer request is answered.
    let t2 = s.begin_transfer(&String::from("text/plain"));
    assert!(t2.is_none());
    let t3 = s.begin_transfer(&String::from("TEXT"));
    assert!(t3.is_none());
}

#[test]
fn failed_transfer_is_local() {
    // A failed copy is reported but does not end the source; siblings are
    // still served.
    let mut s = text_source(true);
    let t = s.begin_transfer(&String::from("text/plain"));
    assert!(t.is_some());
    s.complete_transfer(false);
    assert!(!s.should_quit());
    let t2 = s.begin_transfer(&String::from("text/plain"));
    assert!(t2.is_some());
}

#[test]
fn multi_shot_source_keeps_serving() {
    let mut s = text_source(false);
    for _ in 0..3 {
        let t = s.begin_transfer(&String::from("TEXT"));
        assert!(t.is_some());
        s.complete_transfer(true);
        assert!(!s.should_quit());
    }
}

#[test]
fn cancel_quits_and_stops_answering() {
    let mut s = text_source(false);
    let t = s.begin_transfer(&String::from("text/plain"));
    assert!(t.is_some());
    s.cancel();
    assert!(s.should_quit());
    assert!(s.cancelled());
    // The in-flight transfer may finish, but no new one is accepted.
    assert_eq!(s.serving(), 1);
    let t2 = s.begin_transfer(&String::from("text/plain"));
    assert!(t2.is_none());
    s.complete_transfer(true);
    assert_eq!(s.serving(), 0);
    assert!(s.cancelled());
}

#[test]
fn cancel_after_done_stays_done() {
    let mut s = text_source(true);
    s.begin_transfer(&String::from("TEXT")).unwrap();
    s.complete_transfer(true);
    assert!(s.should_quit());
    assert!(!s.cancelled());
    s.cancel();
    assert!(!s.cancelled());
}

#[test]
fn cleanup_file_before_directory() {
    let mut s = text_source(false);
    s.cancel();
    let steps = s.take_cleanup().expect("first cleanup request yields the plan");
    assert_eq!(steps.len(), 2);
    match &steps[0] {
        CleanupStep::RemoveFile(p) => assert_eq!(p, "/tmp/wlcopy-x/stdin"),
        other => panic!("first step must remove the file, got {:?}", step_name(other)),
    }
    match &steps[1] {
        CleanupStep::RemoveDir(d) => assert_eq!(d, "/tmp/wlcopy-x"),
        other => panic!("second step must remove the directory, got {:?}", step_name(other)),
    }
}

fn step_name(s: &CleanupStep) -> &'static str {
    match s {
        CleanupStep::RemoveFile(_) => "RemoveFile",
        CleanupStep::RemoveDir(_) => "RemoveDir",
    }
}

#[test]
fn cleanup_runs_exactly_once() {
    let mut s = text_source(true);
    s.begin_transfer(&String::from("TEXT")).unwrap();
    s.complete_transfer(true);
    let mut removals_attempted: usize = 0;
    for _ in 0..2 {
        if let Some(steps) = s.take_cleanup() {
            removals_attempted += steps.len();
        }
    }
    // Deleting the backing file and its directory is attempted once, not
    // twice.
    assert_eq!(removals_attempted, 2);
    assert!(s.take_cleanup().is_none());
}

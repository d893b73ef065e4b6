use tauzip::counters::SharedCounters;
use tauzip::error::CommandError;
use tauzip::launch::{
    begin_launch, finish_launch, items_event, launch_items, mode_event, window_wait, LaunchIntent,
    WindowWait,
};
use tauzip::readiness::ReadinessWatcher;

fn strings(v: &[&str]) -> Vec<String> {
    v.iter().map(|s| s.to_string()).collect()
}

#[test]
fn launch_items_drop_program_and_reserved_argument() {
    let items = launch_items(strings(&["base"]), strings(&["app.exe", "-c", "/x/1.txt", "/x/2.txt"]));
    assert_eq!(items, strings(&["base", "/x/1.txt", "/x/2.txt"]));
    assert_eq!(launch_items(Vec::new(), strings(&["app.exe", "-c"])), Vec::<String>::new());
    assert_eq!(launch_items(strings(&["b"]), strings(&["app.exe"])), strings(&["b"]));
    assert_eq!(launch_items(Vec::new(), Vec::new()), Vec::<String>::new());
}

#[test]
fn expected_total_is_sum_over_launches() {
    let mut c = SharedCounters::new();
    let a = begin_launch(&mut c, Vec::new(), strings(&["app", "-c", "1", "2"]));
    let b = begin_launch(&mut c, strings(&["k"]), strings(&["app", "-c", "3"]));
    c.record_window();
    let d = begin_launch(&mut c, Vec::new(), strings(&["app"]));
    assert_eq!((a.len(), b.len(), d.len()), (2, 2, 0));
    assert_eq!(c.items_expected_total, 4);
    assert_eq!(c.items_delivered, 0);
    assert_eq!(c.windows_created, 1);
}

#[test]
fn failed_delivery_does_not_count() {
    let mut c = SharedCounters::new();
    let items = begin_launch(&mut c, Vec::new(), strings(&["app", "-c", "1", "2"]));
    let before = c;
    assert_eq!(finish_launch(&mut c, &items, false), Err(CommandError::EventDeliveryFailed));
    assert_eq!(c, before);
    assert!(!c.is_ready());
    assert_eq!(finish_launch(&mut c, &items, true), Ok(()));
    assert_eq!(c.items_delivered, 2);
    assert!(c.is_ready());
}

#[test]
fn window_wait_steps() {
    assert_eq!(window_wait(0), WindowWait::KeepPolling);
    assert_eq!(window_wait(1), WindowWait::SettleThenDeliver);
    assert_eq!(window_wait(3), WindowWait::SettleThenDeliver);
    assert_eq!(window_wait(4), WindowWait::Deliver);
    assert_eq!(window_wait(usize::MAX), WindowWait::Deliver);
}

#[test]
fn events_by_intent() {
    assert_eq!(mode_event(LaunchIntent::Compress), None);
    assert_eq!(mode_event(LaunchIntent::Decompress), Some("decompression".to_string()));
    assert_eq!(items_event(LaunchIntent::Compress), "files-selected");
    assert_eq!(items_event(LaunchIntent::Decompress), "archives-selected");
}

#[test]
fn acknowledge_replaces_count() {
    let mut c = SharedCounters::new();
    c.acknowledge(5);
    c.acknowledge(2);
    assert_eq!(c.acknowledged_count, 2);
}

#[test]
fn readiness_fires_once_when_counts_meet() {
    let mut c = SharedCounters::new();
    let mut w = ReadinessWatcher::new();
    assert!(!w.poll(&c));
    let items = begin_launch(&mut c, Vec::new(), strings(&["app", "-c", "1"]));
    assert!(!w.poll(&c));
    c.record_window();
    finish_launch(&mut c, &items, true).unwrap();
    assert!(w.poll(&c));
    assert!(w.fired());
    assert!(!w.poll(&c));
    assert!(!w.poll(&c));
}

#[test]
fn readiness_needs_items() {
    let mut c = SharedCounters::new();
    let mut w = ReadinessWatcher::new();
    let items = begin_launch(&mut c, Vec::new(), strings(&["app", "-c"]));
    finish_launch(&mut c, &items, true).unwrap();
    assert_eq!(c.items_delivered, c.items_expected_total);
    assert!(!w.poll(&c));
    assert!(!w.fired());
}

#[test]
fn readiness_waits_for_every_launch() {
    let mut c = SharedCounters::new();
    let mut w = ReadinessWatcher::new();
    let first = begin_launch(&mut c, Vec::new(), strings(&["app", "-c", "1"]));
    let second = begin_launch(&mut c, Vec::new(), strings(&["app", "-c", "2", "3"]));
    finish_launch(&mut c, &first, true).unwrap();
    assert!(!w.poll(&c));
    finish_launch(&mut c, &second, true).unwrap();
    assert!(w.poll(&c));
}

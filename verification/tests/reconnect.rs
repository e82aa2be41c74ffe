use std::time::Duration;

use mqtt_options::{LinkEvent, ReconnectOptions};

fn run() -> Vec<LinkEvent> {
    vec![
        LinkEvent::Disconnected,
        LinkEvent::Disconnected,
        LinkEvent::Connected,
        LinkEvent::Disconnected,
        LinkEvent::Connected,
        LinkEvent::Disconnected,
        LinkEvent::Disconnected,
    ]
}

#[test]
fn never_schedules_no_retry() {
    let policy = ReconnectOptions::Never;
    assert_eq!(policy.retry_after(false), None);
    assert_eq!(policy.retry_after(true), None);
    assert_eq!(policy.schedule(&run()), vec![None; 7]);
}

#[test]
fn after_first_success_waits_for_a_success() {
    let d = Duration::from_secs(10);
    let policy = ReconnectOptions::AfterFirstSuccess(d);
    assert_eq!(policy.retry_after(false), None);
    assert_eq!(policy.retry_after(true), Some(d));
    assert_eq!(
        policy.schedule(&run()),
        vec![None, None, None, Some(d), None, Some(d), Some(d)]
    );
}

#[test]
fn always_retries_on_every_disconnect() {
    let d = Duration::from_millis(250);
    let policy = ReconnectOptions::Always(d);
    assert_eq!(policy.retry_after(false), Some(d));
    assert_eq!(policy.retry_after(true), Some(d));
    assert_eq!(
        policy.schedule(&run()),
        vec![Some(d), Some(d), None, Some(d), None, Some(d), Some(d)]
    );
}

#[test]
fn schedule_of_no_events_is_empty() {
    let policy = ReconnectOptions::Always(Duration::from_secs(1));
    assert!(policy.schedule(&Vec::new()).is_empty());
}

#[test]
fn schedule_without_disconnect_is_silent() {
    let policy = ReconnectOptions::Always(Duration::from_secs(1));
    let events = vec![LinkEvent::Connected, LinkEvent::Connected];
    assert_eq!(policy.schedule(&events), vec![None, None]);
}

#[test]
fn zero_interval_is_a_retry_at_once() {
    let policy = ReconnectOptions::Always(Duration::from_secs(0));
    assert_eq!(
        policy.schedule(&vec![LinkEvent::Disconnected]),
        vec![Some(Duration::from_secs(0))]
    );
}

#[test]
fn policies_compare_by_variant_and_interval() {
    let d = Duration::from_secs(10);
    assert_eq!(ReconnectOptions::Always(d), ReconnectOptions::Always(d));
    assert_ne!(ReconnectOptions::Always(d), ReconnectOptions::AfterFirstSuccess(d));
    assert_ne!(
        ReconnectOptions::Always(d),
        ReconnectOptions::Always(Duration::from_secs(11))
    );
    assert_ne!(ReconnectOptions::Never, ReconnectOptions::Always(d));
    let copy = ReconnectOptions::AfterFirstSuccess(d);
    let again = copy;
    assert_eq!(copy, again);
}

use rkvm_input::channel::Handoff;
use rkvm_input::channel::HandoffItem;
use rkvm_input::channel::ReadOutcome;
use rkvm_input::channel::SendOutcome;
use rkvm_input::error::OsError;
use rkvm_input::monitor::is_event_name;
use rkvm_input::monitor::Action;
use rkvm_input::monitor::AdoptOutcome;
use rkvm_input::monitor::DeviceHandle;
use rkvm_input::monitor::Monitor;
use rkvm_input::monitor::MonitorEvent;
use rkvm_input::monitor::Phase;

#[test]
fn filter_accepts_event_nodes() {
    assert!(is_event_name(&b"event0".to_vec()));
    assert!(is_event_name(&b"event37".to_vec()));
    assert!(is_event_name(&b"event".to_vec()));
}

#[test]
fn filter_rejects_other_names() {
    assert!(!is_event_name(&b"mouse0".to_vec()));
    assert!(!is_event_name(&b"even".to_vec()));
    assert!(!is_event_name(&b"".to_vec()));
    assert!(!is_event_name(&b"Event3".to_vec()));
    assert!(!is_event_name(&b"xevent3".to_vec()));
}

#[test]
fn scan_entry_without_prefix_is_never_adopted() {
    let mut m = Monitor::new();
    let a = m.step(MonitorEvent::ScanEntry { name: b"mouse0".to_vec() });
    assert_eq!(a, Action::PollScan);
    assert_eq!(m.phase(), Phase::Scanning);
}

#[test]
fn notification_without_prefix_is_never_adopted() {
    let mut m = Monitor::new();
    assert_eq!(m.step(MonitorEvent::ScanDone), Action::PollNotify);
    let a = m.step(MonitorEvent::Created {
        name: Some(b"js0".to_vec()),
    });
    assert_eq!(a, Action::PollNotify);
}

#[test]
fn malformed_notification_is_skipped() {
    let mut m = Monitor::new();
    assert_eq!(m.step(MonitorEvent::ScanDone), Action::PollNotify);
    let a = m.step(MonitorEvent::Created { name: None });
    assert_eq!(a, Action::PollNotify);
    assert_eq!(m.phase(), Phase::Watching);
}

#[test]
fn scan_then_watch_scenario() {
    // Directory initially holds `event3` and `mouse0`; `event7` appears
    // later through a notification. Adoption attempts happen for `event3`
    // and `event7`, in that order; `event3` is rejected, `event7` adopted,
    // and the consumer receives exactly one handle, for `event7`.
    let mut m = Monitor::new();
    let mut h = Handoff::new();
    let mut attempts: Vec<Vec<u8>> = Vec::new();

    let a = m.step(MonitorEvent::ScanEntry {
        name: b"event3".to_vec(),
    });
    match &a {
        Action::Adopt { name } => attempts.push(name.clone()),
        other => panic!("expected an adoption attempt, got {:?}", other),
    }
    // The device exists but is not a supported input device.
    let a = m.step(MonitorEvent::Adoption {
        outcome: AdoptOutcome::Rejected,
    });
    assert_eq!(a, Action::PollScan);

    let a = m.step(MonitorEvent::ScanEntry {
        name: b"mouse0".to_vec(),
    });
    assert_eq!(a, Action::PollScan);

    let a = m.step(MonitorEvent::ScanDone);
    assert_eq!(a, Action::PollNotify);
    assert_eq!(m.phase(), Phase::Watching);

    let a = m.step(MonitorEvent::Created {
        name: Some(b"event7".to_vec()),
    });
    match &a {
        Action::Adopt { name } => attempts.push(name.clone()),
        other => panic!("expected an adoption attempt, got {:?}", other),
    }
    let device = DeviceHandle {
        name: b"event7".to_vec(),
    };
    let a = m.step(MonitorEvent::Adoption {
        outcome: AdoptOutcome::Adopted {
            device: device.clone(),
        },
    });
    assert_eq!(
        a,
        Action::Publish {
            device: device.clone()
        }
    );
    assert_eq!(
        h.try_send(HandoffItem::Device {
            device: device.clone()
        }),
        SendOutcome::Accepted
    );
    assert_eq!(h.read(), ReadOutcome::Device { device });
    assert_eq!(h.read(), ReadOutcome::NotYet);
    let a = m.step(MonitorEvent::Sent);
    assert_eq!(a, Action::PollNotify);

    assert_eq!(attempts, vec![b"event3".to_vec(), b"event7".to_vec()]);
}

#[test]
fn consumer_gone_terminates_within_one_step() {
    let mut m = Monitor::new();
    let a = m.step(MonitorEvent::ConsumerGone);
    assert_eq!(a, Action::Stop);
    assert_eq!(m.phase(), Phase::Closed);
    // No stimulus revives a closed monitor: no polls, no adoptions.
    let a = m.step(MonitorEvent::ScanEntry {
        name: b"event1".to_vec(),
    });
    assert_eq!(a, Action::Stop);
    let a = m.step(MonitorEvent::Created {
        name: Some(b"event2".to_vec()),
    });
    assert_eq!(a, Action::Stop);
    assert_eq!(m.phase(), Phase::Closed);
}

#[test]
fn watch_end_terminates_cleanly() {
    let mut m = Monitor::new();
    assert_eq!(m.step(MonitorEvent::ScanDone), Action::PollNotify);
    assert_eq!(m.step(MonitorEvent::WatchEnded), Action::Stop);
    assert_eq!(m.phase(), Phase::Closed);
}

#[test]
fn fault_is_published_once_then_monitor_dies() {
    let mut m = Monitor::new();
    let mut h = Handoff::new();
    let error = OsError { code: 5 };
    let a = m.step(MonitorEvent::Fault { error });
    assert_eq!(a, Action::PublishFault { error });
    assert_eq!(m.phase(), Phase::Closed);
    assert_eq!(h.try_send(HandoffItem::Fault { error }), SendOutcome::Accepted);
    h.close_producer();
    // The consumer sees the one error, then only the broken-pipe answer.
    assert_eq!(h.read(), ReadOutcome::Fault { error });
    assert_eq!(h.read(), ReadOutcome::Exited);
    assert_eq!(h.read(), ReadOutcome::Exited);
    // And the dead monitor never publishes again.
    let a = m.step(MonitorEvent::Fault {
        error: OsError { code: 6 },
    });
    assert_eq!(a, Action::Stop);
}

#[test]
fn adoption_failure_is_fatal() {
    let mut m = Monitor::new();
    let error = OsError { code: 13 };
    let a = m.step(MonitorEvent::ScanEntry {
        name: b"event0".to_vec(),
    });
    assert_eq!(
        a,
        Action::Adopt {
            name: b"event0".to_vec()
        }
    );
    let a = m.step(MonitorEvent::Adoption {
        outcome: AdoptOutcome::Failed { error },
    });
    assert_eq!(a, Action::PublishFault { error });
    assert_eq!(m.phase(), Phase::Closed);
}

#[test]
fn stray_stimuli_are_ignored() {
    let mut m = Monitor::new();
    // A notification cannot arrive while the scan is still draining.
    let a = m.step(MonitorEvent::Created {
        name: Some(b"event9".to_vec()),
    });
    assert_eq!(a, Action::Ignore);
    assert_eq!(m.phase(), Phase::Scanning);
    assert_eq!(m.step(MonitorEvent::ScanDone), Action::PollNotify);
    // And scan entries cannot arrive once the scan is done.
    let a = m.step(MonitorEvent::ScanEntry {
        name: b"event9".to_vec(),
    });
    assert_eq!(a, Action::Ignore);
}

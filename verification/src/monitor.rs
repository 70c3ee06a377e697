use crate::error::OsError;
use vstd::prelude::*;

verus! {

/// Byte prefix ("event") that marks an entry of the watch directory as an
/// input-event node; every other entry is ignored by the monitor.
pub open spec fn device_prefix() -> Seq<u8> {
    seq![101u8, 118u8, 101u8, 110u8, 116u8]
}

/// An entry name designates an input-event node exactly when it starts with
/// the device prefix.
pub open spec fn is_event_name_spec(name: Seq<u8>) -> bool {
    name.len() >= 5 && name.subrange(0, 5) == device_prefix()
}

/// Decides whether a directory entry name (the final path component, as
/// bytes) designates an input-event node.
pub fn is_event_name(name: &Vec<u8>) -> (r: bool)
    ensures
        r == is_event_name_spec(name@),
{
    if name.len() < 5 {
        return false;
    }
    let r = name[0] == 101 && name[1] == 118 && name[2] == 101 && name[3] == 110
        && name[4] == 116;
    proof {
        if r {
            assert(name@.subrange(0, 5) =~= device_prefix());
        } else {
            if name@.subrange(0, 5) == device_prefix() {
                assert(name@[0] == 101);
                assert(name@[1] == 118);
                assert(name@[2] == 101);
                assert(name@[3] == 110);
                assert(name@[4] == 116);
            }
        }
    }
    r
}

/// The adopted device, as the monitor hands it to its consumer. The handle
/// itself is owned by the adopting layer; the monitor identifies it by the
/// entry name of the node it was opened from.
#[derive(Clone, Debug, PartialEq, Eq)]
pub struct DeviceHandle {
    pub name: Vec<u8>,
}

/// Where the monitor stands: draining the initial directory scan, drawing
/// from the live notification stream, or terminated for good.
#[derive(Clone, Copy, Debug, PartialEq, Eq, Structural)]
pub enum Phase {
    Scanning,
    Watching,
    Closed,
}

/// What an adoption attempt came to.
#[derive(Clone, Debug, PartialEq, Eq)]
pub enum AdoptOutcome {
    /// The node is a usable input device.
    Adopted { device: DeviceHandle },
    /// The node exists but is not a supported input device.
    Rejected,
    /// Adoption failed at the I/O level.
    Failed { error: OsError },
}

/// One stimulus from the monitor's surroundings: the directory scan, the
/// notification stream, the adopting layer, or the handoff channel.
#[derive(Clone, Debug, PartialEq, Eq)]
#[allow(inconsistent_fields)]
pub enum MonitorEvent {
    /// The scan produced a directory entry with this name.
    ScanEntry { name: Vec<u8> },
    /// The scan has no further entries.
    ScanDone,
    /// A creation notification arrived; a notification may lack a name.
    Created { name: Option<Vec<u8>> },
    /// The notification stream ended; no further notifications can come.
    WatchEnded,
    /// Reading the scan or the stream failed at the I/O level.
    Fault { error: OsError },
    /// An adoption attempt finished.
    Adoption { outcome: AdoptOutcome },
    /// The pending handoff was delivered to the consumer.
    Sent,
    /// The consumer of the handoff channel is gone.
    ConsumerGone,
}

/// What the monitor asks its surroundings to do next.
#[derive(Clone, Debug, PartialEq, Eq)]
pub enum Action {
    /// Fetch the next entry of the directory scan.
    PollScan,
    /// Fetch the next notification.
    PollNotify,
    /// Attempt to adopt the node with this entry name.
    Adopt { name: Vec<u8> },
    /// Publish this adopted device on the handoff channel.
    Publish { device: DeviceHandle },
    /// Publish this error on the handoff channel, once, and stop.
    PublishFault { error: OsError },
    /// Terminate the monitor.
    Stop,
    /// The stimulus does not belong to the current phase; nothing happens.
    Ignore,
}

/// The action that resumes the candidate flow in the given phase.
pub open spec fn resume_action(p: Phase) -> Action {
    if p is Scanning {
        Action::PollScan
    } else {
        Action::PollNotify
    }
}

/// The monitor's phase after taking one stimulus.
pub open spec fn step_phase_spec(p: Phase, ev: MonitorEvent) -> Phase {
    if p is Closed {
        Phase::Closed
    } else {
        match ev {
            MonitorEvent::ScanEntry { .. } => p,
            MonitorEvent::ScanDone => if p is Scanning {
                Phase::Watching
            } else {
                p
            },
            MonitorEvent::Created { .. } => p,
            MonitorEvent::WatchEnded => if p is Watching {
                Phase::Closed
            } else {
                p
            },
            MonitorEvent::Fault { .. } => Phase::Closed,
            MonitorEvent::Adoption { outcome } => if outcome is Failed {
                Phase::Closed
            } else {
                p
            },
            MonitorEvent::Sent => p,
            MonitorEvent::ConsumerGone => Phase::Closed,
        }
    }
}

/// The action the monitor takes on one stimulus.
pub open spec fn step_action_spec(p: Phase, ev: MonitorEvent) -> Action {
    if p is Closed {
        Action::Stop
    } else {
        match ev {
            MonitorEvent::ScanEntry { name } => if p is Scanning {
                if is_event_name_spec(name@) {
                    Action::Adopt { name }
                } else {
                    Action::PollScan
                }
            } else {
                Action::Ignore
            },
            MonitorEvent::ScanDone => if p is Scanning {
                Action::PollNotify
            } else {
                Action::Ignore
            },
            MonitorEvent::Created { name } => if p is Watching {
                match name {
                    Some(name) => if is_event_name_spec(name@) {
                        Action::Adopt { name }
                    } else {
                        Action::PollNotify
                    },
                    None => Action::PollNotify,
                }
            } else {
                Action::Ignore
            },
            MonitorEvent::WatchEnded => if p is Watching {
                Action::Stop
            } else {
                Action::Ignore
            },
            MonitorEvent::Fault { error } => Action::PublishFault { error },
            MonitorEvent::Adoption { outcome } => match outcome {
                AdoptOutcome::Adopted { device } => Action::Publish { device },
                AdoptOutcome::Rejected => resume_action(p),
                AdoptOutcome::Failed { error } => Action::PublishFault { error },
            },
            MonitorEvent::Sent => resume_action(p),
            MonitorEvent::ConsumerGone => Action::Stop,
        }
    }
}

/// The hotplug monitor's decision core. It merges the one-time directory
/// scan with the live notification stream, filters candidates to genuine
/// input-event nodes, and drives adoption and handoff; the surrounding task
/// performs each returned [`Action`] and feeds the result back as the next
/// [`MonitorEvent`].
pub struct Monitor {
    pub phase: Phase,
}

impl Monitor {
    /// A fresh monitor, about to drain the initial directory scan.
    pub fn new() -> (m: Monitor)
        ensures
            m.phase == Phase::Scanning,
    {
        Monitor { phase: Phase::Scanning }
    }

    /// The current phase.
    pub fn phase(&self) -> (p: Phase)
        ensures
            p == self.phase,
    {
        self.phase
    }

    /// Takes one stimulus and answers with the next thing to do.
    pub fn step(&mut self, ev: MonitorEvent) -> (a: Action)
        ensures
            final(self).phase == step_phase_spec(old(self).phase, ev),
            a == step_action_spec(old(self).phase, ev),
    {
        if matches!(self.phase, Phase::Closed) {
            return Action::Stop;
        }
        match ev {
            MonitorEvent::ScanEntry { name } => {
                if matches!(self.phase, Phase::Scanning) {
                    if is_event_name(&name) {
                        Action::Adopt { name }
                    } else {
                        Action::PollScan
                    }
                } else {
                    Action::Ignore
                }
            },
            MonitorEvent::ScanDone => {
                if matches!(self.phase, Phase::Scanning) {
                    self.phase = Phase::Watching;
                    Action::PollNotify
                } else {
                    Action::Ignore
                }
            },
            MonitorEvent::Created { name } => {
                if matches!(self.phase, Phase::Watching) {
                    match name {
                        Some(name) => {
                            if is_event_name(&name) {
                                Action::Adopt { name }
                            } else {
                                Action::PollNotify
                            }
                        },
                        None => Action::PollNotify,
                    }
                } else {
                    Action::Ignore
                }
            },
            MonitorEvent::WatchEnded => {
                if matches!(self.phase, Phase::Watching) {
                    self.phase = Phase::Closed;
                    Action::Stop
                } else {
                    Action::Ignore
                }
            },
            MonitorEvent::Fault { error } => {
                self.phase = Phase::Closed;
                Action::PublishFault { error }
            },
            MonitorEvent::Adoption { outcome } => {
                match outcome {
                    AdoptOutcome::Adopted { device } => Action::Publish { device },
                    AdoptOutcome::Rejected => {
                        if matches!(self.phase, Phase::Scanning) {
                            Action::PollScan
                        } else {
                            Action::PollNotify
                        }
                    },
                    AdoptOutcome::Failed { error } => {
                        self.phase = Phase::Closed;
                        Action::PublishFault { error }
                    },
                }
            },
            MonitorEvent::Sent => {
                if matches!(self.phase, Phase::Scanning) {
                    Action::PollScan
                } else {
                    Action::PollNotify
                }
            },
            MonitorEvent::ConsumerGone => {
                self.phase = Phase::Closed;
                Action::Stop
            },
        }
    }
}

/// The candidate filter is total and prefix-exact: the monitor asks for an
/// adoption attempt only on names that start with the device prefix, and,
/// while candidates flow, on every such name it is handed.
pub proof fn lemma_filter_total_and_exact(p: Phase, ev: MonitorEvent)
    ensures
        step_action_spec(p, ev) matches Action::Adopt { name } ==> is_event_name_spec(name@),
        p is Scanning ==> (ev matches MonitorEvent::ScanEntry { name } ==> step_action_spec(p, ev)
            == if is_event_name_spec(name@) {
                Action::Adopt { name }
            } else {
                Action::PollScan
            }),
        p is Watching ==> (ev matches MonitorEvent::Created { name: Some(name) }
            ==> step_action_spec(p, ev) == if is_event_name_spec(name@) {
                Action::Adopt { name }
            } else {
                Action::PollNotify
            }),
{
}

/// A closed monitor is final: whatever stimulus still arrives, it stays
/// closed and only ever answers `Stop` — it never again polls, adopts, or
/// publishes.
pub proof fn lemma_closed_is_terminal(ev: MonitorEvent)
    ensures
        step_phase_spec(Phase::Closed, ev) == Phase::Closed,
        step_action_spec(Phase::Closed, ev) == Action::Stop,
{
}

/// Once the consumer is gone the monitor terminates within the very step
/// that observes it: the answer is `Stop` and the phase is `Closed`, so by
/// [`lemma_closed_is_terminal`] no further adoption attempt can follow.
pub proof fn lemma_consumer_gone_terminates(p: Phase)
    ensures
        step_phase_spec(p, MonitorEvent::ConsumerGone) == Phase::Closed,
        step_action_spec(p, MonitorEvent::ConsumerGone) == Action::Stop,
{
}

/// A fatal error is published at most once: any step that answers
/// `PublishFault` leaves the monitor closed, and a closed monitor never
/// answers `PublishFault` again.
pub proof fn lemma_fault_published_once(p: Phase, ev: MonitorEvent)
    ensures
        step_action_spec(p, ev) is PublishFault ==> step_phase_spec(p, ev) == Phase::Closed,
        p is Closed ==> !(step_action_spec(p, ev) is PublishFault),
{
}

} // verus!

//! Connecting to a VPN on request, as a state machine.
//!
//! The flow disconnects a different active VPN first (and waits until
//! NetworkManager reports it gone), then tries up to
//! `MAX_CONNECT_ATTEMPTS` times to bring the target up, watching each
//! attempt for up to `CONNECTION_MONITOR_MAX_ATTEMPTS` polls.
//! Each call of `ConnectFlow::step` takes what the previous action
//! produced and names the next action; the caller performs it.
use vstd::prelude::*;

use crate::state::{NmVpnState, VpnState, VpnStateView};
use crate::supervisor::{
    CONNECTION_MONITOR_MAX_ATTEMPTS, DISCONNECT_VERIFY_MAX_ATTEMPTS, INACTIVE_GRACE_POLLS,
    MAX_CONNECT_ATTEMPTS,
};
use crate::text::str_eq;

verus! {

/// Reason recorded when every connection attempt failed.
pub open spec fn connect_failure_reason() -> Seq<char> {
    "Connection verification failed"@
}

/// Where the flow stands.
#[derive(Debug, Clone, Copy, PartialEq, Eq, Structural)]
pub enum ConnectPhase {
    /// Nothing done yet.
    Start,
    /// Disconnecting the previous VPN; `polls` state queries issued so far.
    Switching { polls: u32 },
    /// The previous VPN is gone (or the wait timed out); cleaning up.
    Settling,
    /// The user has been told that the connection starts.
    Announced,
    /// Connection attempt `attempt` has been requested.
    Attempting { attempt: u32 },
    /// Watching attempt `attempt`; `polls` state queries issued so far.
    Monitoring { attempt: u32, polls: u32 },
    /// Attempt `attempt` failed; pausing before the next one.
    Pausing { attempt: u32 },
    /// Done.
    Finished,
}

/// What the previous action produced.
#[derive(Debug, Clone, Copy, PartialEq, Eq, Structural)]
pub enum ConnectEvent {
    /// The action was carried out and produced nothing to report.
    Proceed,
    /// The state NetworkManager reported for the queried connection.
    Polled(Option<NmVpnState>),
    /// Whether NetworkManager accepted the request to bring the target up.
    ConnectIssued(bool),
}

/// The next thing to do.
#[derive(Debug, PartialEq)]
pub enum ConnectAction {
    /// Nothing: the flow is over (or the target is already the current VPN).
    Nothing,
    /// Set the state to `state`, then ask NetworkManager to disconnect `from`
    /// (a failure is ignored); answer `Proceed`.
    BeginSwitch { from: String, state: VpnState },
    /// Wait the disconnect-verify interval, then query the state of `name`;
    /// answer `Polled`.
    PollPrevious { name: String },
    /// Kill orphaned OpenVPN processes and wait the settle time; answer `Proceed`.
    FinishSwitch,
    /// Set the state to `state` and tell the user the connection starts;
    /// answer `Proceed`.
    Announce { state: VpnState },
    /// Ask NetworkManager to bring the target up; answer `ConnectIssued`.
    Connect,
    /// Wait the monitor interval, then query the state of the target;
    /// answer `Polled`.
    PollTarget,
    /// Wait before the next attempt; answer `Proceed`.
    PauseBeforeRetry,
    /// The target is up: set the state to `state`, sync and tell the user.
    MarkConnected { state: VpnState },
    /// Every attempt failed: set the state to `state` and tell the user.
    MarkFailed { state: VpnState },
}

/// `ConnectAction` with its strings taken as character sequences.
pub enum ConnectActionView {
    Nothing,
    BeginSwitch { from: Seq<char>, state: VpnStateView },
    PollPrevious { name: Seq<char> },
    FinishSwitch,
    Announce { state: VpnStateView },
    Connect,
    PollTarget,
    PauseBeforeRetry,
    MarkConnected { state: VpnStateView },
    MarkFailed { state: VpnStateView },
}

impl View for ConnectAction {
    type V = ConnectActionView;

    open spec fn view(&self) -> ConnectActionView {
        match self {
            ConnectAction::Nothing => ConnectActionView::Nothing,
            ConnectAction::BeginSwitch { from, state } => ConnectActionView::BeginSwitch {
                from: from@,
                state: state@,
            },
            ConnectAction::PollPrevious { name } => ConnectActionView::PollPrevious { name: name@ },
            ConnectAction::FinishSwitch => ConnectActionView::FinishSwitch,
            ConnectAction::Announce { state } => ConnectActionView::Announce { state: state@ },
            ConnectAction::Connect => ConnectActionView::Connect,
            ConnectAction::PollTarget => ConnectActionView::PollTarget,
            ConnectAction::PauseBeforeRetry => ConnectActionView::PauseBeforeRetry,
            ConnectAction::MarkConnected { state } => ConnectActionView::MarkConnected {
                state: state@,
            },
            ConnectAction::MarkFailed { state } => ConnectActionView::MarkFailed { state: state@ },
        }
    }
}

/// The state an event reports, if it is a poll result.
pub open spec fn polled(e: ConnectEvent) -> Option<NmVpnState> {
    match e {
        ConnectEvent::Polled(s) => s,
        _ => None,
    }
}

/// Whether an event reports an accepted connection request.
pub open spec fn issued_ok(e: ConnectEvent) -> bool {
    match e {
        ConnectEvent::ConnectIssued(ok) => ok,
        _ => false,
    }
}

/// The phases a flow can be in.
pub open spec fn phase_wf(p: ConnectPhase) -> bool {
    match p {
        ConnectPhase::Switching { polls } => polls <= DISCONNECT_VERIFY_MAX_ATTEMPTS,
        ConnectPhase::Attempting { attempt } => 1 <= attempt <= MAX_CONNECT_ATTEMPTS,
        ConnectPhase::Monitoring { attempt, polls } => 1 <= attempt <= MAX_CONNECT_ATTEMPTS && 1
            <= polls <= CONNECTION_MONITOR_MAX_ATTEMPTS,
        ConnectPhase::Pausing { attempt } => 1 <= attempt < MAX_CONNECT_ATTEMPTS,
        _ => true,
    }
}

/// How many connection requests have been made.
pub open spec fn attempts_made(p: ConnectPhase) -> nat {
    match p {
        ConnectPhase::Attempting { attempt } => attempt as nat,
        ConnectPhase::Monitoring { attempt, .. } => attempt as nat,
        ConnectPhase::Pausing { attempt } => attempt as nat,
        _ => 0,
    }
}

/// A bound on the number of steps left; it falls with every step.
pub open spec fn measure(p: ConnectPhase) -> nat {
    match p {
        ConnectPhase::Start => 100000,
        ConnectPhase::Switching { polls } => (90000 - polls) as nat,
        ConnectPhase::Settling => 80000,
        ConnectPhase::Announced => 70000,
        ConnectPhase::Attempting { attempt } => ((4 - attempt) * 1000 + 500) as nat,
        ConnectPhase::Monitoring { attempt, polls } => ((4 - attempt) * 1000 + 400 - polls) as nat,
        ConnectPhase::Pausing { attempt } => ((4 - attempt) * 1000 + 100) as nat,
        ConnectPhase::Finished => 0,
    }
}

/// The outcome when attempt `a` has failed.
pub open spec fn attempt_failed(target: Seq<char>, a: u32) -> (ConnectPhase, ConnectActionView) {
    if a < MAX_CONNECT_ATTEMPTS {
        (ConnectPhase::Pausing { attempt: a }, ConnectActionView::PauseBeforeRetry)
    } else {
        (
            ConnectPhase::Finished,
            ConnectActionView::MarkFailed {
                state: VpnStateView::Failed { server: target, reason: connect_failure_reason() },
            },
        )
    }
}

/// One step of connecting to `target`, when `previous` was the VPN the
/// supervisor had on record: the next phase and the action to perform.
pub open spec fn connect_step(
    target: Seq<char>,
    previous: Option<Seq<char>>,
    p: ConnectPhase,
    e: ConnectEvent,
) -> (ConnectPhase, ConnectActionView) {
    match p {
        ConnectPhase::Start => match previous {
            Some(prev) => if prev == target {
                (ConnectPhase::Finished, ConnectActionView::Nothing)
            } else {
                (
                    ConnectPhase::Switching { polls: 0 },
                    ConnectActionView::BeginSwitch {
                        from: prev,
                        state: VpnStateView::Connecting { server: target },
                    },
                )
            },
            None => (
                ConnectPhase::Announced,
                ConnectActionView::Announce { state: VpnStateView::Connecting { server: target } },
            ),
        },
        ConnectPhase::Switching { polls } => {
            let gone = polls > 0 && (polled(e) == Some(NmVpnState::Inactive) || polled(e) is None);
            if gone || polls >= DISCONNECT_VERIFY_MAX_ATTEMPTS {
                (ConnectPhase::Settling, ConnectActionView::FinishSwitch)
            } else {
                (
                    ConnectPhase::Switching { polls: (polls + 1) as u32 },
                    ConnectActionView::PollPrevious {
                        name: match previous {
                            Some(prev) => prev,
                            None => Seq::empty(),
                        },
                    },
                )
            }
        },
        ConnectPhase::Settling => (
            ConnectPhase::Announced,
            ConnectActionView::Announce { state: VpnStateView::Connecting { server: target } },
        ),
        ConnectPhase::Announced => (
            ConnectPhase::Attempting { attempt: 1 },
            ConnectActionView::Connect,
        ),
        ConnectPhase::Attempting { attempt } => if issued_ok(e) {
            (ConnectPhase::Monitoring { attempt, polls: 1 }, ConnectActionView::PollTarget)
        } else {
            attempt_failed(target, attempt)
        },
        ConnectPhase::Monitoring { attempt, polls } => match polled(e) {
            Some(NmVpnState::Activated) => (
                ConnectPhase::Finished,
                ConnectActionView::MarkConnected {
                    state: VpnStateView::Connected { server: target },
                },
            ),
            Some(NmVpnState::Deactivating) => attempt_failed(target, attempt),
            Some(NmVpnState::Activating) => if polls < CONNECTION_MONITOR_MAX_ATTEMPTS {
                (
                    ConnectPhase::Monitoring { attempt, polls: (polls + 1) as u32 },
                    ConnectActionView::PollTarget,
                )
            } else {
                attempt_failed(target, attempt)
            },
            _ => if polls > INACTIVE_GRACE_POLLS || polls >= CONNECTION_MONITOR_MAX_ATTEMPTS {
                attempt_failed(target, attempt)
            } else {
                (
                    ConnectPhase::Monitoring { attempt, polls: (polls + 1) as u32 },
                    ConnectActionView::PollTarget,
                )
            },
        },
        ConnectPhase::Pausing { attempt } => (
            ConnectPhase::Attempting { attempt: (attempt + 1) as u32 },
            ConnectActionView::Connect,
        ),
        ConnectPhase::Finished => (ConnectPhase::Finished, ConnectActionView::Nothing),
    }
}

/// A request to connect to one VPN, in progress.
pub struct ConnectFlow {
    target: String,
    previous: Option<String>,
    phase: ConnectPhase,
}

impl ConnectFlow {
    pub closed spec fn target(&self) -> Seq<char> {
        self.target@
    }

    pub closed spec fn previous(&self) -> Option<Seq<char>> {
        match self.previous {
            Some(p) => Some(p@),
            None => None,
        }
    }

    pub closed spec fn phase(&self) -> ConnectPhase {
        self.phase
    }

    pub open spec fn wf(&self) -> bool {
        phase_wf(self.phase())
    }

    /// A flow that connects to `target`; `previous` is the server of the
    /// supervisor's current state, if it has one.
    pub fn new(target: &str, previous: Option<&str>) -> (r: Self)
        ensures
            r.wf(),
            r.target() == target@,
            r.previous() == match previous {
                Some(p) => Some(p@),
                None => None::<Seq<char>>,
            },
            r.phase() == ConnectPhase::Start,
    {
        ConnectFlow {
            target: String::from_str(target),
            previous: match previous {
                Some(p) => Some(String::from_str(p)),
                None => None,
            },
            phase: ConnectPhase::Start,
        }
    }

    /// Whether the flow is over.
    pub fn is_finished(&self) -> (r: bool)
        ensures
            r == (self.phase() == ConnectPhase::Finished),
    {
        matches!(self.phase, ConnectPhase::Finished)
    }

    fn fail_attempt(&mut self, a: u32) -> (r: ConnectAction)
        requires
            1 <= a <= MAX_CONNECT_ATTEMPTS,
        ensures
            final(self).target() == old(self).target(),
            final(self).previous() == old(self).previous(),
            (final(self).phase(), r@) == attempt_failed(old(self).target(), a),
    {
        if a < MAX_CONNECT_ATTEMPTS {
            self.phase = ConnectPhase::Pausing { attempt: a };
            ConnectAction::PauseBeforeRetry
        } else {
            self.phase = ConnectPhase::Finished;
            proof {
                reveal_strlit("Connection verification failed");
            }
            ConnectAction::MarkFailed {
                state: VpnState::Failed {
                    server: self.target.clone(),
                    reason: String::from_str("Connection verification failed"),
                },
            }
        }
    }

    /// Takes what the previous action produced and returns the next action.
    pub fn step(&mut self, event: ConnectEvent) -> (r: ConnectAction)
        requires
            old(self).wf(),
        ensures
            final(self).wf(),
            final(self).target() == old(self).target(),
            final(self).previous() == old(self).previous(),
            (final(self).phase(), r@) == connect_step(
                old(self).target(),
                old(self).previous(),
                old(self).phase(),
                event,
            ),
    {
        match self.phase {
            ConnectPhase::Start => {
                match &self.previous {
                    Some(prev) => {
                        if str_eq(prev.as_str(), self.target.as_str()) {
                            self.phase = ConnectPhase::Finished;
                            ConnectAction::Nothing
                        } else {
                            let from = prev.clone();
                            self.phase = ConnectPhase::Switching { polls: 0 };
                            ConnectAction::BeginSwitch {
                                from,
                                state: VpnState::Connecting { server: self.target.clone() },
                            }
                        }
                    },
                    None => {
                        self.phase = ConnectPhase::Announced;
                        ConnectAction::Announce {
                            state: VpnState::Connecting { server: self.target.clone() },
                        }
                    },
                }
            },
            ConnectPhase::Switching { polls } => {
                let gone = polls > 0 && match event {
                    ConnectEvent::Polled(Some(NmVpnState::Inactive)) => true,
                    ConnectEvent::Polled(Some(_)) => false,
                    _ => true,
                };
                if gone || polls >= DISCONNECT_VERIFY_MAX_ATTEMPTS {
                    self.phase = ConnectPhase::Settling;
                    ConnectAction::FinishSwitch
                } else {
                    self.phase = ConnectPhase::Switching { polls: polls + 1 };
                    let name = match &self.previous {
                        Some(prev) => prev.clone(),
                        None => String::new(),
                    };
                    ConnectAction::PollPrevious { name }
                }
            },
            ConnectPhase::Settling => {
                self.phase = ConnectPhase::Announced;
                ConnectAction::Announce {
                    state: VpnState::Connecting { server: self.target.clone() },
                }
            },
            ConnectPhase::Announced => {
                self.phase = ConnectPhase::Attempting { attempt: 1 };
                ConnectAction::Connect
            },
            ConnectPhase::Attempting { attempt } => {
                let ok = match event {
                    ConnectEvent::ConnectIssued(ok) => ok,
                    _ => false,
                };
                if ok {
                    self.phase = ConnectPhase::Monitoring { attempt, polls: 1 };
                    ConnectAction::PollTarget
                } else {
                    self.fail_attempt(attempt)
                }
            },
            ConnectPhase::Monitoring { attempt, polls } => {
                let s = match event {
                    ConnectEvent::Polled(s) => s,
                    _ => None,
                };
                match s {
                    Some(NmVpnState::Activated) => {
                        self.phase = ConnectPhase::Finished;
                        ConnectAction::MarkConnected {
                            state: VpnState::Connected { server: self.target.clone() },
                        }
                    },
                    Some(NmVpnState::Deactivating) => self.fail_attempt(attempt),
                    Some(NmVpnState::Activating) => {
                        if polls < CONNECTION_MONITOR_MAX_ATTEMPTS {
                            self.phase = ConnectPhase::Monitoring { attempt, polls: polls + 1 };
                            ConnectAction::PollTarget
                        } else {
                            self.fail_attempt(attempt)
                        }
                    },
                    _ => {
                        if polls > INACTIVE_GRACE_POLLS || polls >= CONNECTION_MONITOR_MAX_ATTEMPTS {
                            self.fail_attempt(attempt)
                        } else {
                            self.phase = ConnectPhase::Monitoring { attempt, polls: polls + 1 };
                            ConnectAction::PollTarget
                        }
                    },
                }
            },
            ConnectPhase::Pausing { attempt } => {
                self.phase = ConnectPhase::Attempting { attempt: attempt + 1 };
                ConnectAction::Connect
            },
            ConnectPhase::Finished => ConnectAction::Nothing,
        }
    }
}

/// Every step of an unfinished flow lowers its measure, so the flow ends
/// after at most `measure(Start)` steps.
pub proof fn lemma_connect_terminates(
    target: Seq<char>,
    previous: Option<Seq<char>>,
    p: ConnectPhase,
    e: ConnectEvent,
)
    requires
        phase_wf(p),
        p != ConnectPhase::Finished,
    ensures
        phase_wf(connect_step(target, previous, p, e).0),
        measure(connect_step(target, previous, p, e).0) < measure(p),
{
}

/// A connection request is issued only as attempt number one more than the
/// attempts made so far, and never beyond `MAX_CONNECT_ATTEMPTS`; no other
/// step changes the count while the flow runs.
pub proof fn lemma_connect_attempts_bounded(
    target: Seq<char>,
    previous: Option<Seq<char>>,
    p: ConnectPhase,
    e: ConnectEvent,
)
    requires
        phase_wf(p),
    ensures
        ({
            let (q, a) = connect_step(target, previous, p, e);
            &&& a is Connect ==> attempts_made(q) == attempts_made(p) + 1 && attempts_made(q)
                <= MAX_CONNECT_ATTEMPTS
            &&& !(a is Connect) && q != ConnectPhase::Finished ==> attempts_made(q)
                == attempts_made(p)
        }),
{
}

/// The flow reports success only right after NetworkManager reported the
/// target activated while an attempt was being watched, and then it is over.
pub proof fn lemma_connected_only_when_activated(
    target: Seq<char>,
    previous: Option<Seq<char>>,
    p: ConnectPhase,
    e: ConnectEvent,
)
    requires
        connect_step(target, previous, p, e).1 is MarkConnected,
    ensures
        p is Monitoring,
        e == ConnectEvent::Polled(Some(NmVpnState::Activated)),
        connect_step(target, previous, p, e).0 == ConnectPhase::Finished,
{
}

/// Asking to connect to the VPN that is already on record does nothing.
pub proof fn lemma_already_connected_is_noop(target: Seq<char>, e: ConnectEvent)
    ensures
        connect_step(target, Some(target), ConnectPhase::Start, e) == (
            ConnectPhase::Finished,
            ConnectActionView::Nothing,
        ),
{
}

} // verus!

//! Reconnecting after a dropped connection, as a state machine.
//!
//! Attempts are numbered from the attempt the flow starts at up to
//! `MAX_RECONNECT_ATTEMPTS`; before attempt `n` the flow waits
//! `min(RECONNECT_BASE_DELAY_SECS * n, RECONNECT_MAX_DELAY_SECS)` seconds.
use vstd::prelude::*;

use crate::state::{VpnState, VpnStateView};
use crate::supervisor::{
    CONNECTION_VERIFY_DELAY_SECS, MAX_RECONNECT_ATTEMPTS, RECONNECT_BASE_DELAY_SECS,
    RECONNECT_MAX_DELAY_SECS,
};
use crate::text::{decimal, push_decimal, str_eq};

verus! {

/// The wait before reconnection attempt `attempt`, in seconds.
pub open spec fn delay_spec(attempt: u32) -> u64 {
    if RECONNECT_BASE_DELAY_SECS * attempt < RECONNECT_MAX_DELAY_SECS {
        (RECONNECT_BASE_DELAY_SECS * attempt) as u64
    } else {
        RECONNECT_MAX_DELAY_SECS
    }
}

/// The wait before reconnection attempt `attempt`, in seconds: linear in
/// the attempt, capped at `RECONNECT_MAX_DELAY_SECS`.
pub fn reconnect_delay_secs(attempt: u32) -> (r: u64)
    ensures
        r == delay_spec(attempt),
        r <= RECONNECT_MAX_DELAY_SECS,
{
    let d = RECONNECT_BASE_DELAY_SECS * (attempt as u64);
    if d < RECONNECT_MAX_DELAY_SECS {
        d
    } else {
        RECONNECT_MAX_DELAY_SECS
    }
}

/// Reason recorded when every reconnection attempt failed.
pub open spec fn reconnect_failure_reason() -> Seq<char> {
    "Max attempts ("@ + decimal(MAX_RECONNECT_ATTEMPTS as nat) + ") exceeded"@
}

/// Where the flow stands.
#[derive(Debug, Clone, Copy, PartialEq, Eq, Structural)]
pub enum ReconnectPhase {
    /// About to start attempt `attempt`.
    Ready { attempt: u32 },
    /// Attempt `attempt` has been requested.
    Connecting { attempt: u32 },
    /// Checking whether attempt `attempt` brought the VPN back.
    Verifying { attempt: u32 },
    /// Done.
    Finished,
}

/// What the previous action produced.
#[derive(Debug, PartialEq)]
pub enum ReconnectEvent {
    /// The action was carried out and produced nothing to report.
    Proceed,
    /// Whether NetworkManager accepted the request to bring the VPN up.
    ConnectIssued(bool),
    /// The fully active VPN that NetworkManager reports, if any.
    ActiveVpn(Option<String>),
}

/// `ReconnectEvent` with its strings taken as character sequences.
pub enum ReconnectEventView {
    Proceed,
    ConnectIssued(bool),
    ActiveVpn(Option<Seq<char>>),
}

impl View for ReconnectEvent {
    type V = ReconnectEventView;

    open spec fn view(&self) -> ReconnectEventView {
        match self {
            ReconnectEvent::Proceed => ReconnectEventView::Proceed,
            ReconnectEvent::ConnectIssued(b) => ReconnectEventView::ConnectIssued(*b),
            ReconnectEvent::ActiveVpn(a) => ReconnectEventView::ActiveVpn(
                match a {
                    Some(s) => Some(s@),
                    None => None,
                },
            ),
        }
    }
}

/// The next thing to do.
#[derive(Debug, PartialEq)]
pub enum ReconnectAction {
    /// Nothing: the flow is over.
    Nothing,
    /// Set the state to `state`, wait `delay_secs`, then ask NetworkManager
    /// to bring the VPN up; answer `ConnectIssued`.
    Attempt { state: VpnState, delay_secs: u64 },
    /// Wait `delay_secs`, then ask NetworkManager for the active VPN;
    /// answer `ActiveVpn`.
    Verify { delay_secs: u64 },
    /// The VPN is back: set the state to `state` and tell the user.
    MarkConnected { state: VpnState },
    /// Every attempt failed: set the state to `state` and tell the user.
    MarkFailed { state: VpnState },
}

/// `ReconnectAction` with its strings taken as character sequences.
pub enum ReconnectActionView {
    Nothing,
    Attempt { state: VpnStateView, delay_secs: u64 },
    Verify { delay_secs: u64 },
    MarkConnected { state: VpnStateView },
    MarkFailed { state: VpnStateView },
}

impl View for ReconnectAction {
    type V = ReconnectActionView;

    open spec fn view(&self) -> ReconnectActionView {
        match self {
            ReconnectAction::Nothing => ReconnectActionView::Nothing,
            ReconnectAction::Attempt { state, delay_secs } => ReconnectActionView::Attempt {
                state: state@,
                delay_secs: *delay_secs,
            },
            ReconnectAction::Verify { delay_secs } => ReconnectActionView::Verify {
                delay_secs: *delay_secs,
            },
            ReconnectAction::MarkConnected { state } => ReconnectActionView::MarkConnected {
                state: state@,
            },
            ReconnectAction::MarkFailed { state } => ReconnectActionView::MarkFailed {
                state: state@,
            },
        }
    }
}

/// The phases a flow can be in.
pub open spec fn reconnect_phase_wf(p: ReconnectPhase) -> bool {
    match p {
        ReconnectPhase::Connecting { attempt } => attempt <= MAX_RECONNECT_ATTEMPTS,
        ReconnectPhase::Verifying { attempt } => attempt <= MAX_RECONNECT_ATTEMPTS,
        _ => true,
    }
}

/// A bound on the number of steps left; it falls with every step.
pub open spec fn reconnect_measure(p: ReconnectPhase) -> nat {
    match p {
        ReconnectPhase::Ready { attempt } => if attempt > MAX_RECONNECT_ATTEMPTS {
            1
        } else {
            (3 * (11 - attempt) + 3) as nat
        },
        ReconnectPhase::Connecting { attempt } => (3 * (11 - attempt) + 2) as nat,
        ReconnectPhase::Verifying { attempt } => (3 * (11 - attempt) + 1) as nat,
        ReconnectPhase::Finished => 0,
    }
}

/// Start attempt `a` of reconnecting to `server`, or give up past the last.
pub open spec fn start_attempt(server: Seq<char>, a: u32) -> (ReconnectPhase, ReconnectActionView) {
    if a > MAX_RECONNECT_ATTEMPTS {
        (
            ReconnectPhase::Finished,
            ReconnectActionView::MarkFailed {
                state: VpnStateView::Failed { server, reason: reconnect_failure_reason() },
            },
        )
    } else {
        (
            ReconnectPhase::Connecting { attempt: a },
            ReconnectActionView::Attempt {
                state: VpnStateView::Reconnecting {
                    server,
                    attempt: a,
                    max_attempts: MAX_RECONNECT_ATTEMPTS,
                },
                delay_secs: delay_spec(a),
            },
        )
    }
}

/// One step of reconnecting to `server`: the next phase and the action.
pub open spec fn reconnect_step(server: Seq<char>, p: ReconnectPhase, e: ReconnectEventView) -> (
    ReconnectPhase,
    ReconnectActionView,
) {
    match p {
        ReconnectPhase::Ready { attempt } => start_attempt(server, attempt),
        ReconnectPhase::Connecting { attempt } => match e {
            ReconnectEventView::ConnectIssued(true) => (
                ReconnectPhase::Verifying { attempt },
                ReconnectActionView::Verify { delay_secs: CONNECTION_VERIFY_DELAY_SECS },
            ),
            _ => start_attempt(server, (attempt + 1) as u32),
        },
        ReconnectPhase::Verifying { attempt } => match e {
            ReconnectEventView::ActiveVpn(Some(n)) => if n == server {
                (
                    ReconnectPhase::Finished,
                    ReconnectActionView::MarkConnected {
                        state: VpnStateView::Connected { server },
                    },
                )
            } else {
                start_attempt(server, (attempt + 1) as u32)
            },
            _ => start_attempt(server, (attempt + 1) as u32),
        },
        ReconnectPhase::Finished => (ReconnectPhase::Finished, ReconnectActionView::Nothing),
    }
}

/// A reconnection in progress.
pub struct ReconnectFlow {
    server: String,
    phase: ReconnectPhase,
}

impl ReconnectFlow {
    pub closed spec fn server(&self) -> Seq<char> {
        self.server@
    }

    pub closed spec fn phase(&self) -> ReconnectPhase {
        self.phase
    }

    pub open spec fn wf(&self) -> bool {
        reconnect_phase_wf(self.phase())
    }

    /// A flow that reconnects to `server`, starting at attempt `first_attempt`.
    pub fn new(server: &str, first_attempt: u32) -> (r: Self)
        ensures
            r.wf(),
            r.server() == server@,
            r.phase() == (ReconnectPhase::Ready { attempt: first_attempt }),
    {
        ReconnectFlow { server: String::from_str(server), phase: ReconnectPhase::Ready { attempt: first_attempt } }
    }

    /// Whether the flow is over.
    pub fn is_finished(&self) -> (r: bool)
        ensures
            r == (self.phase() == ReconnectPhase::Finished),
    {
        matches!(self.phase, ReconnectPhase::Finished)
    }

    fn start(&mut self, a: u32) -> (r: ReconnectAction)
        ensures
            final(self).server() == old(self).server(),
            (final(self).phase(), r@) == start_attempt(old(self).server(), a),
    {
        if a > MAX_RECONNECT_ATTEMPTS {
            self.phase = ReconnectPhase::Finished;
            let mut reason = String::from_str("Max attempts (");
            push_decimal(&mut reason, MAX_RECONNECT_ATTEMPTS as u128);
            reason.append(") exceeded");
            ReconnectAction::MarkFailed {
                state: VpnState::Failed { server: self.server.clone(), reason },
            }
        } else {
            self.phase = ReconnectPhase::Connecting { attempt: a };
            ReconnectAction::Attempt {
                state: VpnState::Reconnecting {
                    server: self.server.clone(),
                    attempt: a,
                    max_attempts: MAX_RECONNECT_ATTEMPTS,
                },
                delay_secs: reconnect_delay_secs(a),
            }
        }
    }

    /// Takes what the previous action produced and returns the next action.
    pub fn step(&mut self, event: ReconnectEvent) -> (r: ReconnectAction)
        requires
            old(self).wf(),
        ensures
            final(self).wf(),
            final(self).server() == old(self).server(),
            (final(self).phase(), r@) == reconnect_step(old(self).server(), old(self).phase(), event@),
    {
        match self.phase {
            ReconnectPhase::Ready { attempt } => self.start(attempt),
            ReconnectPhase::Connecting { attempt } => {
                match event {
                    ReconnectEvent::ConnectIssued(true) => {
                        self.phase = ReconnectPhase::Verifying { attempt };
                        ReconnectAction::Verify { delay_secs: CONNECTION_VERIFY_DELAY_SECS }
                    },
                    _ => self.start(attempt + 1),
                }
            },
            ReconnectPhase::Verifying { attempt } => {
                match event {
                    ReconnectEvent::ActiveVpn(Some(n)) => {
                        if str_eq(n.as_str(), self.server.as_str()) {
                            self.phase = ReconnectPhase::Finished;
                            ReconnectAction::MarkConnected {
                                state: VpnState::Connected { server: self.server.clone() },
                            }
                        } else {
                            self.start(attempt + 1)
                        }
                    },
                    _ => self.start(attempt + 1),
                }
            },
            ReconnectPhase::Finished => ReconnectAction::Nothing,
        }
    }
}

/// Every step of an unfinished reconnection lowers its measure, so it ends.
pub proof fn lemma_reconnect_terminates(server: Seq<char>, p: ReconnectPhase, e: ReconnectEventView)
    requires
        reconnect_phase_wf(p),
        p != ReconnectPhase::Finished,
    ensures
        reconnect_phase_wf(reconnect_step(server, p, e).0),
        reconnect_measure(reconnect_step(server, p, e).0) < reconnect_measure(p),
{
}

/// Each attempt shows its number (never above `MAX_RECONNECT_ATTEMPTS`)
/// and waits `min(2 * n, 30)` seconds; a new attempt after a failed one
/// is numbered one higher, so at most `MAX_RECONNECT_ATTEMPTS - first + 1`
/// attempts are made.
pub proof fn lemma_reconnect_attempts_bounded(
    server: Seq<char>,
    p: ReconnectPhase,
    e: ReconnectEventView,
)
    requires
        reconnect_phase_wf(p),
    ensures
        ({
            let (q, a) = reconnect_step(server, p, e);
            a matches ReconnectActionView::Attempt { state, delay_secs } ==> {
                &&& q is Connecting
                &&& state == VpnStateView::Reconnecting {
                    server,
                    attempt: q->Connecting_attempt,
                    max_attempts: MAX_RECONNECT_ATTEMPTS,
                }
                &&& 1 <= q->Connecting_attempt || p is Ready
                &&& q->Connecting_attempt <= MAX_RECONNECT_ATTEMPTS
                &&& delay_secs <= RECONNECT_MAX_DELAY_SECS
                &&& delay_secs == delay_spec(q->Connecting_attempt)
                &&& match p {
                    ReconnectPhase::Ready { attempt } => q->Connecting_attempt == attempt,
                    ReconnectPhase::Connecting { attempt } => q->Connecting_attempt == attempt + 1,
                    ReconnectPhase::Verifying { attempt } => q->Connecting_attempt == attempt + 1,
                    ReconnectPhase::Finished => false,
                }
            }
        }),
{
}

/// A failed attempt that is not the last one is followed by the next
/// attempt, numbered one higher, after the longer wait of
/// `RECONNECT_BASE_DELAY_SECS` times its number, capped at
/// `RECONNECT_MAX_DELAY_SECS`; whether the request itself failed or the
/// VPN did not come back.
pub proof fn lemma_reconnect_retries_after_failure(
    server: Seq<char>,
    attempt: u32,
    e: ReconnectEventView,
)
    requires
        1 <= attempt < MAX_RECONNECT_ATTEMPTS,
    ensures
        ({
            let next = (attempt + 1) as u32;
            let wait = if 2 * (attempt + 1) < 30 {
                (2 * (attempt + 1)) as u64
            } else {
                30u64
            };
            let retry = (
                ReconnectPhase::Connecting { attempt: next },
                ReconnectActionView::Attempt {
                    state: VpnStateView::Reconnecting {
                        server,
                        attempt: next,
                        max_attempts: MAX_RECONNECT_ATTEMPTS,
                    },
                    delay_secs: wait,
                },
            );
            &&& !(e matches ReconnectEventView::ConnectIssued(true)) ==> reconnect_step(
                server,
                ReconnectPhase::Connecting { attempt },
                e,
            ) == retry
            &&& !(e matches ReconnectEventView::ActiveVpn(Some(n)) && n == server) ==> reconnect_step(
                server,
                ReconnectPhase::Verifying { attempt },
                e,
            ) == retry
        }),
{
}

/// The flow gives up only after the last attempt: failing is reported
/// only from attempt `MAX_RECONNECT_ATTEMPTS` (or from a flow started past
/// it), and a successful reconnection only when NetworkManager reports
/// the same VPN active.
pub proof fn lemma_reconnect_gives_up_only_after_last(
    server: Seq<char>,
    p: ReconnectPhase,
    e: ReconnectEventView,
)
    ensures
        reconnect_step(server, p, e).1 is MarkFailed ==> match p {
            ReconnectPhase::Ready { attempt } => attempt > MAX_RECONNECT_ATTEMPTS,
            ReconnectPhase::Connecting { attempt } => attempt >= MAX_RECONNECT_ATTEMPTS,
            ReconnectPhase::Verifying { attempt } => attempt >= MAX_RECONNECT_ATTEMPTS,
            ReconnectPhase::Finished => false,
        },
        reconnect_step(server, p, e).1 is MarkConnected ==> p is Verifying && e
            == ReconnectEventView::ActiveVpn(Some(server)),
{
}

} // verus!

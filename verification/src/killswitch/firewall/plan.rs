//! Enabling and disabling the kill switch, as state machines.
//!
//! Enabling does nothing when the kill switch is already on; otherwise it
//! runs the enable plan in order and stops at the first command that
//! fails. Disabling does nothing when it is off; otherwise it removes the
//! rules with a cleanup run. The program runs each command and reports
//! how it went.
use vstd::prelude::*;

use super::chains::CleanupRun;
use super::{
    cleanup_all_rules_spec, cmds_view, enable_plan_spec, FirewallCommand, FirewallCommandView,
    KillSwitch, KillSwitchError, KillSwitchErrorView,
};
use crate::ip::{ips_view, ServerIp};

verus! {

/// The next thing to do while enabling.
#[derive(Debug, PartialEq)]
pub enum PlanAction {
    /// Nothing: the run is over.
    Nothing,
    /// Run this command and report its result.
    Run(FirewallCommand),
    /// Enabling is done, with this result; on `Ok` the kill switch is on.
    Finish(Result<(), KillSwitchError>),
}

/// `PlanAction` with its parts taken by their views.
pub ghost enum PlanActionView {
    Nothing,
    Run(FirewallCommandView),
    Finish(Result<(), KillSwitchErrorView>),
}

impl View for PlanAction {
    type V = PlanActionView;

    open spec fn view(&self) -> PlanActionView {
        match self {
            PlanAction::Nothing => PlanActionView::Nothing,
            PlanAction::Run(c) => PlanActionView::Run(c@),
            PlanAction::Finish(r) => PlanActionView::Finish(err_view(*r)),
        }
    }
}

/// The view of a command result.
pub open spec fn err_view(r: Result<(), KillSwitchError>) -> Result<(), KillSwitchErrorView> {
    match r {
        Ok(()) => Ok(()),
        Err(e) => Err(e@),
    }
}

/// One step of running `plan`: `pos` commands have been started, `done`
/// tells whether the run is over, and `last` is the result of the command
/// run last (`None` before the first). The new position, whether the run
/// is over, and the action.
pub open spec fn plan_step(
    plan: Seq<FirewallCommandView>,
    pos: nat,
    done: bool,
    last: Option<Result<(), KillSwitchErrorView>>,
) -> (nat, bool, PlanActionView) {
    if done {
        (pos, true, PlanActionView::Nothing)
    } else {
        match last {
            Some(Err(e)) => (pos, true, PlanActionView::Finish(Err(e))),
            _ => if pos < plan.len() {
                ((pos + 1) as nat, false, PlanActionView::Run(plan[pos as int]))
            } else {
                (pos, true, PlanActionView::Finish(Ok(())))
            },
        }
    }
}

/// Commands run in order, stopping at the first failure.
pub struct PlanRun {
    plan: Vec<FirewallCommand>,
    pos: usize,
    done: bool,
}

impl PlanRun {
    /// The commands.
    pub closed spec fn plan(&self) -> Seq<FirewallCommandView> {
        cmds_view(self.plan@)
    }

    /// How many commands have been started.
    pub closed spec fn pos(&self) -> nat {
        self.pos as nat
    }

    /// Whether the run is over.
    pub closed spec fn done(&self) -> bool {
        self.done
    }

    pub open spec fn wf(&self) -> bool {
        self.pos() <= self.plan().len()
    }

    /// Whether the run is over.
    pub fn is_finished(&self) -> (r: bool)
        ensures
            r == self.done(),
    {
        self.done
    }

    /// Takes the result of the command run last (`None` on the first call)
    /// and returns the next action.
    pub fn step(&mut self, last: Option<Result<(), KillSwitchError>>) -> (r: PlanAction)
        requires
            old(self).wf(),
        ensures
            final(self).wf(),
            final(self).plan() == old(self).plan(),
            ({
                let (p, d, a) = plan_step(
                    old(self).plan(),
                    old(self).pos(),
                    old(self).done(),
                    match last {
                        Some(x) => Some(err_view(x)),
                        None => None,
                    },
                );
                &&& final(self).pos() == p
                &&& final(self).done() == d
                &&& r@ == a
            }),
    {
        if self.done {
            return PlanAction::Nothing;
        }
        if let Some(Err(e)) = last {
            self.done = true;
            return PlanAction::Finish(Err(e));
        }
        if self.pos < self.plan.len() {
            let c = self.plan[self.pos].clone();
            proof {
                assert(self.plan()[self.pos as int] == self.plan@[self.pos as int]@);
            }
            self.pos = self.pos + 1;
            PlanAction::Run(c)
        } else {
            self.done = true;
            PlanAction::Finish(Ok(()))
        }
    }
}

/// `r` is a fresh run of `plan`.
pub open spec fn starts_plan(r: Option<PlanRun>, plan: Seq<FirewallCommandView>) -> bool {
    match r {
        Some(run) => run.wf() && run.plan() == plan && run.pos() == 0 && !run.done(),
        None => false,
    }
}

/// `r` is a fresh cleanup run of `stages`.
pub open spec fn starts_cleanup(r: Option<CleanupRun>, stages: Seq<(FirewallCommandView, Option<u32>)>) -> bool {
    match r {
        Some(run) => run.wf() && run.stages() == stages && run.stage() == 0 && run.runs() == 0,
        None => false,
    }
}

impl KillSwitch {
    /// Starts enabling: `None` when the kill switch is already on (enabling
    /// then succeeds at once), else a run of the enable plan.
    pub fn begin_enable(&self, detected: &[ServerIp]) -> (r: Option<PlanRun>)
        ensures
            self@.enabled ==> r is None,
            !self@.enabled ==> starts_plan(r, enable_plan_spec(self@, ips_view(detected@))),
    {
        if self.enabled {
            return None;
        }
        Some(PlanRun { plan: self.enable_plan(detected), pos: 0, done: false })
    }

    /// Starts disabling: `None` when the kill switch is already off
    /// (disabling then succeeds at once), else a cleanup run that removes
    /// every kill switch rule.
    pub fn begin_disable(&self) -> (r: Option<CleanupRun>)
        ensures
            !self@.enabled ==> r is None,
            self@.enabled ==> starts_cleanup(r, cleanup_all_rules_spec()),
    {
        if !self.enabled {
            return None;
        }
        Some(CleanupRun::new(KillSwitch::cleanup_all_rules_stages()))
    }
}

/// Enabling stops at the first failing command: its error is the result,
/// and nothing runs after it.
pub proof fn lemma_plan_stops_at_first_failure(
    plan: Seq<FirewallCommandView>,
    pos: nat,
    e: KillSwitchErrorView,
    next: Option<Result<(), KillSwitchErrorView>>,
)
    ensures
        plan_step(plan, pos, false, Some(Err(e))) == (pos, true, PlanActionView::Finish(Err(e))),
        plan_step(plan, pos, true, next) == (pos, true, PlanActionView::Nothing),
{
}

/// While every command succeeds, the commands run one after another in
/// the plan's order, and the run ends with success after the last.
pub proof fn lemma_plan_runs_in_order(plan: Seq<FirewallCommandView>, pos: nat)
    requires
        pos <= plan.len(),
    ensures
        pos < plan.len() ==> plan_step(plan, pos, false, Some(Ok(()))) == (
            (pos + 1) as nat,
            false,
            PlanActionView::Run(plan[pos as int]),
        ),
        pos == plan.len() ==> plan_step(plan, pos, false, Some(Ok(()))) == (
            pos,
            true,
            PlanActionView::Finish(Ok(())),
        ),
{
}

} // verus!

//! Removing the kill switch's chains and rules, robustly.
//!
//! When the kill switch is enabled and disabled repeatedly across crashes,
//! restarts, or signals, the kernel may accumulate duplicate jump rules and
//! orphaned chains. A cleanup is a list of stages; each stage runs one
//! command again and again while it succeeds, up to its limit, so that
//! every duplicate of a rule is removed. Failures are tolerated: which
//! backend was active when the previous instance died is not known, so
//! every backend is tried.
use vstd::prelude::*;

use super::ip6tables::{ipv6_output_rules, ipv6_output_rules_spec};
use super::{cmds_view, command, ip6t, ipt, FirewallCommand, FirewallCommandView, FirewallProgram, CHAIN_NAME, NFT_TABLE};
use crate::text::views;

verus! {

/// How many times at most a robust cleanup repeats one delete command.
pub const CLEANUP_REPEAT_LIMIT: u32 = 100;

/// One stage of a cleanup: a command, and how many times at most it runs
/// (`None`: until it fails).
#[derive(Debug, PartialEq)]
pub struct CleanupStage {
    pub command: FirewallCommand,
    pub limit: Option<u32>,
}

/// The views of a list of stages.
pub open spec fn stages_view(v: Seq<CleanupStage>) -> Seq<(FirewallCommandView, Option<u32>)> {
    v.map_values(|s: CleanupStage| (s.command@, s.limit))
}

/// Appends a stage.
pub fn push_stage(v: &mut Vec<CleanupStage>, c: FirewallCommand, limit: Option<u32>)
    ensures
        stages_view(final(v)@) == stages_view(old(v)@).push((c@, limit)),
{
    let ghost old_v = v@;
    let ghost cv = c@;
    v.push(CleanupStage { command: c, limit });
    proof {
        assert(stages_view(v@) =~= stages_view(old_v).push((cv, limit)));
    }
}

/// A limit, if there is one, is at least one.
pub open spec fn limit_ok(o: Option<u32>) -> bool {
    match o {
        Some(l) => l >= 1,
        None => true,
    }
}

/// There is a limit and it is at most `b`.
pub open spec fn limit_at_most(o: Option<u32>, b: nat) -> bool {
    match o {
        Some(l) => l <= b,
        None => false,
    }
}

/// Every limit is at least one.
pub open spec fn limits_ok(st: Seq<(FirewallCommandView, Option<u32>)>) -> bool {
    forall|i: int| 0 <= i < st.len() ==> limit_ok(#[trigger] st[i].1)
}

/// Where a cleanup stands: the stage and how often its command has run.
pub open spec fn run_wf(st: Seq<(FirewallCommandView, Option<u32>)>, stage: nat, runs: u32) -> bool {
    &&& limits_ok(st)
    &&& stage <= st.len()
    &&& stage == st.len() ==> runs == 0
    &&& stage < st.len() ==> match st[stage as int].1 {
        Some(l) => runs <= l,
        None => runs <= 1,
    }
}

/// One step of a cleanup: `ok` tells whether the last command succeeded.
/// The result is the new position and the command to run next, if any.
pub open spec fn cleanup_step(
    st: Seq<(FirewallCommandView, Option<u32>)>,
    stage: nat,
    runs: u32,
    ok: bool,
) -> (nat, u32, Option<FirewallCommandView>) {
    if stage >= st.len() {
        (st.len(), 0, None)
    } else if runs == 0 {
        (stage, 1, Some(st[stage as int].0))
    } else if ok && match st[stage as int].1 {
        Some(l) => runs < l,
        None => true,
    } {
        (
            stage,
            if st[stage as int].1 is Some {
                (runs + 1) as u32
            } else {
                runs
            },
            Some(st[stage as int].0),
        )
    } else if stage + 1 < st.len() {
        ((stage + 1) as nat, 1, Some(st[(stage + 1) as int].0))
    } else {
        (st.len(), 0, None)
    }
}

/// A cleanup in progress.
pub struct CleanupRun {
    stages: Vec<CleanupStage>,
    stage: usize,
    runs: u32,
}

impl CleanupRun {
    pub closed spec fn stages(&self) -> Seq<(FirewallCommandView, Option<u32>)> {
        stages_view(self.stages@)
    }

    pub closed spec fn stage(&self) -> nat {
        self.stage as nat
    }

    pub closed spec fn runs(&self) -> u32 {
        self.runs
    }

    pub open spec fn wf(&self) -> bool {
        run_wf(self.stages(), self.stage(), self.runs())
    }

    /// A cleanup that runs `stages` in order.
    pub fn new(stages: Vec<CleanupStage>) -> (r: Self)
        requires
            limits_ok(stages_view(stages@)),
        ensures
            r.wf(),
            r.stages() == stages_view(stages@),
            r.stage() == 0,
            r.runs() == 0,
    {
        CleanupRun { stages, stage: 0, runs: 0 }
    }

    /// Takes whether the last command succeeded (ignored on the first call)
    /// and returns the next command, or `None` when the cleanup is over.
    pub fn step(&mut self, ok: bool) -> (r: Option<FirewallCommand>)
        requires
            old(self).wf(),
        ensures
            final(self).wf(),
            final(self).stages() == old(self).stages(),
            ({
                let (s, n, c) = cleanup_step(old(self).stages(), old(self).stage(), old(self).runs(), ok);
                &&& final(self).stage() == s
                &&& final(self).runs() == n
                &&& match r {
                    Some(x) => c == Some(x@),
                    None => c is None,
                }
            }),
    {
        let ghost st = stages_view(self.stages@);
        let len = self.stages.len();
        if self.stage >= len {
            self.stage = len;
            self.runs = 0;
            return None;
        }
        proof {
            assert(st[self.stage as int] == (self.stages@[self.stage as int].command@, self.stages@[self.stage as int].limit));
        }
        if self.runs == 0 {
            self.runs = 1;
            return Some(self.stages[self.stage].command.clone());
        }
        let again = ok && match self.stages[self.stage].limit {
            Some(l) => self.runs < l,
            None => true,
        };
        if again {
            if self.stages[self.stage].limit.is_some() {
                self.runs = self.runs + 1;
            }
            return Some(self.stages[self.stage].command.clone());
        }
        if self.stage + 1 < len {
            self.stage = self.stage + 1;
            self.runs = 1;
            proof {
                assert(st[self.stage as int] == (self.stages@[self.stage as int].command@, self.stages@[self.stage as int].limit));
                assert(limits_ok(st));
                assert(limit_ok(st[self.stage as int].1));
            }
            return Some(self.stages[self.stage].command.clone());
        }
        self.stage = len;
        self.runs = 0;
        None
    }
}

/// Every limit is at most `b`.
pub open spec fn limits_bounded(st: Seq<(FirewallCommandView, Option<u32>)>, b: nat) -> bool {
    forall|i: int| 0 <= i < st.len() ==> limit_at_most(#[trigger] st[i].1, b)
}

/// A bound on the commands a cleanup with limits at most `b` has left to run.
pub open spec fn cleanup_measure(len: nat, stage: nat, runs: u32, b: nat) -> int {
    (len - stage) * (b + 1) - runs
}

/// A cleanup whose every stage has a limit runs a bounded number of
/// commands: each step that names a command lowers the measure, which
/// stays non-negative; and it moves through the stages in order, never
/// running a stage's command more often than its limit.
pub proof fn lemma_cleanup_bounded(
    st: Seq<(FirewallCommandView, Option<u32>)>,
    stage: nat,
    runs: u32,
    ok: bool,
    b: nat,
)
    requires
        run_wf(st, stage, runs),
        limits_bounded(st, b),
    ensures
        ({
            let (s, n, c) = cleanup_step(st, stage, runs, ok);
            &&& run_wf(st, s, n)
            &&& stage <= s
            &&& cleanup_measure(st.len(), s, n, b) >= 0
            &&& c is Some ==> cleanup_measure(st.len(), s, n, b) < cleanup_measure(
                st.len(),
                stage,
                runs,
                b,
            )
        }),
{
    let (s, n, c) = cleanup_step(st, stage, runs, ok);
    if stage < st.len() {
        assert(limit_at_most(st[stage as int].1, b));
    }
    if s < st.len() {
        assert(limit_at_most(st[s as int].1, b));
        assert(limit_ok(st[s as int].1));
    }
    assert((st.len() - s) * (b + 1) >= n) by (nonlinear_arith)
        requires
            s < st.len() ==> n <= b,
            s == st.len() ==> n == 0,
            s <= st.len(),
    ;
    if c is Some {
        assert(cleanup_measure(st.len(), s, n, b) < cleanup_measure(st.len(), stage, runs, b)) by (nonlinear_arith)
            requires
                stage < st.len(),
                (s == stage && n == runs + 1) || (s == stage + 1 && n == 1 && runs <= b) || (s == stage && runs == 0 && n == 1),
        ;
    }
}

/// The IPv6 stages of a robust cleanup: every rule of
/// `ipv6_output_rules_spec`, each deleted until none is left (at most the
/// repeat limit).
pub open spec fn ipv6_rule_stages(rules: Seq<Seq<Seq<char>>>) -> Seq<(FirewallCommandView, Option<u32>)> {
    rules.map_values(|r: Seq<Seq<char>>| (ip6t(r), Some(CLEANUP_REPEAT_LIMIT)))
}

/// Every command of a robust cleanup, in order, each with its limit.
pub open spec fn robust_cleanup_spec() -> Seq<(FirewallCommandView, Option<u32>)> {
    seq![
        (ipt(seq!["-D"@, "OUTPUT"@, "-j"@, CHAIN_NAME@]), Some(CLEANUP_REPEAT_LIMIT)),
        (ipt(seq!["-F"@, CHAIN_NAME@]), Some(1u32)),
        (ipt(seq!["-X"@, CHAIN_NAME@]), Some(1u32)),
    ] + ipv6_rule_stages(ipv6_output_rules_spec()) + seq![
        (ip6t(seq!["-D"@, "OUTPUT"@, "-j"@, CHAIN_NAME@]), Some(CLEANUP_REPEAT_LIMIT)),
        (ip6t(seq!["-F"@, CHAIN_NAME@]), Some(1u32)),
        (ip6t(seq!["-X"@, CHAIN_NAME@]), Some(1u32)),
        (
            FirewallCommandView {
                program: FirewallProgram::Nft,
                args: seq!["delete"@, "table"@, "inet"@, NFT_TABLE@],
            },
            Some(1u32),
        ),
    ]
}

/// The stages of a cleanup that removes every duplicate of every rule the
/// kill switch may have added, across iptables, ip6tables and nftables.
pub fn robust_iptables_cleanup() -> (r: Vec<CleanupStage>)
    ensures
        stages_view(r@) == robust_cleanup_spec(),
        limits_ok(stages_view(r@)),
        limits_bounded(stages_view(r@), CLEANUP_REPEAT_LIMIT as nat),
{
    let mut v: Vec<CleanupStage> = Vec::new();
    push_stage(&mut v, command(FirewallProgram::Iptables, &["-D", "OUTPUT", "-j", CHAIN_NAME]), Some(CLEANUP_REPEAT_LIMIT));
    push_stage(&mut v, command(FirewallProgram::Iptables, &["-F", CHAIN_NAME]), Some(1));
    push_stage(&mut v, command(FirewallProgram::Iptables, &["-X", CHAIN_NAME]), Some(1));
    let ghost head = stages_view(v@);
    let rules = ipv6_output_rules();
    let ghost rs = rules@.map_values(|r: Vec<String>| views(r@));
    for i in 0..rules.len()
        invariant
            rs == rules@.map_values(|r: Vec<String>| views(r@)),
            rs == ipv6_output_rules_spec(),
            stages_view(v@) == head + ipv6_rule_stages(rs.take(i as int)),
    {
        let mut args: Vec<String> = Vec::new();
        let r = &rules[i];
        for j in 0..r.len()
            invariant
                views(args@) == views(r@.take(j as int)),
        {
            let ghost before = args@;
            let a = r[j].clone();
            args.push(a);
            proof {
                assert(r@.take(j + 1) =~= r@.take(j as int).push(r@[j as int]));
                assert(views(args@) =~= views(before).push(a@));
                assert(views(args@) =~= views(r@.take(j + 1)));
            }
        }
        proof {
            assert(r@.take(r@.len() as int) =~= r@);
            assert(rs[i as int] == views(r@));
        }
        push_stage(&mut v, FirewallCommand { program: FirewallProgram::Ip6tables, args }, Some(CLEANUP_REPEAT_LIMIT));
        proof {
            assert(rs.take(i + 1) =~= rs.take(i as int).push(rs[i as int]));
            assert(ipv6_rule_stages(rs.take(i + 1)) =~= ipv6_rule_stages(rs.take(i as int)).push((ip6t(rs[i as int]), Some(CLEANUP_REPEAT_LIMIT))));
        }
    }
    proof {
        assert(rs.take(rules@.len() as int) =~= rs);
    }
    push_stage(&mut v, command(FirewallProgram::Ip6tables, &["-D", "OUTPUT", "-j", CHAIN_NAME]), Some(CLEANUP_REPEAT_LIMIT));
    push_stage(&mut v, command(FirewallProgram::Ip6tables, &["-F", CHAIN_NAME]), Some(1));
    push_stage(&mut v, command(FirewallProgram::Ip6tables, &["-X", CHAIN_NAME]), Some(1));
    push_stage(&mut v, command(FirewallProgram::Nft, &["delete", "table", "inet", NFT_TABLE]), Some(1));
    proof {
        assert(stages_view(v@) =~~= robust_cleanup_spec());
        let st = stages_view(v@);
        assert forall|i: int| 0 <= i < st.len() implies limit_at_most(#[trigger] st[i].1, CLEANUP_REPEAT_LIMIT as nat) && limit_ok(st[i].1) by {
            if 3 <= i < 3 + rs.len() {
                assert(st[i] == ipv6_rule_stages(rs)[i - 3]);
            }
        }
    }
    v
}

} // verus!

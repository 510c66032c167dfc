//! Running a rule script, as a state machine.
//!
//! The lines run in order, each as `sudo -n <program> <args...>`. A line
//! whose failure is not tolerated stops the script with its error; after
//! an `iptables-nft` failure the line is retried once with the legacy
//! variant. Each call of `ScriptRun::step` takes what the previous action
//! produced and names the next action; the program performs it.
use vstd::prelude::*;

use super::error::{KillSwitchError, KillSwitchErrorView};
use super::iptables::{
    is_iptables_program, legacy_timeout_error, nft_failure_error, nft_failure_error_spec,
    parse_script, prefers_legacy, script_spec, script_step, script_step_spec, script_view,
    timeout_error, ScriptLine, ScriptLineView, ScriptStep, ScriptStepView, SUDO_CMD_TIMEOUT_SECS,
};
use crate::text::{decimal, lines, spec_lowercase, views};

verus! {

/// Where a script run stands.
#[derive(Debug, Clone, Copy, PartialEq, Eq, Structural)]
pub enum ScriptPhase {
    /// About to run line `pos`.
    Next { pos: usize },
    /// Asked for the legacy variant before running line `pos`.
    AwaitLegacy { pos: usize },
    /// Line `pos` is running.
    Running { pos: usize },
    /// Line `pos` failed on `iptables-nft`; asked for the legacy variant.
    AwaitRetry { pos: usize },
    /// Line `pos` is running again with the legacy variant.
    Retrying { pos: usize },
    /// Done.
    Finished,
}

/// What the previous action produced.
#[derive(Debug, PartialEq)]
pub enum ScriptEvent {
    /// Nothing to report (the first call).
    Proceed,
    /// The legacy variant found (its name or path), if any.
    Legacy(Option<String>),
    /// The command exited: whether it succeeded, its exit code (`None`:
    /// killed by a signal) and its error output.
    Exited { success: bool, exit_code: Option<i32>, stderr: String },
    /// The command did not finish within `SUDO_CMD_TIMEOUT_SECS`.
    TimedOut,
    /// The command could not be started (the OS error's text).
    SpawnFailed(String),
}

/// `ScriptEvent` with its strings taken as character sequences.
pub ghost enum ScriptEventView {
    Proceed,
    Legacy(Option<Seq<char>>),
    Exited { success: bool, exit_code: Option<i32>, stderr: Seq<char> },
    TimedOut,
    SpawnFailed(Seq<char>),
}

impl View for ScriptEvent {
    type V = ScriptEventView;

    open spec fn view(&self) -> ScriptEventView {
        match self {
            ScriptEvent::Proceed => ScriptEventView::Proceed,
            ScriptEvent::Legacy(o) => ScriptEventView::Legacy(
                match o {
                    Some(s) => Some(s@),
                    None => None,
                },
            ),
            ScriptEvent::Exited { success, exit_code, stderr } => ScriptEventView::Exited {
                success: *success,
                exit_code: *exit_code,
                stderr: stderr@,
            },
            ScriptEvent::TimedOut => ScriptEventView::TimedOut,
            ScriptEvent::SpawnFailed(s) => ScriptEventView::SpawnFailed(s@),
        }
    }
}

/// The next thing to do.
#[derive(Debug, PartialEq)]
pub enum ScriptAction {
    /// Nothing: the run is over.
    Nothing,
    /// Look for the legacy variant of `program` (`<name> --version`, then
    /// its usual path); answer `Legacy`.
    FindLegacy { program: String },
    /// Run `sudo -n <program> <args...>` with the timeout; answer `Exited`,
    /// `TimedOut` or `SpawnFailed`.
    Run { program: String, args: Vec<String> },
    /// The script is done, with this result.
    Finish(Result<(), KillSwitchError>),
}

/// `ScriptAction` with its strings taken as character sequences.
pub ghost enum ScriptActionView {
    Nothing,
    FindLegacy { program: Seq<char> },
    Run { program: Seq<char>, args: Seq<Seq<char>> },
    Finish(Result<(), KillSwitchErrorView>),
}

impl View for ScriptAction {
    type V = ScriptActionView;

    open spec fn view(&self) -> ScriptActionView {
        match self {
            ScriptAction::Nothing => ScriptActionView::Nothing,
            ScriptAction::FindLegacy { program } => ScriptActionView::FindLegacy {
                program: program@,
            },
            ScriptAction::Run { program, args } => ScriptActionView::Run {
                program: program@,
                args: views(args@),
            },
            ScriptAction::Finish(r) => ScriptActionView::Finish(
                match r {
                    Ok(()) => Ok(()),
                    Err(e) => Err(e@),
                },
            ),
        }
    }
}

/// The state of a run: the phase, the program of the pending command, and
/// the error output of the `iptables-nft` failure being retried.
pub ghost struct ScriptState {
    pub phase: ScriptPhase,
    pub program: Seq<char>,
    pub stderr: Seq<char>,
}

/// The error of a command that did not finish within the timeout.
pub open spec fn timeout_error_spec(line: Seq<char>) -> KillSwitchErrorView {
    KillSwitchErrorView::Command(
        "Command timed out after "@ + decimal(SUDO_CMD_TIMEOUT_SECS as nat)
            + "s (possible sudo prompt or frozen kernel module): "@ + line,
    )
}

/// The error of a legacy retry that did not finish within the timeout.
pub open spec fn legacy_timeout_error_spec(line: Seq<char>) -> KillSwitchErrorView {
    KillSwitchErrorView::Command(
        "Legacy command timed out after "@ + decimal(SUDO_CMD_TIMEOUT_SECS as nat) + "s: "@ + line,
    )
}

/// Starting line `pos` (or finishing after the last): the command runs the
/// legacy variant when the backend was switched to it, else the line's
/// own program.
pub open spec fn start_line(
    ls: Seq<ScriptLineView>,
    use_legacy: bool,
    pos: int,
    stderr: Seq<char>,
) -> (ScriptState, ScriptActionView) {
    if pos >= ls.len() {
        (
            ScriptState { phase: ScriptPhase::Finished, program: Seq::empty(), stderr },
            ScriptActionView::Finish(Ok(())),
        )
    } else {
        let prog = ls[pos].parts[0];
        if use_legacy && is_iptables_program(prog) {
            (
                ScriptState { phase: ScriptPhase::AwaitLegacy { pos: pos as usize }, program: prog, stderr },
                ScriptActionView::FindLegacy { program: prog },
            )
        } else {
            (
                ScriptState { phase: ScriptPhase::Running { pos: pos as usize }, program: prog, stderr },
                ScriptActionView::Run { program: prog, args: ls[pos].parts.skip(1) },
            )
        }
    }
}

/// Finishing with a result.
pub open spec fn finish(
    st: ScriptState,
    r: Result<(), KillSwitchErrorView>,
) -> (ScriptState, ScriptActionView) {
    (ScriptState { phase: ScriptPhase::Finished, ..st }, ScriptActionView::Finish(r))
}

/// One step of running the script `ls`: the next state and the action.
/// An event that does not answer the pending action repeats it.
pub open spec fn script_run_step(
    ls: Seq<ScriptLineView>,
    use_legacy: bool,
    st: ScriptState,
    e: ScriptEventView,
) -> (ScriptState, ScriptActionView) {
    match st.phase {
        ScriptPhase::Next { pos } => start_line(ls, use_legacy, pos as int, st.stderr),
        ScriptPhase::AwaitLegacy { pos } => {
            let l = ls[pos as int];
            match e {
                ScriptEventView::Legacy(o) => {
                    let prog = match o {
                        Some(c) => c,
                        None => l.parts[0],
                    };
                    (
                        ScriptState { phase: ScriptPhase::Running { pos }, program: prog, ..st },
                        ScriptActionView::Run { program: prog, args: l.parts.skip(1) },
                    )
                },
                _ => (st, ScriptActionView::FindLegacy { program: l.parts[0] }),
            }
        },
        ScriptPhase::Running { pos } => {
            let l = ls[pos as int];
            match e {
                ScriptEventView::Exited { success, exit_code, stderr } => match script_step_spec(
                    success,
                    l.ignore_error,
                    exit_code,
                    stderr,
                    spec_lowercase(stderr),
                    l.line,
                    l.parts[0],
                ) {
                    ScriptStepView::Continue => start_line(ls, use_legacy, pos + 1, st.stderr),
                    ScriptStepView::Fail(x) => finish(st, Err(x)),
                    ScriptStepView::TryLegacy => (
                        ScriptState { phase: ScriptPhase::AwaitRetry { pos }, program: l.parts[0], stderr },
                        ScriptActionView::FindLegacy { program: l.parts[0] },
                    ),
                },
                ScriptEventView::TimedOut => finish(st, Err(timeout_error_spec(l.line))),
                ScriptEventView::SpawnFailed(m) => finish(st, Err(KillSwitchErrorView::Spawn(m))),
                _ => (st, ScriptActionView::Run { program: st.program, args: l.parts.skip(1) }),
            }
        },
        ScriptPhase::AwaitRetry { pos } => {
            let l = ls[pos as int];
            match e {
                ScriptEventView::Legacy(Some(c)) => (
                    ScriptState { phase: ScriptPhase::Retrying { pos }, program: c, ..st },
                    ScriptActionView::Run { program: c, args: l.parts.skip(1) },
                ),
                ScriptEventView::Legacy(None) => finish(st, Err(nft_failure_error_spec(st.stderr, l.line))),
                _ => (st, ScriptActionView::FindLegacy { program: l.parts[0] }),
            }
        },
        ScriptPhase::Retrying { pos } => {
            let l = ls[pos as int];
            match e {
                ScriptEventView::Exited { success, .. } => if success {
                    start_line(ls, use_legacy, pos + 1, st.stderr)
                } else {
                    finish(st, Err(nft_failure_error_spec(st.stderr, l.line)))
                },
                ScriptEventView::TimedOut => finish(st, Err(legacy_timeout_error_spec(l.line))),
                ScriptEventView::SpawnFailed(m) => finish(st, Err(KillSwitchErrorView::Spawn(m))),
                _ => (st, ScriptActionView::Run { program: st.program, args: l.parts.skip(1) }),
            }
        },
        ScriptPhase::Finished => (st, ScriptActionView::Nothing),
    }
}

/// Every line of a parsed script runs a program.
pub open spec fn lines_wf(ls: Seq<ScriptLineView>) -> bool {
    forall|i: int| 0 <= i < ls.len() ==> (#[trigger] ls[i]).parts.len() > 0
}

/// The phases a run over `n` lines can be in.
pub open spec fn script_phase_wf(p: ScriptPhase, n: nat) -> bool {
    match p {
        ScriptPhase::Next { pos } => pos <= n,
        ScriptPhase::AwaitLegacy { pos } => pos < n,
        ScriptPhase::Running { pos } => pos < n,
        ScriptPhase::AwaitRetry { pos } => pos < n,
        ScriptPhase::Retrying { pos } => pos < n,
        ScriptPhase::Finished => true,
    }
}

proof fn lemma_script_spec_wf(ls: Seq<Seq<char>>)
    ensures
        lines_wf(script_spec(ls)),
    decreases ls.len(),
{
    if ls.len() > 0 {
        let front = ls.subrange(0, ls.len() - 1);
        lemma_script_spec_wf(front);
        let a = script_spec(front);
        let s = script_spec(ls);
        assert forall|i: int| 0 <= i < s.len() implies (#[trigger] s[i]).parts.len() > 0 by {
            if i < a.len() {
                assert(s[i] == a[i]);
            }
        }
    }
}

/// A rule script being run.
pub struct ScriptRun {
    lines: Vec<ScriptLine>,
    use_legacy: bool,
    phase: ScriptPhase,
    program: String,
    stderr: String,
}

impl ScriptRun {
    /// The script's commands.
    pub closed spec fn script(&self) -> Seq<ScriptLineView> {
        script_view(self.lines@)
    }

    /// Whether the backend was switched to the legacy variant.
    pub closed spec fn legacy(&self) -> bool {
        self.use_legacy
    }

    /// The state of the run.
    pub closed spec fn state(&self) -> ScriptState {
        ScriptState { phase: self.phase, program: self.program@, stderr: self.stderr@ }
    }

    pub open spec fn wf(&self) -> bool {
        lines_wf(self.script()) && script_phase_wf(self.state().phase, self.script().len())
    }

    /// A run of `script`, from its first line; `use_legacy` tells whether
    /// the backend was switched to `iptables-legacy`.
    pub fn new(script: &str, use_legacy: bool) -> (r: Self)
        ensures
            r.wf(),
            r.script() == script_spec(lines(script@)),
            r.legacy() == use_legacy,
            r.state() == (ScriptState {
                phase: ScriptPhase::Next { pos: 0 },
                program: Seq::empty(),
                stderr: Seq::empty(),
            }),
    {
        let parsed = parse_script(script);
        proof {
            lemma_script_spec_wf(lines(script@));
        }
        ScriptRun {
            lines: parsed,
            use_legacy,
            phase: ScriptPhase::Next { pos: 0 },
            program: String::new(),
            stderr: String::new(),
        }
    }

    /// Whether the run is over.
    pub fn is_finished(&self) -> (r: bool)
        ensures
            r == (self.state().phase == ScriptPhase::Finished),
    {
        self.phase == ScriptPhase::Finished
    }

    fn args_of(&self, pos: usize) -> (r: Vec<String>)
        requires
            self.wf(),
            pos < self.script().len(),
        ensures
            views(r@) == self.script()[pos as int].parts.skip(1),
    {
        proof {
            assert(self.script()[pos as int] == self.lines@[pos as int]@);
        }
        let parts = &self.lines[pos].parts;
        let mut r: Vec<String> = Vec::new();
        let mut j: usize = 1;
        while j < parts.len()
            invariant
                1 <= j <= parts@.len(),
                views(r@) == views(parts@).subrange(1, j as int),
            decreases parts@.len() - j,
        {
            let ghost before = r@;
            r.push(parts[j].clone());
            proof {
                assert(views(r@) =~= views(before).push(parts@[j as int]@));
                assert(views(parts@).subrange(1, j + 1) =~= views(parts@).subrange(1, j as int).push(
                    parts@[j as int]@,
                ));
            }
            j = j + 1;
        }
        proof {
            assert(views(parts@).subrange(1, j as int) =~= views(parts@).skip(1));
        }
        r
    }

    fn program_of(&self, pos: usize) -> (r: String)
        requires
            self.wf(),
            pos < self.script().len(),
        ensures
            r@ == self.script()[pos as int].parts[0],
    {
        proof {
            assert(self.script()[pos as int] == self.lines@[pos as int]@);
            assert(self.script()[pos as int].parts.len() > 0);
            assert(views(self.lines@[pos as int].parts@)[0] == self.lines@[pos as int].parts@[0]@);
        }
        self.lines[pos].parts[0].clone()
    }

    fn start(&mut self, pos: usize) -> (r: ScriptAction)
        requires
            old(self).wf(),
            pos <= old(self).script().len(),
        ensures
            final(self).wf(),
            final(self).script() == old(self).script(),
            final(self).legacy() == old(self).legacy(),
            (final(self).state(), r@) == start_line(
                old(self).script(),
                old(self).legacy(),
                pos as int,
                old(self).state().stderr,
            ),
    {
        if pos >= self.lines.len() {
            self.phase = ScriptPhase::Finished;
            self.program = String::new();
            return ScriptAction::Finish(Ok(()));
        }
        let prog = self.program_of(pos);
        if prefers_legacy(self.use_legacy, prog.as_str()) {
            self.phase = ScriptPhase::AwaitLegacy { pos };
            self.program = prog.clone();
            ScriptAction::FindLegacy { program: prog }
        } else {
            let args = self.args_of(pos);
            self.phase = ScriptPhase::Running { pos };
            self.program = prog.clone();
            ScriptAction::Run { program: prog, args }
        }
    }

    fn finish_with(&mut self, r: Result<(), KillSwitchError>) -> (a: ScriptAction)
        requires
            old(self).wf(),
        ensures
            final(self).wf(),
            final(self).script() == old(self).script(),
            final(self).legacy() == old(self).legacy(),
            (final(self).state(), a@) == finish(
                old(self).state(),
                match r {
                    Ok(()) => Ok(()),
                    Err(e) => Err(e@),
                },
            ),
    {
        self.phase = ScriptPhase::Finished;
        ScriptAction::Finish(r)
    }

    /// Takes what the previous action produced and returns the next action.
    pub fn step(&mut self, event: ScriptEvent) -> (r: ScriptAction)
        requires
            old(self).wf(),
        ensures
            final(self).wf(),
            final(self).script() == old(self).script(),
            final(self).legacy() == old(self).legacy(),
            (final(self).state(), r@) == script_run_step(
                old(self).script(),
                old(self).legacy(),
                old(self).state(),
                event@,
            ),
    {
        proof {
            assert(self.script().len() == self.lines@.len());
            if let ScriptPhase::AwaitLegacy { pos } = self.phase {
                assert(self.script()[pos as int] == self.lines@[pos as int]@);
            }
        }
        match self.phase {
            ScriptPhase::Next { pos } => self.start(pos),
            ScriptPhase::AwaitLegacy { pos } => match event {
                ScriptEvent::Legacy(o) => {
                    let prog = match o {
                        Some(c) => c,
                        None => self.program_of(pos),
                    };
                    let args = self.args_of(pos);
                    self.phase = ScriptPhase::Running { pos };
                    self.program = prog.clone();
                    ScriptAction::Run { program: prog, args }
                },
                _ => ScriptAction::FindLegacy { program: self.program_of(pos) },
            },
            ScriptPhase::Running { pos } => {
                proof {
                    assert(self.script()[pos as int] == self.lines@[pos as int]@);
                    assert(script_phase_wf(self.state().phase, self.script().len()));
                    assert(pos < self.lines@.len());
                }
                match event {
                    ScriptEvent::Exited { success, exit_code, stderr } => {
                        let prog = self.program_of(pos);
                        let s = script_step(
                            success,
                            self.lines[pos].ignore_error,
                            exit_code,
                            stderr.as_str(),
                            self.lines[pos].line.as_str(),
                            prog.as_str(),
                        );
                        match s {
                            ScriptStep::Continue => {
                                let n = self.lines.len();
                                assert(pos < n);
                                self.start(pos + 1)
                            },
                            ScriptStep::Fail(x) => self.finish_with(Err(x)),
                            ScriptStep::TryLegacy => {
                                self.phase = ScriptPhase::AwaitRetry { pos };
                                self.program = prog.clone();
                                self.stderr = stderr;
                                ScriptAction::FindLegacy { program: prog }
                            },
                        }
                    },
                    ScriptEvent::TimedOut => {
                        let e = timeout_error(self.lines[pos].line.as_str());
                        self.finish_with(Err(e))
                    },
                    ScriptEvent::SpawnFailed(m) => self.finish_with(Err(KillSwitchError::Spawn(m))),
                    _ => ScriptAction::Run { program: self.program.clone(), args: self.args_of(pos) },
                }
            },
            ScriptPhase::AwaitRetry { pos } => {
                proof {
                    assert(self.script()[pos as int] == self.lines@[pos as int]@);
                }
                match event {
                    ScriptEvent::Legacy(Some(c)) => {
                        let args = self.args_of(pos);
                        self.phase = ScriptPhase::Retrying { pos };
                        self.program = c.clone();
                        ScriptAction::Run { program: c, args }
                    },
                    ScriptEvent::Legacy(None) => {
                        let e = nft_failure_error(self.stderr.as_str(), self.lines[pos].line.as_str());
                        self.finish_with(Err(e))
                    },
                    _ => ScriptAction::FindLegacy { program: self.program_of(pos) },
                }
            },
            ScriptPhase::Retrying { pos } => {
                proof {
                    assert(self.script()[pos as int] == self.lines@[pos as int]@);
                    assert(script_phase_wf(self.state().phase, self.script().len()));
                    assert(pos < self.lines@.len());
                }
                match event {
                    ScriptEvent::Exited { success, .. } => {
                        if success {
                            let n = self.lines.len();
                            assert(pos < n);
                            self.start(pos + 1)
                        } else {
                            let e = nft_failure_error(self.stderr.as_str(), self.lines[pos].line.as_str());
                            self.finish_with(Err(e))
                        }
                    },
                    ScriptEvent::TimedOut => {
                        let e = legacy_timeout_error(self.lines[pos].line.as_str());
                        self.finish_with(Err(e))
                    },
                    ScriptEvent::SpawnFailed(m) => self.finish_with(Err(KillSwitchError::Spawn(m))),
                    _ => ScriptAction::Run { program: self.program.clone(), args: self.args_of(pos) },
                }
            },
            ScriptPhase::Finished => ScriptAction::Nothing,
        }
    }
}

/// A line whose failure is not tolerated stops the script: once it exits
/// with an error that no legacy retry handles, the run finishes with that
/// error, and a finished run runs nothing more.
pub proof fn lemma_script_stops_at_failure(
    ls: Seq<ScriptLineView>,
    use_legacy: bool,
    st: ScriptState,
    success: bool,
    exit_code: Option<i32>,
    stderr: Seq<char>,
    e2: ScriptEventView,
)
    requires
        st.phase matches ScriptPhase::Running { pos } && script_step_spec(
            success,
            ls[pos as int].ignore_error,
            exit_code,
            stderr,
            spec_lowercase(stderr),
            ls[pos as int].line,
            ls[pos as int].parts[0],
        ) is Fail,
    ensures
        ({
            let (st2, a) = script_run_step(
                ls,
                use_legacy,
                st,
                ScriptEventView::Exited { success, exit_code, stderr },
            );
            &&& st2.phase == ScriptPhase::Finished
            &&& a matches ScriptActionView::Finish(Err(_))
            &&& script_run_step(ls, use_legacy, st2, e2) == (st2, ScriptActionView::Nothing)
        }),
{
}

/// A line marked `|| true` never stops the script by its exit status: its
/// run goes on to the next line.
pub proof fn lemma_script_tolerated_line_continues(
    ls: Seq<ScriptLineView>,
    use_legacy: bool,
    st: ScriptState,
    success: bool,
    exit_code: Option<i32>,
    stderr: Seq<char>,
)
    requires
        st.phase matches ScriptPhase::Running { pos } && ls[pos as int].ignore_error,
    ensures
        ({
            let pos = st.phase->Running_pos;
            script_run_step(ls, use_legacy, st, ScriptEventView::Exited { success, exit_code, stderr })
                == start_line(ls, use_legacy, pos + 1, st.stderr)
        }),
{
}

} // verus!

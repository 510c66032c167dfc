//! The execution rules of the sudo-based iptables backend.
//!
//! A rule script is run line by line as `sudo -n <program> <args...>`
//! (never through a shell). This module decides what each script line
//! runs, whether its failure is tolerated, when to retry with
//! `iptables-legacy` after an `iptables-nft` failure, and which error a
//! failure is; the program runs the commands.
use vstd::prelude::*;

use super::error::{KillSwitchError, KillSwitchErrorView};
use super::{command, ipt, FirewallCommand, FirewallCommandView, FirewallProgram, CHAIN_NAME};
use crate::text::{
    contains, contains_str, ends_with, has_prefix, has_suffix, lines, lines_of, push_decimal,
    push_signed_decimal, remove_all, remove_all_str, signed_decimal, split_ws,
    split_whitespace_str, spec_lowercase, starts_with, str_eq, strip_suffix_str, to_lowercase,
    trim, trim_str, views,
};

verus! {

/// Timeout of one sudo/iptables command, in seconds: long enough for
/// normal operations, short enough to detect hangs.
pub const SUDO_CMD_TIMEOUT_SECS: u64 = 30;

/// One command of a rule script.
#[derive(Debug, PartialEq)]
pub struct ScriptLine {
    /// The line as it is run (without `|| true` and `2>/dev/null`).
    pub line: String,
    /// The program and its arguments.
    pub parts: Vec<String>,
    /// Whether a failure of the command is tolerated (`|| true`).
    pub ignore_error: bool,
}

/// `ScriptLine` with its strings taken as character sequences.
pub struct ScriptLineView {
    pub line: Seq<char>,
    pub parts: Seq<Seq<char>>,
    pub ignore_error: bool,
}

impl View for ScriptLine {
    type V = ScriptLineView;

    open spec fn view(&self) -> ScriptLineView {
        ScriptLineView { line: self.line@, parts: views(self.parts@), ignore_error: self.ignore_error }
    }
}

/// The command that a raw script line runs, if any: blank lines, comments
/// and `exit 0` run nothing; a trailing `|| true` makes a failure
/// tolerated; `2>/dev/null` is dropped.
pub open spec fn script_line_spec(raw: Seq<char>) -> Option<ScriptLineView> {
    let line = trim(raw);
    if line.len() == 0 || has_prefix(line, "#"@) {
        None
    } else {
        let ignore = contains(line, "|| true"@);
        let l2 = if has_suffix(line, "|| true"@) {
            trim(line.subrange(0, line.len() - 7))
        } else {
            line
        };
        let l3 = trim(remove_all(l2, "2>/dev/null"@));
        if l3.len() == 0 || l3 == "exit 0"@ || split_ws(l3).len() == 0 {
            None
        } else {
            Some(ScriptLineView { line: l3, parts: split_ws(l3), ignore_error: ignore })
        }
    }
}

/// The command of one raw script line, if it runs one.
pub fn parse_script_line(raw: &str) -> (r: Option<ScriptLine>)
    ensures
        match r {
            Some(x) => script_line_spec(raw@) == Some(x@),
            None => script_line_spec(raw@) is None,
        },
{
    let line = trim_str(raw);
    if line.as_str().unicode_len() == 0 || starts_with(line.as_str(), "#") {
        return None;
    }
    let ignore_error = contains_str(line.as_str(), "|| true");
    let l2 = match strip_suffix_str(line.as_str(), "|| true") {
        Some(stripped) => {
            proof {
                reveal_strlit("|| true");
            }
            trim_str(stripped.as_str())
        },
        None => line,
    };
    proof {
        reveal_strlit("2>/dev/null");
    }
    let l3 = trim_str(remove_all_str(l2.as_str(), "2>/dev/null").as_str());
    if l3.as_str().unicode_len() == 0 || str_eq(l3.as_str(), "exit 0") {
        return None;
    }
    let parts = split_whitespace_str(l3.as_str());
    if parts.len() == 0 {
        return None;
    }
    Some(ScriptLine { line: l3, parts, ignore_error })
}

/// Every command of a script, in order.
pub open spec fn script_spec(ls: Seq<Seq<char>>) -> Seq<ScriptLineView>
    decreases ls.len(),
{
    if ls.len() == 0 {
        seq![]
    } else {
        script_spec(ls.subrange(0, ls.len() - 1)) + match script_line_spec(ls[ls.len() - 1]) {
            Some(x) => seq![x],
            None => seq![],
        }
    }
}

/// The views of a sequence of script lines.
pub open spec fn script_view(v: Seq<ScriptLine>) -> Seq<ScriptLineView> {
    v.map_values(|l: ScriptLine| l@)
}

/// Every command of a rule script, in order.
pub fn parse_script(script: &str) -> (r: Vec<ScriptLine>)
    ensures
        script_view(r@) == script_spec(lines(script@)),
{
    let ls = lines_of(script);
    let ghost v = views(ls@);
    let mut out: Vec<ScriptLine> = Vec::new();
    let n = ls.len();
    proof {
        assert(v.take(0) =~= Seq::<Seq<char>>::empty());
        assert(script_view(out@) =~= script_spec(v.take(0)));
    }
    for i in 0..n
        invariant
            n == ls@.len(),
            v == views(ls@),
            script_view(out@) == script_spec(v.take(i as int)),
    {
        let r = parse_script_line(ls[i].as_str());
        proof {
            assert(v[i as int] == ls@[i as int]@);
            let t = v.take(i + 1);
            assert(t.subrange(0, t.len() - 1) =~= v.take(i as int));
            assert(t[t.len() - 1] == v[i as int]);
        }
        let ghost before = out@;
        match r {
            Some(x) => {
                let ghost xv = x@;
                out.push(x);
                proof {
                    assert(script_view(out@) =~= script_view(before).push(xv));
                }
            },
            None => {},
        }
        proof {
            assert(script_view(out@) =~= script_spec(v.take(i + 1)));
        }
    }
    proof {
        assert(v.take(n as int) =~= v);
    }
    out
}

/// Whether a program name is iptables or ip6tables (by path suffix).
pub open spec fn is_iptables_program(p: Seq<char>) -> bool {
    has_suffix(p, "iptables"@) || has_suffix(p, "ip6tables"@)
}

/// Whether an error output shows the `iptables-nft` backend failing.
pub open spec fn nft_failure(stderr_lower: Seq<char>) -> bool {
    contains(stderr_lower, "cache initialization failed"@) || contains(stderr_lower, "netlink: error"@)
        || contains(stderr_lower, "can't initialize iptables table"@) || contains(
        stderr_lower,
        "ip_tables"@,
    )
}

/// The detail of a failure: the error output, or the line when it said nothing.
pub open spec fn failure_detail(stderr: Seq<char>, line: Seq<char>) -> Seq<char> {
    if trim(stderr).len() == 0 {
        line
    } else {
        trim(stderr)
    }
}

/// What to do after running a script command.
#[derive(Debug, PartialEq)]
pub enum ScriptStep {
    /// Go on with the next command.
    Continue,
    /// Retry the command with the legacy iptables variant.
    TryLegacy,
    /// Stop with this error.
    Fail(KillSwitchError),
}

/// `ScriptStep` with its strings taken as character sequences.
pub enum ScriptStepView {
    Continue,
    TryLegacy,
    Fail(KillSwitchErrorView),
}

impl View for ScriptStep {
    type V = ScriptStepView;

    open spec fn view(&self) -> ScriptStepView {
        match self {
            ScriptStep::Continue => ScriptStepView::Continue,
            ScriptStep::TryLegacy => ScriptStepView::TryLegacy,
            ScriptStep::Fail(e) => ScriptStepView::Fail(e@),
        }
    }
}

/// What follows a run of `program` (the script line `line`) that exited
/// with `success`, `exit_code` (`None`: killed by a signal) and `stderr`,
/// whose lower-cased form is `stderr_lower`.
pub open spec fn script_step_spec(
    success: bool,
    ignore_error: bool,
    exit_code: Option<i32>,
    stderr: Seq<char>,
    stderr_lower: Seq<char>,
    line: Seq<char>,
    program: Seq<char>,
) -> ScriptStepView {
    let code: int = match exit_code {
        Some(c) => c as int,
        None => -1,
    };
    if success || ignore_error {
        ScriptStepView::Continue
    } else if code == 126 || code == 127 {
        ScriptStepView::Fail(KillSwitchErrorView::Permission)
    } else if nft_failure(stderr_lower) && is_iptables_program(program) {
        ScriptStepView::TryLegacy
    } else {
        ScriptStepView::Fail(
            KillSwitchErrorView::Command(
                "Command failed (exit "@ + signed_decimal(code) + "): "@ + failure_detail(stderr, line),
            ),
        )
    }
}

fn is_iptables_program_exec(p: &str) -> (r: bool)
    ensures
        r == is_iptables_program(p@),
{
    ends_with(p, "iptables") || ends_with(p, "ip6tables")
}

fn failure_detail_exec(stderr: &str, line: &str) -> (r: String)
    ensures
        r@ == failure_detail(stderr@, line@),
{
    let t = trim_str(stderr);
    if t.as_str().unicode_len() == 0 {
        String::from_str(line)
    } else {
        t
    }
}

/// What follows a run of a script command, given the error output both as
/// it is and lower-cased.
pub fn script_step_lowered(
    success: bool,
    ignore_error: bool,
    exit_code: Option<i32>,
    stderr: &str,
    stderr_lower: &str,
    line: &str,
    program: &str,
) -> (r: ScriptStep)
    ensures
        r@ == script_step_spec(
            success,
            ignore_error,
            exit_code,
            stderr@,
            stderr_lower@,
            line@,
            program@,
        ),
{
    let code: i32 = match exit_code {
        Some(c) => c,
        None => -1,
    };
    if success || ignore_error {
        return ScriptStep::Continue;
    }
    if code == 126 || code == 127 {
        return ScriptStep::Fail(KillSwitchError::Permission);
    }
    let l = stderr_lower;
    let nft = contains_str(l, "cache initialization failed") || contains_str(l, "netlink: error")
        || contains_str(l, "can't initialize iptables table") || contains_str(l, "ip_tables");
    if nft && is_iptables_program_exec(program) {
        return ScriptStep::TryLegacy;
    }
    let mut m = String::from_str("Command failed (exit ");
    push_signed_decimal(&mut m, code as i64);
    m.append("): ");
    m.append(failure_detail_exec(stderr, line).as_str());
    ScriptStep::Fail(KillSwitchError::Command(m))
}

/// What follows a run of a script command.
pub fn script_step(
    success: bool,
    ignore_error: bool,
    exit_code: Option<i32>,
    stderr: &str,
    line: &str,
    program: &str,
) -> (r: ScriptStep)
    ensures
        r@ == script_step_spec(
            success,
            ignore_error,
            exit_code,
            stderr@,
            spec_lowercase(stderr@),
            line@,
            program@,
        ),
{
    let lower = to_lowercase(stderr);
    script_step_lowered(success, ignore_error, exit_code, stderr, lower.as_str(), line, program)
}

/// The error when `iptables-nft` failed and no legacy variant helped.
pub open spec fn nft_failure_error_spec(stderr: Seq<char>, line: Seq<char>) -> KillSwitchErrorView {
    KillSwitchErrorView::Command(
        failure_detail(stderr, line) + " (iptables-nft failed; install iptables-legacy or nftables)"@,
    )
}

/// The error when `iptables-nft` failed and no legacy variant helped.
pub fn nft_failure_error(stderr: &str, line: &str) -> (r: KillSwitchError)
    ensures
        r@ == nft_failure_error_spec(stderr@, line@),
{
    let mut m = failure_detail_exec(stderr, line);
    m.append(" (iptables-nft failed; install iptables-legacy or nftables)");
    KillSwitchError::Command(m)
}

/// The error when a command did not finish within the timeout.
pub fn timeout_error(line: &str) -> (r: KillSwitchError)
    ensures
        r@ == KillSwitchErrorView::Command(
            "Command timed out after "@ + crate::text::decimal(SUDO_CMD_TIMEOUT_SECS as nat)
                + "s (possible sudo prompt or frozen kernel module): "@ + line@,
        ),
{
    let mut m = String::from_str("Command timed out after ");
    push_decimal(&mut m, SUDO_CMD_TIMEOUT_SECS as u128);
    m.append("s (possible sudo prompt or frozen kernel module): ");
    m.append(line);
    KillSwitchError::Command(m)
}

/// The error when the legacy retry did not finish within the timeout.
pub fn legacy_timeout_error(line: &str) -> (r: KillSwitchError)
    ensures
        r@ == KillSwitchErrorView::Command(
            "Legacy command timed out after "@ + crate::text::decimal(SUDO_CMD_TIMEOUT_SECS as nat)
                + "s: "@ + line@,
        ),
{
    let mut m = String::from_str("Legacy command timed out after ");
    push_decimal(&mut m, SUDO_CMD_TIMEOUT_SECS as u128);
    m.append("s: ");
    m.append(line);
    KillSwitchError::Command(m)
}

/// Whether a script command runs the legacy variant from the start
/// (the backend was switched to iptables-legacy).
pub fn prefers_legacy(use_legacy: bool, program: &str) -> (r: bool)
    ensures
        r == (use_legacy && is_iptables_program(program@)),
{
    use_legacy && is_iptables_program_exec(program)
}

/// The legacy variant of a firewall program: its name, and its usual path.
pub open spec fn legacy_candidates_spec(cmd: Seq<char>) -> Option<(Seq<char>, Seq<char>)> {
    if has_suffix(cmd, "iptables"@) {
        Some(("iptables-legacy"@, "/usr/sbin/iptables-legacy"@))
    } else if has_suffix(cmd, "ip6tables"@) {
        Some(("ip6tables-legacy"@, "/usr/sbin/ip6tables-legacy"@))
    } else {
        None
    }
}

/// The legacy variant of a firewall program: its name and its usual path,
/// to be tried in that order.
pub fn legacy_candidates(cmd: &str) -> (r: Option<(&'static str, &'static str)>)
    ensures
        match r {
            Some((a, b)) => legacy_candidates_spec(cmd@) == Some((a@, b@)),
            None => legacy_candidates_spec(cmd@) is None,
        },
{
    if ends_with(cmd, "iptables") {
        Some(("iptables-legacy", "/usr/sbin/iptables-legacy"))
    } else if ends_with(cmd, "ip6tables") {
        Some(("ip6tables-legacy", "/usr/sbin/ip6tables-legacy"))
    } else {
        None
    }
}

/// The verdict of `sudo -n iptables -L -n`, from its success and its error
/// output, as it is and lower-cased.
pub open spec fn sudo_check_spec(success: bool, stderr: Seq<char>, stderr_lower: Seq<char>) -> Result<
    (),
    KillSwitchErrorView,
> {
    let sl = stderr_lower;
    if contains(sl, "ip_tables"@) || contains(sl, "table does not exist"@) || contains(
        sl,
        "can't initialize iptables table"@,
    ) || contains(sl, "cache initialization failed"@) || contains(sl, "netlink: error"@) {
        Err(KillSwitchErrorView::Command("Sudo check failed: "@ + trim(stderr)))
    } else if success {
        Ok(())
    } else if contains(sl, "permission denied"@) || contains(sl, "password"@) {
        Err(KillSwitchErrorView::Permission)
    } else {
        Err(KillSwitchErrorView::Command("Sudo check failed: "@ + trim(stderr)))
    }
}

/// The verdict of a run of `sudo -n iptables -L -n`, given its error
/// output both as it is and lower-cased.
pub fn sudo_check_lowered(success: bool, stderr: &str, stderr_lower: &str) -> (r: Result<
    (),
    KillSwitchError,
>)
    ensures
        match sudo_check_spec(success, stderr@, stderr_lower@) {
            Ok(()) => r is Ok,
            Err(e) => r matches Err(x) && x@ == e,
        },
{
    let l = stderr_lower;
    if contains_str(l, "ip_tables") || contains_str(l, "table does not exist") || contains_str(
        l,
        "can't initialize iptables table",
    ) || contains_str(l, "cache initialization failed") || contains_str(l, "netlink: error") {
        let mut m = String::from_str("Sudo check failed: ");
        m.append(trim_str(stderr).as_str());
        return Err(KillSwitchError::Command(m));
    }
    if success {
        return Ok(());
    }
    if contains_str(l, "permission denied") || contains_str(l, "password") {
        return Err(KillSwitchError::Permission);
    }
    let mut m = String::from_str("Sudo check failed: ");
    m.append(trim_str(stderr).as_str());
    Err(KillSwitchError::Command(m))
}

/// Whether sudo is configured for passwordless iptables, judged from a run
/// of `sudo -n iptables -L -n`.
pub fn sudo_check_outcome(success: bool, stderr: &str) -> (r: Result<(), KillSwitchError>)
    ensures
        match sudo_check_spec(success, stderr@, spec_lowercase(stderr@)) {
            Ok(()) => r is Ok,
            Err(e) => r matches Err(x) && x@ == e,
        },
{
    let lower = to_lowercase(stderr);
    sudo_check_lowered(success, stderr, lower.as_str())
}

/// The probe whose success shows that the jump rule is in place.
pub fn verify_rules_command() -> (r: FirewallCommand)
    ensures
        r@ == ipt(seq!["-C"@, "OUTPUT"@, "-j"@, CHAIN_NAME@]),
{
    let c = command(FirewallProgram::Iptables, &["-C", "OUTPUT", "-j", CHAIN_NAME]);
    proof {
        assert(c@.args =~= seq!["-C"@, "OUTPUT"@, "-j"@, CHAIN_NAME@]);
    }
    c
}

} // verus!

//! The `runtime-policy-check` command: argument check, user config check and
//! the report of the hook policy decision, as a step function that the
//! caller drives (it does the reading, the hook evaluation and the printing).

use vstd::prelude::*;
use crate::runtime_config::{RuntimeConfigError, CONFIG_PARSE_ERROR, POLICY_ERROR};
use crate::text::{contains_seq, contains_text, occurs_at, string_of};

verus! {

/// Exit code of a hook that may run.
pub const ALLOW: i32 = 0;

/// Exit code of a hook that is skipped.
pub const SKIP: i32 = 10;

/// The exit code for a policy error reason: a parse error of the project
/// config (invalid JSON or invalid UTF-8) keeps the parse-error code, any
/// other reason is a policy error.
pub open spec fn policy_error_code(reason: Seq<char>) -> i32 {
    if contains_seq(reason, "project config invalid JSON"@)
        || contains_seq(reason, "project config invalid UTF-8"@) {
        CONFIG_PARSE_ERROR
    } else {
        POLICY_ERROR
    }
}

/// The exit code for a policy error with the given reason.
pub fn policy_error_exit_code(reason: &str) -> (code: i32)
    ensures
        code == policy_error_code(reason@),
{
    if contains_text(reason, "project config invalid JSON") || contains_text(
        reason,
        "project config invalid UTF-8",
    ) {
        CONFIG_PARSE_ERROR
    } else {
        POLICY_ERROR
    }
}

/// What the hook policy decided for a hook.
pub enum HookPolicyDecision {
    /// The hook runs, with an optional note to print.
    Run { reason: Option<String> },
    /// The hook is skipped, for the given reason.
    Skip(String),
    /// The policy could not be applied, for the given reason.
    Error(String),
}

/// How the command ends: what it prints on each stream and its exit code.
pub struct PolicyExit {
    pub stdout: Option<String>,
    pub stderr: Option<String>,
    pub exit_code: i32,
}

/// Where the command stands.
pub enum PolicyCheckStage {
    /// Nothing done yet.
    Start,
    /// The arguments named this hook; the user config is to be checked.
    ConfigPending(String),
    /// The user config passed; the hook's decision is awaited.
    HookPending,
    /// The command has ended.
    Finished,
}

/// What the caller reports back.
pub enum PolicyCheckEvent {
    /// The command was invoked with these arguments.
    Invoked(Vec<String>),
    /// The user runtime config was checked, with this result.
    ConfigChecked(Result<(), RuntimeConfigError>),
    /// The hook policy was evaluated, with this decision.
    HookDecided(HookPolicyDecision),
}

/// What the caller is to do next.
pub enum PolicyCheckAction {
    /// Fail with this usage message.
    Usage(String),
    /// Check the user runtime config (`VIBEGUARD_USER_CONFIG_FILE`).
    CheckUserConfig,
    /// Evaluate the hook policy for this hook.
    EvaluateHook(String),
    /// End the command.
    Exit(PolicyExit),
}

pub open spec fn usage_text() -> Seq<char> {
    "Usage: vibeguard-runtime runtime-policy-check <hook-name>"@
}

/// The events that the command accepts at each stage.
pub open spec fn accepts(stage: PolicyCheckStage, event: PolicyCheckEvent) -> bool {
    match (stage, event) {
        (PolicyCheckStage::Start, PolicyCheckEvent::Invoked(_)) => true,
        (PolicyCheckStage::ConfigPending(_), PolicyCheckEvent::ConfigChecked(_)) => true,
        (PolicyCheckStage::HookPending, PolicyCheckEvent::HookDecided(_)) => true,
        _ => false,
    }
}

/// How a hook decision ends the command.
pub open spec fn decision_exit(decision: HookPolicyDecision, exit: PolicyExit) -> bool {
    match decision {
        HookPolicyDecision::Run { reason } => exit.stdout == reason && exit.stderr is None
            && exit.exit_code == ALLOW,
        HookPolicyDecision::Skip(reason) => exit.stdout == Some(reason) && exit.stderr is None
            && exit.exit_code == SKIP,
        HookPolicyDecision::Error(reason) => exit.stdout is None && exit.stderr == Some(reason)
            && exit.exit_code == policy_error_code(reason@),
    }
}

/// One step of the command: from `stage`, on `event`, to `next` with `action`.
pub open spec fn policy_step(
    stage: PolicyCheckStage,
    event: PolicyCheckEvent,
    next: PolicyCheckStage,
    action: PolicyCheckAction,
) -> bool {
    match event {
        PolicyCheckEvent::Invoked(args) => if args.len() == 1 {
            next == PolicyCheckStage::ConfigPending(args[0]) && action is CheckUserConfig
        } else {
            next is Finished && (action matches PolicyCheckAction::Usage(u) && u@ == usage_text())
        },
        PolicyCheckEvent::ConfigChecked(result) => match result {
            Err(e) => next is Finished && action == PolicyCheckAction::Exit(
                PolicyExit { stdout: None, stderr: Some(e.message), exit_code: e.exit_code },
            ),
            Ok(_) => stage matches PolicyCheckStage::ConfigPending(hook) && next is HookPending
                && action == PolicyCheckAction::EvaluateHook(hook),
        },
        PolicyCheckEvent::HookDecided(decision) => next is Finished
            && (action matches PolicyCheckAction::Exit(exit) && decision_exit(decision, exit)),
    }
}

impl PolicyCheckStage {
    /// Whether this stage accepts `event`.
    pub fn accepts_event(&self, event: &PolicyCheckEvent) -> (b: bool)
        ensures
            b == accepts(*self, *event),
    {
        match (self, event) {
            (PolicyCheckStage::Start, PolicyCheckEvent::Invoked(_)) => true,
            (PolicyCheckStage::ConfigPending(_), PolicyCheckEvent::ConfigChecked(_)) => true,
            (PolicyCheckStage::HookPending, PolicyCheckEvent::HookDecided(_)) => true,
            _ => false,
        }
    }
}

/// How a hook decision ends the command.
pub fn hook_decision_exit(decision: HookPolicyDecision) -> (exit: PolicyExit)
    ensures
        decision_exit(decision, exit),
{
    match decision {
        HookPolicyDecision::Run { reason } => PolicyExit { stdout: reason, stderr: None, exit_code: ALLOW },
        HookPolicyDecision::Skip(reason) => PolicyExit { stdout: Some(reason), stderr: None, exit_code: SKIP },
        HookPolicyDecision::Error(reason) => {
            let code = policy_error_exit_code(reason.as_str());
            PolicyExit { stdout: None, stderr: Some(reason), exit_code: code }
        },
    }
}

/// One step of `runtime-policy-check`: the arguments must name exactly one
/// hook; the user runtime config is checked before the hook policy, and a
/// config error ends the command with its message and exit code; the hook
/// decision then ends it (run: 0, skip: 10, error: 20 or 30).
pub fn runtime_policy_check(stage: PolicyCheckStage, event: PolicyCheckEvent) -> (r: (PolicyCheckStage, PolicyCheckAction))
    requires
        accepts(stage, event),
    ensures
        policy_step(stage, event, r.0, r.1),
{
    match event {
        PolicyCheckEvent::Invoked(args) => {
            if args.len() == 1 {
                let hook = args[0].clone();
                (PolicyCheckStage::ConfigPending(hook), PolicyCheckAction::CheckUserConfig)
            } else {
                let usage = string_of("Usage: vibeguard-runtime runtime-policy-check <hook-name>");
                (PolicyCheckStage::Finished, PolicyCheckAction::Usage(usage))
            }
        },
        PolicyCheckEvent::ConfigChecked(result) => match result {
            Err(e) => (
                PolicyCheckStage::Finished,
                PolicyCheckAction::Exit(PolicyExit { stdout: None, stderr: Some(e.message), exit_code: e.exit_code }),
            ),
            Ok(()) => match stage {
                PolicyCheckStage::ConfigPending(hook) => (PolicyCheckStage::HookPending, PolicyCheckAction::EvaluateHook(hook)),
                _ => {
                    assert(false);
                    (PolicyCheckStage::Finished, PolicyCheckAction::CheckUserConfig)
                },
            },
        },
        PolicyCheckEvent::HookDecided(decision) => {
            let exit = hook_decision_exit(decision);
            (PolicyCheckStage::Finished, PolicyCheckAction::Exit(exit))
        },
    }
}

/// The hook policy is consulted only once the user runtime config has passed
/// its check, for the hook that the arguments named.
pub proof fn config_is_checked_before_the_hook(
    stage: PolicyCheckStage,
    event: PolicyCheckEvent,
    next: PolicyCheckStage,
    action: PolicyCheckAction,
)
    requires
        accepts(stage, event),
        policy_step(stage, event, next, action),
        action is EvaluateHook,
    ensures
        event matches PolicyCheckEvent::ConfigChecked(result) && result is Ok,
        stage matches PolicyCheckStage::ConfigPending(hook) && action == PolicyCheckAction::EvaluateHook(hook),
{
}

/// A failed user config check ends the command with the config error's
/// message on stderr and its exit code, before any hook decision.
pub proof fn config_errors_end_the_command(
    stage: PolicyCheckStage,
    e: RuntimeConfigError,
    next: PolicyCheckStage,
    action: PolicyCheckAction,
)
    requires
        policy_step(stage, PolicyCheckEvent::ConfigChecked(Err(e)), next, action),
    ensures
        next is Finished,
        action matches PolicyCheckAction::Exit(exit) && exit.stdout is None
            && exit.stderr == Some(e.message) && exit.exit_code == e.exit_code,
{
}

/// A hook decision always ends the command, with exit code 0 (run), 10
/// (skip), or 20 or 30 (error).
pub proof fn hook_decisions_end_with_known_codes(
    stage: PolicyCheckStage,
    decision: HookPolicyDecision,
    next: PolicyCheckStage,
    action: PolicyCheckAction,
)
    requires
        policy_step(stage, PolicyCheckEvent::HookDecided(decision), next, action),
    ensures
        next is Finished,
        action matches PolicyCheckAction::Exit(exit) && (exit.exit_code == ALLOW
            || exit.exit_code == SKIP || exit.exit_code == POLICY_ERROR
            || exit.exit_code == CONFIG_PARSE_ERROR),
        decision is Error ==> (action matches PolicyCheckAction::Exit(exit)
            && (exit.exit_code == POLICY_ERROR || exit.exit_code == CONFIG_PARSE_ERROR)),
{
}

/// Each hook decision ends the command in its own way: a hook that runs
/// exits 0 and prints its note (if any) on stdout; a skipped hook exits 10
/// and prints its reason on stdout; a policy error prints its reason on
/// stderr and exits 30 when the reason reports an invalid project config
/// (bad JSON or bad UTF-8), else 20.
pub proof fn hook_decision_exit_codes(
    stage: PolicyCheckStage,
    decision: HookPolicyDecision,
    next: PolicyCheckStage,
    action: PolicyCheckAction,
)
    requires
        policy_step(stage, PolicyCheckEvent::HookDecided(decision), next, action),
    ensures
        next is Finished,
        action is Exit,
        decision matches HookPolicyDecision::Run { reason } ==> (action->Exit_0.exit_code == 0
            && action->Exit_0.stdout == reason && action->Exit_0.stderr is None),
        decision matches HookPolicyDecision::Skip(reason) ==> (action->Exit_0.exit_code == 10
            && action->Exit_0.stdout == Some(reason) && action->Exit_0.stderr is None),
        decision matches HookPolicyDecision::Error(reason) ==> (action->Exit_0.stdout is None
            && action->Exit_0.stderr == Some(reason) && (action->Exit_0.exit_code == 30 <==> (
        contains_seq(reason@, "project config invalid JSON"@) || contains_seq(
            reason@,
            "project config invalid UTF-8"@,
        ))) && (action->Exit_0.exit_code == 20 || action->Exit_0.exit_code == 30)),
{
}

/// A reason that mentions an invalid project config (bad JSON or bad UTF-8)
/// anywhere keeps the parse-error code 30; a reason that mentions neither
/// gets 20.
pub proof fn parse_error_reasons_keep_code_thirty(before: Seq<char>, after: Seq<char>)
    ensures
        policy_error_code(before + "project config invalid JSON"@ + after) == 30,
        policy_error_code(before + "project config invalid UTF-8"@ + after) == 30,
        !contains_seq(before, "project config invalid JSON"@) && !contains_seq(
            before,
            "project config invalid UTF-8"@,
        ) ==> policy_error_code(before) == 20,
{
    let json = "project config invalid JSON"@;
    let utf8 = "project config invalid UTF-8"@;
    let a = before + json + after;
    let b = before + utf8 + after;
    assert(a.subrange(before.len() as int, (before.len() + json.len()) as int) =~= json);
    assert(occurs_at(a, json, before.len() as int));
    assert(b.subrange(before.len() as int, (before.len() + utf8.len()) as int) =~= utf8);
    assert(occurs_at(b, utf8, before.len() as int));
}

} // verus!

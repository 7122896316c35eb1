//! Reading the output of a diagnostic command: what state a tool is in, which
//! version it reports, and what the student and the instructor are told.
use vstd::prelude::*;

use crate::catalog::{
    allowed_commands, find_allowed_command, lookup_recipe, models, recipe_catalog, required_on,
    RecipeModel, RecipeStep,
};
use crate::commands::{command_label, command_text};
use crate::text::{
    chars_of, contains, contains_chars, first_line, first_line_of, first_nonblank_line,
    first_nonblank_line_of, starts_with, str_contains, str_starts_with, same_text, to_ascii_lowercase,
    lowercase_ascii, trim, trim_str,
};

verus! {

/// The state of one checked tool.
#[derive(Debug, Clone, Copy, PartialEq, Eq, Structural)]
pub enum CheckStatus {
    Installed,
    Missing,
    NeedsRepair,
    NeedsRestart,
    OptionalSkipped,
    Unsupported,
    Blocked,
}

/// What a command printed and how it ended, with sensitive values already
/// masked.
#[derive(Debug, Clone)]
pub struct CommandEvidence {
    pub exit_code: Option<i32>,
    pub duration_ms: u128,
    pub stdout_redacted: String,
    pub stderr_redacted: String,
}

/// The view of an optional owned string.
pub open spec fn opt_string_view(o: Option<String>) -> Option<Seq<char>> {
    match o {
        Some(s) => Some(s@),
        None => None,
    }
}

/// The first line of a non-empty text, or nothing for an empty one.
pub open spec fn non_empty_spec(value: Seq<char>) -> Option<Seq<char>> {
    if value.len() == 0 {
        None
    } else {
        Some(first_line(value))
    }
}

/// The first line of `value`, or `None` when `value` is empty.
pub fn non_empty(value: &str) -> (r: Option<String>)
    ensures
        opt_string_view(r) == non_empty_spec(value@),
{
    let v = chars_of(value);
    if v.len() == 0 {
        None
    } else {
        Some(first_line_of(value))
    }
}

/// The first line of `value` that is not blank, trimmed.
pub fn first_non_empty_line(value: &str) -> (r: Option<String>)
    ensures
        opt_string_view(r) == first_nonblank_line(value@),
{
    first_nonblank_line_of(value)
}

/// What a diagnostic concluded: the status, the version it found, the message
/// for the student and the next step to take.
pub struct Classification {
    pub status: CheckStatus,
    pub detected_version: Option<Seq<char>>,
    pub beginner_message: Seq<char>,
    pub support_action: Seq<char>,
}

/// How the output of the recipe `step`, run on the host `os`, is read.
pub open spec fn classify(os: Seq<char>, step: RecipeModel, exit_code: Option<i32>, stdout: Seq<char>, stderr: Seq<char>) -> Classification {
    let out = trim(stdout);
    let err = trim(stderr);
    if exit_code == Some(0i32) {
        if step.id == "node.version"@ && !starts_with(out, "v24."@) {
            Classification {
                status: CheckStatus::NeedsRepair,
                detected_version: non_empty_spec(out),
                beginner_message: "Node.js는 있지만 수업 기준인 v24 LTS가 아닙니다."@,
                support_action: "Node.js v24 LTS 설치 전략에 따라 복구하세요."@,
            }
        } else {
            Classification {
                status: CheckStatus::Installed,
                detected_version: non_empty_spec(out),
                beginner_message: step.label_ko + " 준비되었습니다."@,
                support_action: "추가 조치가 필요하지 않습니다."@,
            }
        }
    } else if !required_on(step.required_for_class, os) && step.id == "wsl.status"@ {
        Classification {
            status: CheckStatus::OptionalSkipped,
            detected_version: None,
            beginner_message: "WSL은 현재 선택 항목입니다. 필요한 수업에서만 준비하면 됩니다."@,
            support_action: "Linux/WSL 수업이 있으면 강사 안내에 따라 설치하세요."@,
        }
    } else if contains(err, "No such file"@) || contains(err, "not found"@) || contains(
        err,
        "cannot find"@,
    ) {
        Classification {
            status: CheckStatus::Missing,
            detected_version: None,
            beginner_message: step.label_ko + "이(가) 아직 설치되지 않았습니다."@,
            support_action: "설치 계획 화면의 안내를 따라 준비하세요."@,
        }
    } else {
        Classification {
            status: CheckStatus::NeedsRepair,
            detected_version: non_empty_spec(out),
            beginner_message: step.label_ko + " 확인이 끝나지 않았습니다."@,
            support_action: "권한, 로그인, PATH 또는 네트워크 상태를 확인하세요."@,
        }
    }
}

/// The classification as the tuple that `classify_result` returns.
pub open spec fn classified_as(r: (CheckStatus, Option<String>, String, String), c: Classification) -> bool {
    &&& r.0 == c.status
    &&& opt_string_view(r.1) == c.detected_version
    &&& r.2@ == c.beginner_message
    &&& r.3@ == c.support_action
}

/// Reads the outcome of running the recipe `step` on the host `host_os`:
/// status, detected version, message for the student, and support action.
pub fn classify_result(host_os: &str, step: &RecipeStep, evidence: &CommandEvidence) -> (r: (
    CheckStatus,
    Option<String>,
    String,
    String,
))
    ensures
        classified_as(
            r,
            classify(
                host_os@,
                step@,
                evidence.exit_code,
                evidence.stdout_redacted@,
                evidence.stderr_redacted@,
            ),
        ),
{
    let stdout = trim_str(evidence.stdout_redacted.as_str());
    let stderr = trim_str(evidence.stderr_redacted.as_str());
    if evidence.exit_code == Some(0i32) {
        if same_text(step.id, "node.version") && !str_starts_with(stdout.as_str(), "v24.") {
            return (
                CheckStatus::NeedsRepair,
                non_empty(stdout.as_str()),
                "Node.js는 있지만 수업 기준인 v24 LTS가 아닙니다.".to_owned(),
                "Node.js v24 LTS 설치 전략에 따라 복구하세요.".to_owned(),
            );
        }
        let mut message = step.label_ko.to_owned();
        message.append(" 준비되었습니다.");
        return (
            CheckStatus::Installed,
            non_empty(stdout.as_str()),
            message,
            "추가 조치가 필요하지 않습니다.".to_owned(),
        );
    }
    if !step.required_for_class.is_required_on(host_os) && same_text(step.id, "wsl.status") {
        return (
            CheckStatus::OptionalSkipped,
            None,
            "WSL은 현재 선택 항목입니다. 필요한 수업에서만 준비하면 됩니다.".to_owned(),
            "Linux/WSL 수업이 있으면 강사 안내에 따라 설치하세요.".to_owned(),
        );
    }
    if str_contains(stderr.as_str(), "No such file") || str_contains(stderr.as_str(), "not found")
        || str_contains(stderr.as_str(), "cannot find") {
        let mut message = step.label_ko.to_owned();
        message.append("이(가) 아직 설치되지 않았습니다.");
        return (
            CheckStatus::Missing,
            None,
            message,
            "설치 계획 화면의 안내를 따라 준비하세요.".to_owned(),
        );
    }
    let mut message = step.label_ko.to_owned();
    message.append(" 확인이 끝나지 않았습니다.");
    (
        CheckStatus::NeedsRepair,
        non_empty(stdout.as_str()),
        message,
        "권한, 로그인, PATH 또는 네트워크 상태를 확인하세요.".to_owned(),
    )
}

/// The output of an installer says that the package was there already.
pub open spec fn reports_existing_package(stdout: Seq<char>, stderr: Seq<char>) -> bool {
    let combined = to_ascii_lowercase(stdout) + "\n"@ + to_ascii_lowercase(stderr);
    ||| contains(combined, "existing package already installed"@)
    ||| contains(combined, "no newer package versions are available"@)
    ||| contains(combined, "already installed"@)
}

/// Whether an installer's output says that the package was already
/// installed, so that the installation can go on to verification.
pub fn install_output_indicates_existing_package(evidence: &CommandEvidence) -> (b: bool)
    ensures
        b == reports_existing_package(evidence.stdout_redacted@, evidence.stderr_redacted@),
{
    let mut combined = lowercase_ascii(evidence.stdout_redacted.as_str());
    combined.push('\n');
    let mut err = lowercase_ascii(evidence.stderr_redacted.as_str());
    combined.append(&mut err);
    let p1 = chars_of("existing package already installed");
    let p2 = chars_of("no newer package versions are available");
    let p3 = chars_of("already installed");
    proof {
        reveal_strlit("\n");
        assert(combined@ =~= to_ascii_lowercase(evidence.stdout_redacted@) + "\n"@
            + to_ascii_lowercase(evidence.stderr_redacted@));
    }
    contains_chars(&combined, &p1) || contains_chars(&combined, &p2) || contains_chars(
        &combined,
        &p3,
    )
}

/// One checked tool as the report lists it.
#[derive(Debug, Clone)]
pub struct ToolCheck {
    pub id: String,
    pub label: String,
    pub required_for_class: bool,
    pub status: CheckStatus,
    pub detected_version: Option<String>,
    pub required_version: Option<String>,
    pub verify_command_label: String,
    pub beginner_message: String,
    pub support_action: String,
    pub evidence: CommandEvidence,
    pub links: Vec<String>,
}

/// The result of one diagnostic run at the user's request.
#[derive(Debug, Clone)]
pub struct RunResult {
    pub command_id: String,
    pub command_label: String,
    pub status: CheckStatus,
    pub detected_version: Option<String>,
    pub beginner_message: String,
    pub support_action: String,
    pub evidence: CommandEvidence,
}

/// Runs the diagnostics of the recipe `step` on `host_os` would include it
/// in the automatic sweep: it needs no consent, and it is required on this
/// host, belongs to this host's platform checks, or is the optional WSL check.
pub open spec fn selected_for_diagnosis(os: Seq<char>, r: RecipeModel) -> bool {
    &&& !r.requires_consent
    &&& {
        ||| required_on(r.required_for_class, os)
        ||| os == "macos"@ && starts_with(r.id, "macos"@)
        ||| os == "macos"@ && r.id == "brew.version"@
        ||| os == "windows"@ && starts_with(r.id, "windows"@)
        ||| r.id == "wsl.status"@
    }
}

/// The recipes of `cat` that the sweep on `os` runs, in order.
pub open spec fn diagnosis_plan_of(cat: Seq<RecipeModel>, os: Seq<char>) -> Seq<RecipeModel>
    decreases cat.len(),
{
    if cat.len() == 0 {
        Seq::empty()
    } else if selected_for_diagnosis(os, cat.last()) {
        diagnosis_plan_of(cat.drop_last(), os).push(cat.last())
    } else {
        diagnosis_plan_of(cat.drop_last(), os)
    }
}

fn is_selected_for_diagnosis(os: &str, step: &RecipeStep) -> (b: bool)
    ensures
        b == selected_for_diagnosis(os@, step@),
{
    if step.requires_consent {
        return false;
    }
    let on_macos = same_text(os, "macos");
    let on_windows = same_text(os, "windows");
    step.required_for_class.is_required_on(os) || (on_macos && str_starts_with(step.id, "macos"))
        || (on_macos && same_text(step.id, "brew.version")) || (on_windows && str_starts_with(
        step.id,
        "windows",
    )) || same_text(step.id, "wsl.status")
}

/// The recipes that the automatic sweep runs on the host `host_os`, in the
/// order of the allowlist.
pub fn diagnostic_plan(host_os: &str) -> (plan: Vec<RecipeStep>)
    ensures
        models(plan@) == diagnosis_plan_of(recipe_catalog(), host_os@),
{
    let mut all = allowed_commands();
    let n = all.len();
    let mut plan: Vec<RecipeStep> = Vec::new();
    let mut i: usize = 0;
    while i < n
        invariant
            n == all@.len(),
            i <= n,
            models(all@) == recipe_catalog(),
            models(plan@) == diagnosis_plan_of(recipe_catalog().take(i as int), host_os@),
        decreases n - i,
    {
        let ghost before = plan@;
        let ghost cat_i = recipe_catalog().take(i + 1);
        assert(cat_i.drop_last() =~= recipe_catalog().take(i as int));
        assert(cat_i.last() == all@[i as int]@);
        if is_selected_for_diagnosis(host_os, &all[i]) {
            let step = all[i].clone_step();
            plan.push(step);
            assert(models(plan@) =~= models(before).push(all@[i as int]@));
        }
        i += 1;
    }
    assert(recipe_catalog().take(n as int) =~= recipe_catalog());
    plan
}

/// Every recipe the sweep runs is allowlisted and needs no consent.
pub proof fn lemma_diagnosis_plan_is_safe(cat: Seq<RecipeModel>, os: Seq<char>)
    ensures
        forall|k: int|
            0 <= k < diagnosis_plan_of(cat, os).len() ==> !(#[trigger] diagnosis_plan_of(cat, os)[k]).requires_consent
                && cat.contains(diagnosis_plan_of(cat, os)[k]),
    decreases cat.len(),
{
    if cat.len() > 0 {
        lemma_diagnosis_plan_is_safe(cat.drop_last(), os);
        let p = diagnosis_plan_of(cat, os);
        let q = diagnosis_plan_of(cat.drop_last(), os);
        assert forall|k: int| 0 <= k < p.len() implies !(#[trigger] p[k]).requires_consent && cat.contains(p[k]) by {
            if k < q.len() {
                assert(p[k] == q[k]);
                let j = choose|j: int| 0 <= j < cat.drop_last().len() && cat.drop_last()[j] == q[k];
                assert(cat[j] == q[k]);
            } else {
                assert(p[k] == cat.last());
                assert(cat[cat.len() - 1] == p[k]);
            }
        }
    }
}

/// The report line for the recipe `step`, run on `host_os` with the given
/// outcome.
pub open spec fn reports_check(c: ToolCheck, os: Seq<char>, step: RecipeModel, evidence: CommandEvidence) -> bool {
    let k = classify(os, step, evidence.exit_code, evidence.stdout_redacted@, evidence.stderr_redacted@);
    &&& c.id@ == step.id
    &&& c.label@ == step.label_ko
    &&& c.required_for_class == required_on(step.required_for_class, os)
    &&& c.status == k.status
    &&& opt_string_view(c.detected_version) == k.detected_version
    &&& opt_string_view(c.required_version) == step.required_version_hint
    &&& c.verify_command_label@ == command_text(step.program, step.args)
    &&& c.beginner_message@ == k.beginner_message
    &&& c.support_action@ == k.support_action
    &&& c.evidence == evidence
    &&& c.links@.map_values(|l: String| l@) == seq![step.docs_url]
}

/// The report line for the recipe `step`, run on `host_os` with the outcome
/// `evidence`.
pub fn tool_check_for(host_os: &str, step: &RecipeStep, evidence: CommandEvidence) -> (c: ToolCheck)
    ensures
        reports_check(c, host_os@, step@, evidence),
{
    let (status, detected_version, beginner_message, support_action) = classify_result(
        host_os,
        step,
        &evidence,
    );
    let required_version = match step.required_version_hint {
        Some(h) => Some(h.to_owned()),
        None => None,
    };
    let links = vec![step.docs_url.to_owned()];
    let c = ToolCheck {
        id: step.id.to_owned(),
        label: step.label_ko.to_owned(),
        required_for_class: step.required_for_class.is_required_on(host_os),
        status,
        detected_version,
        required_version,
        verify_command_label: command_label(step),
        beginner_message,
        support_action,
        evidence,
        links,
    };
    assert(c.links@.map_values(|l: String| l@) =~= seq![step@.docs_url]);
    c
}

/// The recipe that a diagnostic request names, if it may run without
/// consent.
pub open spec fn diagnostic_request(command_id: Seq<char>) -> Result<RecipeModel, Seq<char>> {
    match lookup_recipe(command_id) {
        None => Err("허용되지 않은 명령 ID입니다: "@ + command_id),
        Some(r) => if r.requires_consent {
            Err(
                "이 명령은 브라우저 로그인 또는 사용자 동의가 필요합니다. UI 안내 버튼에서 별도 동의를 받은 뒤 실행해야 합니다."@,
            )
        } else {
            Ok(r)
        },
    }
}

/// The recipe to run for a diagnostic request: unknown ids and recipes that
/// need consent are refused.
pub fn diagnostic_step_for(command_id: &str) -> (r: Result<RecipeStep, String>)
    ensures
        match r {
            Ok(s) => diagnostic_request(command_id@) == Ok::<RecipeModel, Seq<char>>(s@),
            Err(e) => diagnostic_request(command_id@) == Err::<RecipeModel, Seq<char>>(e@),
        },
{
    match find_allowed_command(command_id) {
        None => {
            let mut e = "허용되지 않은 명령 ID입니다: ".to_owned();
            e.append(command_id);
            Err(e)
        },
        Some(step) => if step.requires_consent {
            Err(
                "이 명령은 브라우저 로그인 또는 사용자 동의가 필요합니다. UI 안내 버튼에서 별도 동의를 받은 뒤 실행해야 합니다.".to_owned(),
            )
        } else {
            Ok(step)
        },
    }
}

/// The result of a diagnostic request for `step`, run on `host_os` with the
/// outcome `evidence`.
pub fn run_result_for(host_os: &str, step: &RecipeStep, evidence: CommandEvidence) -> (r: RunResult)
    ensures
        ({
            let k = classify(
                host_os@,
                step@,
                evidence.exit_code,
                evidence.stdout_redacted@,
                evidence.stderr_redacted@,
            );
            &&& r.command_id@ == step@.id
            &&& r.command_label@ == command_text(step@.program, step@.args)
            &&& r.status == k.status
            &&& opt_string_view(r.detected_version) == k.detected_version
            &&& r.beginner_message@ == k.beginner_message
            &&& r.support_action@ == k.support_action
            &&& r.evidence == evidence
        }),
{
    let (status, detected_version, beginner_message, support_action) = classify_result(
        host_os,
        step,
        &evidence,
    );
    RunResult {
        command_id: step.id.to_owned(),
        command_label: command_label(step),
        status,
        detected_version,
        beginner_message,
        support_action,
        evidence,
    }
}

/// The report rows of the automatic sweep on `host_os`: one per recipe of
/// the sweep, in its order, where `runs[i]` is how running the `i`-th recipe
/// ended. Recipes that need consent are never part of it.
pub fn sweep_checks(host_os: &str, runs: Vec<CommandEvidence>) -> (r: Vec<ToolCheck>)
    requires
        runs@.len() == diagnosis_plan_of(recipe_catalog(), host_os@).len(),
    ensures
        r@.len() == runs@.len(),
        forall|i: int|
            0 <= i < r@.len() ==> reports_check(
                #[trigger] r@[i],
                host_os@,
                diagnosis_plan_of(recipe_catalog(), host_os@)[i],
                runs@[i],
            ),
{
    let plan = diagnostic_plan(host_os);
    let ghost steps = diagnosis_plan_of(recipe_catalog(), host_os@);
    let ghost all_runs = runs@;
    let mut rest = runs;
    let n = plan.len();
    let mut checks: Vec<ToolCheck> = Vec::new();
    let mut i: usize = 0;
    while i < n
        invariant
            n == plan@.len(),
            n == all_runs.len(),
            models(plan@) == steps,
            i <= n,
            rest@ == all_runs.skip(i as int),
            checks@.len() == i,
            forall|k: int|
                0 <= k < i ==> reports_check(#[trigger] checks@[k], host_os@, steps[k], all_runs[k]),
        decreases n - i,
    {
        let evidence = rest.remove(0);
        assert(plan@[i as int]@ == steps[i as int]);
        let c = tool_check_for(host_os, &plan[i], evidence);
        checks.push(c);
        i += 1;
        assert(rest@ =~= all_runs.skip(i as int));
    }
    checks
}

/// How a started program ended, with everything it printed already masked.
pub enum RunOutcome {
    /// The program could not be started; the masked error text.
    SpawnFailed(String),
    /// The program ended in time: its exit code, if it has one, and its
    /// masked standard output and standard error.
    Exited(Option<i32>, String, String),
    /// Collecting the program's output failed; the masked error text.
    WaitFailed(String),
    /// The program did not end in time and was stopped.
    TimedOut,
}

/// What the evidence says of a program that was stopped for taking too long.
pub open spec fn timeout_message() -> Seq<char> {
    "명령 시간이 초과되어 안전하게 중단했습니다."@
}

/// The evidence of a run that ended as `outcome` after `duration_ms`
/// milliseconds: a program that did not run or was stopped has no exit code
/// and no output, and the reason stands in its error output.
pub fn evidence_of_run(outcome: RunOutcome, duration_ms: u128) -> (e: CommandEvidence)
    ensures
        e.duration_ms == duration_ms,
        match outcome {
            RunOutcome::Exited(code, out, err) => {
                &&& e.exit_code == code
                &&& e.stdout_redacted@ == out@
                &&& e.stderr_redacted@ == err@
            },
            RunOutcome::SpawnFailed(m) => {
                &&& e.exit_code is None
                &&& e.stdout_redacted@.len() == 0
                &&& e.stderr_redacted@ == m@
            },
            RunOutcome::WaitFailed(m) => {
                &&& e.exit_code is None
                &&& e.stdout_redacted@.len() == 0
                &&& e.stderr_redacted@ == m@
            },
            RunOutcome::TimedOut => {
                &&& e.exit_code is None
                &&& e.stdout_redacted@.len() == 0
                &&& e.stderr_redacted@ == timeout_message()
            },
        },
{
    match outcome {
        RunOutcome::Exited(code, out, err) => CommandEvidence {
            exit_code: code,
            duration_ms,
            stdout_redacted: out,
            stderr_redacted: err,
        },
        RunOutcome::SpawnFailed(m) => CommandEvidence {
            exit_code: None,
            duration_ms,
            stdout_redacted: String::new(),
            stderr_redacted: m,
        },
        RunOutcome::WaitFailed(m) => CommandEvidence {
            exit_code: None,
            duration_ms,
            stdout_redacted: String::new(),
            stderr_redacted: m,
        },
        RunOutcome::TimedOut => CommandEvidence {
            exit_code: None,
            duration_ms,
            stdout_redacted: String::new(),
            stderr_redacted: "명령 시간이 초과되어 안전하게 중단했습니다.".to_owned(),
        },
    }
}

} // verus!

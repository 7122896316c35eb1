//! What happens when the student approves an action: the outcome the
//! interface shows, the progress events it streams, and the steps of an
//! installation from launch to verification.
use vstd::prelude::*;

use crate::catalog::{
    find_allowed_command, lookup_recipe, opt_view, ActionPhase, RecipeModel, RecipeStep,
};
use crate::commands::{
    command_preview_for, command_text, execution_verify_step_id, external_flow_command_for,
    external_flow_for, verify_step_id, ExternalFlowCommand,
};
use crate::diagnostics::{
    classified_as, classify, classify_result, first_non_empty_line, install_output_indicates_existing_package,
    non_empty, non_empty_spec, opt_string_view, reports_existing_package, CheckStatus,
    CommandEvidence,
};
use crate::text::{copy_strs, first_nonblank_line, same_text, trim, trim_str, views};

verus! {

/// Seconds a diagnostic command may run.
pub const COMMAND_TIMEOUT_SECONDS: u64 = 12;

/// Seconds an installation may run.
pub const EXECUTION_TIMEOUT_SECONDS: u64 = 20 * 60;

/// Where an approved action stands.
#[derive(Debug, Clone, Copy, PartialEq, Eq, Structural)]
pub enum ExecutionStatus {
    Queued,
    NeedsUserConfirm,
    Running,
    NeedsOsConsent,
    NeedsBrowserAuth,
    NeedsReboot,
    Verifying,
    Done,
    Blocked,
}

/// The result of an approved action, as the interface shows it.
#[derive(Debug, Clone)]
pub struct ExecutionOutcome {
    pub action_id: String,
    pub status: ExecutionStatus,
    pub message_ko: String,
    pub next_action_ko: String,
    pub command_preview: Option<String>,
    pub docs_url: Option<String>,
}

/// The mathematical content of an [`ExecutionOutcome`].
pub struct OutcomeModel {
    pub action_id: Seq<char>,
    pub status: ExecutionStatus,
    pub message_ko: Seq<char>,
    pub next_action_ko: Seq<char>,
    pub command_preview: Option<Seq<char>>,
    pub docs_url: Option<Seq<char>>,
}

impl View for ExecutionOutcome {
    type V = OutcomeModel;

    open spec fn view(&self) -> OutcomeModel {
        OutcomeModel {
            action_id: self.action_id@,
            status: self.status,
            message_ko: self.message_ko@,
            next_action_ko: self.next_action_ko@,
            command_preview: opt_string_view(self.command_preview),
            docs_url: opt_string_view(self.docs_url),
        }
    }
}

/// One progress event streamed to the interface.
#[derive(Debug, Clone)]
pub struct SetupExecutionEvent {
    pub action_id: String,
    pub status: ExecutionStatus,
    pub kind: &'static str,
    pub message_ko: String,
    pub command_preview: Option<String>,
    pub docs_url: Option<String>,
}

/// The mathematical content of a [`SetupExecutionEvent`].
pub struct EventModel {
    pub action_id: Seq<char>,
    pub status: ExecutionStatus,
    pub kind: Seq<char>,
    pub message_ko: Seq<char>,
    pub command_preview: Option<Seq<char>>,
    pub docs_url: Option<Seq<char>>,
}

impl View for SetupExecutionEvent {
    type V = EventModel;

    open spec fn view(&self) -> EventModel {
        EventModel {
            action_id: self.action_id@,
            status: self.status,
            kind: self.kind@,
            message_ko: self.message_ko@,
            command_preview: opt_string_view(self.command_preview),
            docs_url: opt_string_view(self.docs_url),
        }
    }
}

/// The views of a sequence of events.
pub open spec fn event_models(events: Seq<SetupExecutionEvent>) -> Seq<EventModel> {
    events.map_values(|e: SetupExecutionEvent| e@)
}

/// An outcome for the recipe `step`, with its preview and documentation link.
pub open spec fn step_outcome(
    step: RecipeModel,
    status: ExecutionStatus,
    message: Seq<char>,
    next: Seq<char>,
) -> OutcomeModel {
    OutcomeModel {
        action_id: step.id,
        status,
        message_ko: message,
        next_action_ko: next,
        command_preview: Some(step.command_preview),
        docs_url: Some(step.docs_url),
    }
}

/// An event for the recipe `step`.
pub open spec fn step_event(
    step: RecipeModel,
    status: ExecutionStatus,
    kind: Seq<char>,
    message: Seq<char>,
    preview: Seq<char>,
) -> EventModel {
    EventModel {
        action_id: step.id,
        status,
        kind,
        message_ko: message,
        command_preview: Some(preview),
        docs_url: Some(step.docs_url),
    }
}

fn make_outcome(
    step: &RecipeStep,
    status: ExecutionStatus,
    message_ko: String,
    next_action_ko: String,
) -> (o: ExecutionOutcome)
    ensures
        o@ == step_outcome(step@, status, message_ko@, next_action_ko@),
{
    ExecutionOutcome {
        action_id: step.id.to_owned(),
        status,
        message_ko,
        next_action_ko,
        command_preview: Some(step.command_preview.to_owned()),
        docs_url: Some(step.docs_url.to_owned()),
    }
}

fn make_event(
    step: &RecipeStep,
    status: ExecutionStatus,
    kind: &'static str,
    message_ko: String,
    preview: String,
) -> (e: SetupExecutionEvent)
    ensures
        e@ == step_event(step@, status, kind@, message_ko@, preview@),
{
    SetupExecutionEvent {
        action_id: step.id.to_owned(),
        status,
        kind,
        message_ko,
        command_preview: Some(preview),
        docs_url: Some(step.docs_url.to_owned()),
    }
}

fn with_label(label: &str, suffix: &str) -> (s: String)
    ensures
        s@ == label@ + suffix@,
{
    let mut s = label.to_owned();
    s.append(suffix);
    s
}

/// The outcome shown when the student approves the recipe `step` without
/// anything being run: an installation waits for confirmation, a login flow
/// for the browser, and anything else is refused.
pub open spec fn planned_outcome(step: RecipeModel) -> OutcomeModel {
    match step.action_phase {
        ActionPhase::Install => step_outcome(
            step,
            ExecutionStatus::NeedsUserConfirm,
            step.label_ko + " 설치를 시작할 준비가 되었습니다."@,
            step.expected_permission_prompt_ko,
        ),
        ActionPhase::ExternalFlow => step_outcome(
            step,
            ExecutionStatus::NeedsBrowserAuth,
            step.label_ko + " 단계는 공식 브라우저/CLI 로그인 흐름으로 이어집니다."@,
            "다음 구현 슬라이스에서 앱이 공식 로그인 흐름을 열고 완료 여부를 자동 확인합니다. 현재는 비밀번호나 토큰을 앱에 입력하지 마세요."@,
        ),
        ActionPhase::Detect => step_outcome(
            step,
            ExecutionStatus::Blocked,
            step.label_ko + " 항목은 현재 진단 전용 레시피입니다."@,
            "설치/복구 레시피가 연결되기 전까지는 이 버튼이 실제 설치를 실행하지 않습니다. 자동 설치는 별도 allowlist 실행 레시피로만 추가됩니다."@,
        ),
        _ => step_outcome(
            step,
            ExecutionStatus::Blocked,
            step.label_ko + " 항목은 자동 실행 대상이 아닙니다."@,
            "자동화가 안전하지 않은 항목입니다. 이후 fallback에서는 앱이 명령어 복사와 올바른 셸 열기까지 도와주는 구조로 구현합니다."@,
        ),
    }
}

/// The outcome of approving `step` where nothing is run.
pub fn execution_outcome_for(step: &RecipeStep) -> (o: ExecutionOutcome)
    ensures
        o@ == planned_outcome(step@),
{
    match step.action_phase {
        ActionPhase::Install => make_outcome(
            step,
            ExecutionStatus::NeedsUserConfirm,
            with_label(step.label_ko, " 설치를 시작할 준비가 되었습니다."),
            step.expected_permission_prompt_ko.to_owned(),
        ),
        ActionPhase::ExternalFlow => make_outcome(
            step,
            ExecutionStatus::NeedsBrowserAuth,
            with_label(step.label_ko, " 단계는 공식 브라우저/CLI 로그인 흐름으로 이어집니다."),
            "다음 구현 슬라이스에서 앱이 공식 로그인 흐름을 열고 완료 여부를 자동 확인합니다. 현재는 비밀번호나 토큰을 앱에 입력하지 마세요.".to_owned(),
        ),
        ActionPhase::Detect => make_outcome(
            step,
            ExecutionStatus::Blocked,
            with_label(step.label_ko, " 항목은 현재 진단 전용 레시피입니다."),
            "설치/복구 레시피가 연결되기 전까지는 이 버튼이 실제 설치를 실행하지 않습니다. 자동 설치는 별도 allowlist 실행 레시피로만 추가됩니다.".to_owned(),
        ),
        _ => make_outcome(
            step,
            ExecutionStatus::Blocked,
            with_label(step.label_ko, " 항목은 자동 실행 대상이 아닙니다."),
            "자동화가 안전하지 않은 항목입니다. 이후 fallback에서는 앱이 명령어 복사와 올바른 셸 열기까지 도와주는 구조로 구현합니다.".to_owned(),
        ),
    }
}

fn clone_opt_string(o: &Option<String>) -> (r: Option<String>)
    ensures
        opt_string_view(r) == opt_string_view(*o),
{
    match o {
        Some(s) => Some(s.clone()),
        None => None,
    }
}

/// The event that reports an outcome, of the given kind.
pub fn execution_event_from_outcome(outcome: &ExecutionOutcome, kind: &'static str) -> (e:
    SetupExecutionEvent)
    ensures
        e@ == (EventModel {
            action_id: outcome@.action_id,
            status: outcome@.status,
            kind: kind@,
            message_ko: outcome@.message_ko,
            command_preview: outcome@.command_preview,
            docs_url: outcome@.docs_url,
        }),
{
    SetupExecutionEvent {
        action_id: outcome.action_id.clone(),
        status: outcome.status,
        kind,
        message_ko: outcome.message_ko.clone(),
        command_preview: clone_opt_string(&outcome.command_preview),
        docs_url: clone_opt_string(&outcome.docs_url),
    }
}

/// The first line that says something in `first`, else in `second`, else
/// `fallback`.
pub open spec fn first_detail(first: Seq<char>, second: Seq<char>, fallback: Seq<char>) -> Seq<char> {
    match first_nonblank_line(first) {
        Some(l) => l,
        None => match first_nonblank_line(second) {
            Some(l) => l,
            None => fallback,
        },
    }
}

fn detail_of(first: &String, second: &String, fallback: &str) -> (d: String)
    ensures
        d@ == first_detail(first@, second@, fallback@),
{
    match first_non_empty_line(first.as_str()) {
        Some(l) => l,
        None => match first_non_empty_line(second.as_str()) {
            Some(l) => l,
            None => fallback.to_owned(),
        },
    }
}

/// The outcome of having tried to open the login flow of `step` in a
/// terminal, where the launch ended as `launch` says.
pub open spec fn login_launch_outcome(step: RecipeModel, exit_code: Option<i32>, stdout: Seq<char>, stderr: Seq<char>) -> OutcomeModel {
    if exit_code != Some(0i32) {
        step_outcome(
            step,
            ExecutionStatus::Blocked,
            step.label_ko + " 창을 열지 못했습니다."@,
            "공식 CLI 로그인 명령을 직접 실행해 주세요: "@ + step.command_preview + ". 오류: "@
                + first_detail(stderr, stdout, "로그인 창을 열 수 없습니다."@),
        )
    } else {
        step_outcome(
            step,
            ExecutionStatus::NeedsBrowserAuth,
            step.label_ko + " 창을 열었습니다."@,
            "열린 명령 프롬프트와 브라우저에서 로그인을 완료하세요. 완료 후 앱으로 돌아와 '안전 진단 시작'을 다시 누르면 로그인 상태를 확인합니다."@,
        )
    }
}

/// The login flow to launch for the recipe `step`, or why there is none.
pub fn login_flow_for(step: &RecipeStep) -> (r: Result<ExternalFlowCommand, String>)
    ensures
        match r {
            Ok(f) => external_flow_for(step@.id) == Some(f@),
            Err(e) => external_flow_for(step@.id) is None && e@
                == "외부 로그인 실행 레시피가 연결되지 않았습니다: "@ + step@.id,
        },
{
    match external_flow_command_for(step.id) {
        Some(f) => Ok(f),
        None => Err(with_label("외부 로그인 실행 레시피가 연결되지 않았습니다: ", step.id)),
    }
}

/// Decides the outcome of a login action once its terminal was launched (or
/// failed to launch) as `launch` records. A recipe without a login flow is
/// an error.
pub fn execute_external_flow_action(step: &RecipeStep, launch: &CommandEvidence) -> (r: Result<
    ExecutionOutcome,
    String,
>)
    ensures
        external_flow_for(step@.id) is None <==> r is Err,
        r matches Err(e) ==> e@ == "외부 로그인 실행 레시피가 연결되지 않았습니다: "@ + step@.id,
        r matches Ok(o) ==> o@ == login_launch_outcome(
            step@,
            launch.exit_code,
            launch.stdout_redacted@,
            launch.stderr_redacted@,
        ),
{
    let flow = external_flow_command_for(step.id);
    if flow.is_none() {
        return Err(with_label("외부 로그인 실행 레시피가 연결되지 않았습니다: ", step.id));
    }
    if launch.exit_code != Some(0i32) {
        let detail = detail_of(&launch.stderr_redacted, &launch.stdout_redacted, "로그인 창을 열 수 없습니다.");
        let mut next = "공식 CLI 로그인 명령을 직접 실행해 주세요: ".to_owned();
        next.append(step.command_preview);
        next.append(". 오류: ");
        next.append(detail.as_str());
        return Ok(
            make_outcome(step, ExecutionStatus::Blocked, with_label(step.label_ko, " 창을 열지 못했습니다."), next),
        );
    }
    Ok(
        make_outcome(
            step,
            ExecutionStatus::NeedsBrowserAuth,
            with_label(step.label_ko, " 창을 열었습니다."),
            "열린 명령 프롬프트와 브라우저에서 로그인을 완료하세요. 완료 후 앱으로 돌아와 '안전 진단 시작'을 다시 누르면 로그인 상태를 확인합니다.".to_owned(),
        ),
    )
}

/// A program to run with its arguments and the seconds it may take.
pub struct ProgramCall {
    pub program: &'static str,
    pub args: Vec<&'static str>,
    pub timeout_secs: u64,
}

/// The mathematical content of a [`ProgramCall`].
pub struct CallModel {
    pub program: Seq<char>,
    pub args: Seq<Seq<char>>,
    pub timeout_secs: u64,
}

impl View for ProgramCall {
    type V = CallModel;

    open spec fn view(&self) -> CallModel {
        CallModel { program: self.program@, args: views(self.args@), timeout_secs: self.timeout_secs }
    }
}

/// The recipe that installs the GitHub CLI.
pub open spec fn gh_install_id() -> Seq<char> {
    "gh.install.windows.winget"@
}

/// The recipe that installs the Vercel CLI.
pub open spec fn vercel_install_id() -> Seq<char> {
    "vercel.install.windows.npm"@
}

/// The recipe that installs Git for Windows.
pub open spec fn git_install_id() -> Seq<char> {
    "git.install.windows.winget"@
}

/// Where Git for Windows puts `git.exe` when it is not yet on the `PATH`.
pub open spec fn git_fallback_call() -> CallModel {
    CallModel {
        program: "C:\\Program Files\\Git\\cmd\\git.exe"@,
        args: seq!["--version"@],
        timeout_secs: COMMAND_TIMEOUT_SECONDS,
    }
}

/// The command that confirms the installation done by the recipe
/// `step_id`: the tool's own version for the GitHub and Vercel CLIs, the
/// detection recipe that [`verify_step_id`] names otherwise.
pub open spec fn install_check(step_id: Seq<char>) -> Result<CallModel, Seq<char>> {
    if step_id == gh_install_id() {
        Ok(CallModel { program: "gh"@, args: seq!["--version"@], timeout_secs: COMMAND_TIMEOUT_SECONDS })
    } else if step_id == vercel_install_id() {
        Ok(
            CallModel {
                program: "vercel"@,
                args: seq!["--version"@],
                timeout_secs: COMMAND_TIMEOUT_SECONDS,
            },
        )
    } else {
        match verify_step_id(step_id) {
            None => Err("검증 레시피가 연결되지 않았습니다: "@ + step_id),
            Some(v) => match lookup_recipe(v) {
                None => Err("검증 명령을 찾을 수 없습니다: "@ + v),
                Some(d) => Ok(CallModel { program: d.program, args: d.args, timeout_secs: COMMAND_TIMEOUT_SECONDS }),
            },
        }
    }
}

/// The call that runs the diagnostic command of `step`, under the time limit
/// of diagnostics.
pub fn diagnostic_call(step: &RecipeStep) -> (c: ProgramCall)
    ensures
        c@ == (CallModel {
            program: step@.program,
            args: step@.args,
            timeout_secs: COMMAND_TIMEOUT_SECONDS,
        }),
{
    ProgramCall {
        program: step.program,
        args: copy_strs(&step.args),
        timeout_secs: COMMAND_TIMEOUT_SECONDS,
    }
}

fn version_call(program: &'static str) -> (c: ProgramCall)
    ensures
        c@ == (CallModel { program: program@, args: seq!["--version"@], timeout_secs: COMMAND_TIMEOUT_SECONDS }),
{
    let c = ProgramCall { program, args: vec!["--version"], timeout_secs: COMMAND_TIMEOUT_SECONDS };
    assert(c@.args =~= seq!["--version"@]);
    c
}

/// The command to run first to confirm the installation done by `step`.
pub fn install_verification_command(step: &RecipeStep) -> (r: Result<ProgramCall, String>)
    ensures
        match r {
            Ok(c) => install_check(step@.id) == Ok::<CallModel, Seq<char>>(c@),
            Err(e) => install_check(step@.id) == Err::<CallModel, Seq<char>>(e@),
        },
{
    if same_text(step.id, "gh.install.windows.winget") {
        return Ok(version_call("gh"));
    }
    if same_text(step.id, "vercel.install.windows.npm") {
        return Ok(version_call("vercel"));
    }
    let verify_id = match execution_verify_step_id(step.id) {
        Some(v) => v,
        None => {
            return Err(with_label("검증 레시피가 연결되지 않았습니다: ", step.id));
        },
    };
    match find_allowed_command(verify_id) {
        Some(d) => Ok(ProgramCall { program: d.program, args: d.args, timeout_secs: COMMAND_TIMEOUT_SECONDS }),
        None => Err(with_label("검증 명령을 찾을 수 없습니다: ", verify_id)),
    }
}

/// What the first check of an installation concluded.
pub enum VerifyVerdict {
    /// The check settled the status and the detected version.
    Verified(CheckStatus, Option<Seq<char>>),
    /// The tool was not found where the check looked; Git for Windows is
    /// looked for at its install location before this status stands.
    TryFallback(CheckStatus, Option<Seq<char>>),
}

/// How the output of the first check of the installation done by `step_id`
/// is read on the host `os`.
pub open spec fn install_verdict(
    os: Seq<char>,
    step_id: Seq<char>,
    exit_code: Option<i32>,
    stdout: Seq<char>,
    stderr: Seq<char>,
) -> Result<VerifyVerdict, Seq<char>> {
    if step_id == gh_install_id() || step_id == vercel_install_id() {
        if exit_code == Some(0i32) {
            Ok(VerifyVerdict::Verified(CheckStatus::Installed, non_empty_spec(trim(stdout))))
        } else {
            Ok(VerifyVerdict::Verified(CheckStatus::NeedsRepair, None))
        }
    } else {
        match verify_step_id(step_id) {
            None => Err("검증 레시피가 연결되지 않았습니다: "@ + step_id),
            Some(v) => match lookup_recipe(v) {
                None => Err("검증 명령을 찾을 수 없습니다: "@ + v),
                Some(d) => {
                    let c = classify(os, d, exit_code, stdout, stderr);
                    if c.status == CheckStatus::Installed {
                        Ok(VerifyVerdict::Verified(c.status, c.detected_version))
                    } else if step_id == git_install_id() {
                        Ok(VerifyVerdict::TryFallback(c.status, c.detected_version))
                    } else {
                        Ok(VerifyVerdict::Verified(c.status, c.detected_version))
                    }
                },
            },
        }
    }
}

/// What to do after the first check of an installation.
pub enum VerifyDecision {
    /// The status, the detected version and the evidence they rest on.
    Verified(CheckStatus, Option<String>, CommandEvidence),
    /// Run the call; if it fails, the status, version and evidence stand.
    TryFallback(ProgramCall, CheckStatus, Option<String>, CommandEvidence),
}

/// Reads the output `evidence` of the command that
/// [`install_verification_command`] chose for `step`, run on `host_os`.
pub fn verify_after_install(host_os: &str, step: &RecipeStep, evidence: CommandEvidence) -> (r:
    Result<VerifyDecision, String>)
    ensures
        match r {
            Ok(VerifyDecision::Verified(status, version, ev)) => {
                &&& install_verdict(
                    host_os@,
                    step@.id,
                    evidence.exit_code,
                    evidence.stdout_redacted@,
                    evidence.stderr_redacted@,
                ) == Ok::<VerifyVerdict, Seq<char>>(
                    VerifyVerdict::Verified(status, opt_string_view(version)),
                )
                &&& ev == evidence
            },
            Ok(VerifyDecision::TryFallback(call, status, version, ev)) => {
                &&& install_verdict(
                    host_os@,
                    step@.id,
                    evidence.exit_code,
                    evidence.stdout_redacted@,
                    evidence.stderr_redacted@,
                ) == Ok::<VerifyVerdict, Seq<char>>(
                    VerifyVerdict::TryFallback(status, opt_string_view(version)),
                )
                &&& call@ == git_fallback_call()
                &&& ev == evidence
            },
            Err(e) => install_verdict(
                host_os@,
                step@.id,
                evidence.exit_code,
                evidence.stdout_redacted@,
                evidence.stderr_redacted@,
            ) == Err::<VerifyVerdict, Seq<char>>(e@),
        },
{
    if same_text(step.id, "gh.install.windows.winget") || same_text(
        step.id,
        "vercel.install.windows.npm",
    ) {
        if evidence.exit_code == Some(0i32) {
            let out = trim_str(evidence.stdout_redacted.as_str());
            let version = non_empty(out.as_str());
            return Ok(VerifyDecision::Verified(CheckStatus::Installed, version, evidence));
        }
        return Ok(VerifyDecision::Verified(CheckStatus::NeedsRepair, None, evidence));
    }
    let verify_id = match execution_verify_step_id(step.id) {
        Some(v) => v,
        None => {
            return Err(with_label("검증 레시피가 연결되지 않았습니다: ", step.id));
        },
    };
    let verify_step = match find_allowed_command(verify_id) {
        Some(d) => d,
        None => {
            return Err(with_label("검증 명령을 찾을 수 없습니다: ", verify_id));
        },
    };
    let (status, version, _, _) = classify_result(host_os, &verify_step, &evidence);
    if status == CheckStatus::Installed {
        return Ok(VerifyDecision::Verified(status, version, evidence));
    }
    if same_text(step.id, "git.install.windows.winget") {
        let call = ProgramCall {
            program: "C:\\Program Files\\Git\\cmd\\git.exe",
            args: vec!["--version"],
            timeout_secs: COMMAND_TIMEOUT_SECONDS,
        };
        assert(call@.args =~= seq!["--version"@]);
        return Ok(VerifyDecision::TryFallback(call, status, version, evidence));
    }
    Ok(VerifyDecision::Verified(status, version, evidence))
}

/// Settles an installation check after the fallback ran: the fallback
/// counts if it ended well, else the first check stands.
pub fn settle_install_fallback(
    status: CheckStatus,
    version: Option<String>,
    evidence: CommandEvidence,
    fallback: CommandEvidence,
) -> (r: (CheckStatus, Option<String>, CommandEvidence))
    ensures
        fallback.exit_code == Some(0i32) ==> r.0 == CheckStatus::Installed && opt_string_view(r.1)
            == non_empty_spec(trim(fallback.stdout_redacted@)) && r.2 == fallback,
        fallback.exit_code != Some(0i32) ==> r.0 == status && opt_string_view(r.1) == opt_string_view(
            version,
        ) && r.2 == evidence,
{
    if fallback.exit_code == Some(0i32) {
        let out = trim_str(fallback.stdout_redacted.as_str());
        let v = non_empty(out.as_str());
        (CheckStatus::Installed, v, fallback)
    } else {
        (status, version, evidence)
    }
}

/// What happened since the last step of an installation.
pub enum InstallEvent {
    /// The student approved the installation.
    Begin,
    /// The installer exited, with this evidence.
    InstallFinished(CommandEvidence),
    /// The installation check settled on this status and version, with this
    /// evidence.
    Verified(CheckStatus, Option<String>, CommandEvidence),
}

/// What the caller does next in an installation.
pub enum InstallDirective {
    /// Run the installer.
    RunInstall(ProgramCall),
    /// Check the installation (see [`install_verification_command`]).
    Verify,
    /// The installation ended with this outcome.
    Finish(ExecutionOutcome),
}

/// The events to stream, then the directive to follow.
pub struct InstallTransition {
    pub events: Vec<SetupExecutionEvent>,
    pub directive: InstallDirective,
}

/// The recipe names an operating system other than the host's.
pub open spec fn wrong_host(step: RecipeModel, os: Seq<char>) -> bool {
    step.target_os matches Some(t) && t != os
}

/// The outcome of an installation that cannot run on this host.
pub open spec fn wrong_host_outcome(step: RecipeModel, os: Seq<char>) -> OutcomeModel {
    step_outcome(
        step,
        ExecutionStatus::Blocked,
        step.label_ko + " 항목은 현재 운영체제에서 실행할 수 없습니다."@,
        "이 레시피는 "@ + step.target_os->0 + " 전용입니다. 현재 OS: "@ + os,
    )
}

/// The event that announces the installer and its permission prompt.
pub open spec fn consent_event(step: RecipeModel) -> EventModel {
    step_event(
        step,
        ExecutionStatus::NeedsOsConsent,
        "system"@,
        step.label_ko + " 설치를 시작합니다. 권한 창이 뜨면 사용자가 직접 '예'를 눌러주세요."@,
        step.command_preview,
    )
}

/// The first line of `text` that says something, or `fallback`.
pub open spec fn line_or(text: Seq<char>, fallback: Seq<char>) -> Seq<char> {
    match first_nonblank_line(text) {
        Some(l) => l,
        None => fallback,
    }
}

/// The events that relay what the installer printed.
pub open spec fn output_events(step: RecipeModel, stdout: Seq<char>, stderr: Seq<char>) -> Seq<EventModel> {
    let out = if stdout.len() > 0 {
        seq![
            step_event(
                step,
                ExecutionStatus::Running,
                "stdout"@,
                line_or(stdout, "설치 명령 출력을 받았습니다."@),
                step.command_preview,
            ),
        ]
    } else {
        Seq::empty()
    };
    let err = if stderr.len() > 0 {
        seq![
            step_event(
                step,
                ExecutionStatus::Running,
                "stderr"@,
                line_or(stderr, "설치 명령 오류 출력을 받았습니다."@),
                step.command_preview,
            ),
        ]
    } else {
        Seq::empty()
    };
    out + err
}

/// The installer is done: it succeeded, or said the package was there.
pub open spec fn install_succeeded(exit_code: Option<i32>, stdout: Seq<char>, stderr: Seq<char>) -> bool {
    exit_code == Some(0i32) || reports_existing_package(stdout, stderr)
}

/// The outcome of an installer that did not finish.
pub open spec fn install_failed_outcome(step: RecipeModel, stdout: Seq<char>, stderr: Seq<char>) -> OutcomeModel {
    step_outcome(
        step,
        ExecutionStatus::Blocked,
        step.label_ko + " 설치가 완료되지 않았습니다."@,
        "설치 로그를 확인하세요: "@ + first_detail(
            stderr,
            stdout,
            "설치 명령이 성공 종료 코드를 반환하지 않았습니다."@,
        ),
    )
}

/// The recipe whose check confirms the installation (the installation's own
/// id when it has none).
pub open spec fn verifying_id(step: RecipeModel) -> Seq<char> {
    match verify_step_id(step.id) {
        Some(v) => v,
        None => step.id,
    }
}

/// The event that announces the installation check.
pub open spec fn verifying_event(step: RecipeModel) -> EventModel {
    step_event(
        step,
        ExecutionStatus::Verifying,
        "system"@,
        "설치 완료 후 "@ + verifying_id(step) + " 검증을 시작합니다."@,
        verifying_id(step),
    )
}

/// The outcome of an installation whose check settled on `status`.
pub open spec fn install_result_outcome(
    step: RecipeModel,
    status: CheckStatus,
    version: Option<Seq<char>>,
    stdout: Seq<char>,
    stderr: Seq<char>,
) -> OutcomeModel {
    let preview = Some(command_text(step.program, step.args));
    if status == CheckStatus::Installed {
        OutcomeModel {
            action_id: step.id,
            status: ExecutionStatus::Done,
            message_ko: step.label_ko + " 설치와 검증이 완료되었습니다."@,
            next_action_ko: match version {
                Some(v) => "검증 결과: "@ + v + ". 다음 항목으로 계속 진행합니다."@,
                None => "다음 항목으로 계속 진행합니다."@,
            },
            command_preview: preview,
            docs_url: Some(step.docs_url),
        }
    } else {
        OutcomeModel {
            action_id: step.id,
            status: ExecutionStatus::NeedsReboot,
            message_ko: step.label_ko + " 설치는 끝났지만 현재 앱에서 바로 검증하지 못했습니다."@,
            next_action_ko: "앱 또는 Windows를 다시 시작한 뒤 재진단하세요. 검증 로그: "@
                + first_detail(stderr, stdout, "설치 후 검증 명령이 아직 통과하지 않았습니다."@),
            command_preview: preview,
            docs_url: Some(step.docs_url),
        }
    }
}

fn line_or_exec(text: &String, fallback: &str) -> (r: String)
    ensures
        r@ == line_or(text@, fallback@),
{
    match first_non_empty_line(text.as_str()) {
        Some(l) => l,
        None => fallback.to_owned(),
    }
}

/// One step of an approved installation on the host `host_os`: from the
/// approval to the installer, from the installer's exit to the check, and
/// from the check to the outcome. An installation is reported done only when
/// the check found the tool installed.
pub fn execute_install_action(host_os: &str, step: &RecipeStep, event: InstallEvent) -> (t:
    InstallTransition)
    ensures
        match event {
            InstallEvent::Begin => if wrong_host(step@, host_os@) {
                &&& t.events@.len() == 0
                &&& t.directive matches InstallDirective::Finish(o) && o@ == wrong_host_outcome(
                    step@,
                    host_os@,
                )
            } else {
                &&& event_models(t.events@) == seq![consent_event(step@)]
                &&& t.directive matches InstallDirective::RunInstall(c) && c@ == (CallModel {
                    program: step@.program,
                    args: step@.args,
                    timeout_secs: EXECUTION_TIMEOUT_SECONDS,
                })
            },
            InstallEvent::InstallFinished(ev) => if install_succeeded(
                ev.exit_code,
                ev.stdout_redacted@,
                ev.stderr_redacted@,
            ) {
                &&& event_models(t.events@) == output_events(
                    step@,
                    ev.stdout_redacted@,
                    ev.stderr_redacted@,
                ).push(verifying_event(step@))
                &&& t.directive is Verify
            } else {
                &&& event_models(t.events@) == output_events(
                    step@,
                    ev.stdout_redacted@,
                    ev.stderr_redacted@,
                )
                &&& t.directive matches InstallDirective::Finish(o) && o@ == install_failed_outcome(
                    step@,
                    ev.stdout_redacted@,
                    ev.stderr_redacted@,
                )
            },
            InstallEvent::Verified(status, version, ev) => {
                &&& t.events@.len() == 0
                &&& t.directive matches InstallDirective::Finish(o) && o@ == install_result_outcome(
                    step@,
                    status,
                    opt_string_view(version),
                    ev.stdout_redacted@,
                    ev.stderr_redacted@,
                )
            },
        },
{
    match event {
        InstallEvent::Begin => {
            if let Some(target) = step.target_os {
                if !same_text(target, host_os) {
                    let mut next = "이 레시피는 ".to_owned();
                    next.append(target);
                    next.append(" 전용입니다. 현재 OS: ");
                    next.append(host_os);
                    let o = make_outcome(
                        step,
                        ExecutionStatus::Blocked,
                        with_label(step.label_ko, " 항목은 현재 운영체제에서 실행할 수 없습니다."),
                        next,
                    );
                    return InstallTransition { events: Vec::new(), directive: InstallDirective::Finish(o) };
                }
            }
            let e = make_event(
                step,
                ExecutionStatus::NeedsOsConsent,
                "system",
                with_label(step.label_ko, " 설치를 시작합니다. 권한 창이 뜨면 사용자가 직접 '예'를 눌러주세요."),
                step.command_preview.to_owned(),
            );
            let mut events: Vec<SetupExecutionEvent> = Vec::new();
            events.push(e);
            let args = copy_strs(&step.args);
            let call = ProgramCall { program: step.program, args, timeout_secs: EXECUTION_TIMEOUT_SECONDS };
            assert(event_models(events@) =~= seq![consent_event(step@)]);
            InstallTransition { events, directive: InstallDirective::RunInstall(call) }
        },
        InstallEvent::InstallFinished(ev) => {
            let mut events: Vec<SetupExecutionEvent> = Vec::new();
            let ghost out_part: Seq<EventModel> = if ev.stdout_redacted@.len() > 0 {
                seq![
                    step_event(
                        step@,
                        ExecutionStatus::Running,
                        "stdout"@,
                        line_or(ev.stdout_redacted@, "설치 명령 출력을 받았습니다."@),
                        step@.command_preview,
                    ),
                ]
            } else {
                Seq::empty()
            };
            if !ev.stdout_redacted.as_str().is_empty() {
                let e = make_event(
                    step,
                    ExecutionStatus::Running,
                    "stdout",
                    line_or_exec(&ev.stdout_redacted, "설치 명령 출력을 받았습니다."),
                    step.command_preview.to_owned(),
                );
                events.push(e);
            }
            assert(event_models(events@) =~= out_part);
            if !ev.stderr_redacted.as_str().is_empty() {
                let e = make_event(
                    step,
                    ExecutionStatus::Running,
                    "stderr",
                    line_or_exec(&ev.stderr_redacted, "설치 명령 오류 출력을 받았습니다."),
                    step.command_preview.to_owned(),
                );
                events.push(e);
            }
            assert(event_models(events@) =~= output_events(
                step@,
                ev.stdout_redacted@,
                ev.stderr_redacted@,
            ));
            let finished = ev.exit_code == Some(0i32) || install_output_indicates_existing_package(&ev);
            if !finished {
                let detail = detail_of(
                    &ev.stderr_redacted,
                    &ev.stdout_redacted,
                    "설치 명령이 성공 종료 코드를 반환하지 않았습니다.",
                );
                let o = make_outcome(
                    step,
                    ExecutionStatus::Blocked,
                    with_label(step.label_ko, " 설치가 완료되지 않았습니다."),
                    with_label("설치 로그를 확인하세요: ", detail.as_str()),
                );
                return InstallTransition { events, directive: InstallDirective::Finish(o) };
            }
            let verify_id = match execution_verify_step_id(step.id) {
                Some(v) => v,
                None => step.id,
            };
            let mut message = "설치 완료 후 ".to_owned();
            message.append(verify_id);
            message.append(" 검증을 시작합니다.");
            let e = make_event(step, ExecutionStatus::Verifying, "system", message, verify_id.to_owned());
            let ghost before = event_models(events@);
            events.push(e);
            assert(event_models(events@) =~= before.push(verifying_event(step@)));
            InstallTransition { events, directive: InstallDirective::Verify }
        },
        InstallEvent::Verified(status, version, ev) => {
            let preview = command_preview_for(step.program, &step.args);
            let o = if status == CheckStatus::Installed {
                let next = match version {
                    Some(v) => {
                        let mut n = "검증 결과: ".to_owned();
                        n.append(v.as_str());
                        n.append(". 다음 항목으로 계속 진행합니다.");
                        n
                    },
                    None => "다음 항목으로 계속 진행합니다.".to_owned(),
                };
                ExecutionOutcome {
                    action_id: step.id.to_owned(),
                    status: ExecutionStatus::Done,
                    message_ko: with_label(step.label_ko, " 설치와 검증이 완료되었습니다."),
                    next_action_ko: next,
                    command_preview: Some(preview),
                    docs_url: Some(step.docs_url.to_owned()),
                }
            } else {
                let detail = detail_of(
                    &ev.stderr_redacted,
                    &ev.stdout_redacted,
                    "설치 후 검증 명령이 아직 통과하지 않았습니다.",
                );
                ExecutionOutcome {
                    action_id: step.id.to_owned(),
                    status: ExecutionStatus::NeedsReboot,
                    message_ko: with_label(step.label_ko, " 설치는 끝났지만 현재 앱에서 바로 검증하지 못했습니다."),
                    next_action_ko: with_label(
                        "앱 또는 Windows를 다시 시작한 뒤 재진단하세요. 검증 로그: ",
                        detail.as_str(),
                    ),
                    command_preview: Some(preview),
                    docs_url: Some(step.docs_url.to_owned()),
                }
            };
            InstallTransition { events: Vec::new(), directive: InstallDirective::Finish(o) }
        },
    }
}

/// An approval of the action `action_id` by the approval `approval_id`.
pub struct ExecuteSetupActionInput {
    pub action_id: String,
    pub approval_id: String,
}

/// How an approval is admitted: a blank approval id and an id off the
/// allowlist are refused; otherwise the recipe starts with an event that
/// confirms it is allowlisted.
pub open spec fn admitted_action(action_id: Seq<char>, approval_id: Seq<char>) -> Result<(RecipeModel, EventModel), Seq<char>> {
    if trim(approval_id).len() == 0 {
        Err("승인 ID가 비어 있어 작업을 시작할 수 없습니다."@)
    } else {
        match lookup_recipe(action_id) {
            None => Err("허용되지 않은 작업 ID입니다: "@ + action_id),
            Some(r) => Ok(
                (
                    r,
                    step_event(
                        r,
                        ExecutionStatus::Running,
                        "system"@,
                        r.label_ko + " 작업을 allowlist에서 확인했습니다."@,
                        r.command_preview,
                    ),
                ),
            ),
        }
    }
}

/// Admits an approved action: the recipe to run and the event that starts
/// it, or the reason it is refused.
pub fn begin_setup_action(input: &ExecuteSetupActionInput) -> (r: Result<
    (RecipeStep, SetupExecutionEvent),
    String,
>)
    ensures
        match r {
            Ok((step, e)) => admitted_action(input.action_id@, input.approval_id@) == Ok::<
                (RecipeModel, EventModel),
                Seq<char>,
            >((step@, e@)),
            Err(e) => admitted_action(input.action_id@, input.approval_id@) == Err::<
                (RecipeModel, EventModel),
                Seq<char>,
            >(e@),
        },
{
    let approval = trim_str(input.approval_id.as_str());
    if approval.as_str().is_empty() {
        return Err("승인 ID가 비어 있어 작업을 시작할 수 없습니다.".to_owned());
    }
    match find_allowed_command(input.action_id.as_str()) {
        None => Err(with_label("허용되지 않은 작업 ID입니다: ", input.action_id.as_str())),
        Some(step) => {
            let e = make_event(
                &step,
                ExecutionStatus::Running,
                "system",
                with_label(step.label_ko, " 작업을 allowlist에서 확인했습니다."),
                step.command_preview.to_owned(),
            );
            Ok((step, e))
        },
    }
}

/// The kind of event that reports the outcome of an action of the given
/// phase: failures are reported on the error stream.
pub open spec fn outcome_kind(phase: ActionPhase, status: ExecutionStatus) -> Seq<char> {
    if status == ExecutionStatus::Blocked || (phase == ActionPhase::Install && status
        == ExecutionStatus::NeedsReboot) {
        "stderr"@
    } else {
        "system"@
    }
}

/// The kind of event that reports an outcome with `status` of an action of
/// `phase`.
pub fn outcome_event_kind(phase: ActionPhase, status: ExecutionStatus) -> (k: &'static str)
    ensures
        k@ == outcome_kind(phase, status),
{
    if phase == ActionPhase::Install {
        if status == ExecutionStatus::Blocked || status == ExecutionStatus::NeedsReboot {
            "stderr"
        } else {
            "system"
        }
    } else if status == ExecutionStatus::Blocked {
        "stderr"
    } else {
        "system"
    }
}

/// The event that reports the outcome `o` of an action of phase `phase`.
pub open spec fn outcome_event(phase: ActionPhase, o: OutcomeModel) -> EventModel {
    EventModel {
        action_id: o.action_id,
        status: o.status,
        kind: outcome_kind(phase, o.status),
        message_ko: o.message_ko,
        command_preview: o.command_preview,
        docs_url: o.docs_url,
    }
}

/// The event that closes an action on the recipe `step` with `outcome`.
pub fn closing_event(step: &RecipeStep, outcome: &ExecutionOutcome) -> (e: SetupExecutionEvent)
    ensures
        e@ == outcome_event(step@.action_phase, outcome@),
{
    let kind = outcome_event_kind(step.action_phase, outcome.status);
    execution_event_from_outcome(outcome, kind)
}

/// How an admitted action goes on once its events are announced.
pub enum SetupRoute {
    /// The install steps run, from [`InstallEvent::Begin`].
    Install,
    /// The login flow of the recipe is opened.
    ExternalFlow,
    /// Nothing runs: the action ends with this outcome.
    Done(ExecutionOutcome),
}

/// Admits an approved action and says how it goes on. The returned events
/// are announced first, in order: the admission event, and, for an action
/// that runs nothing, the event of its planned outcome. An installation goes
/// on to the install steps and a login to its flow; either is closed by
/// [`closing_event`].
pub fn dispatch_setup_action(input: &ExecuteSetupActionInput) -> (r: Result<
    (RecipeStep, Vec<SetupExecutionEvent>, SetupRoute),
    String,
>)
    ensures
        r matches Err(e) ==> admitted_action(input.action_id@, input.approval_id@) == Err::<
            (RecipeModel, EventModel),
            Seq<char>,
        >(e@),
        r matches Ok((step, events, route)) ==> {
            &&& admitted_action(input.action_id@, input.approval_id@) matches Ok((m, start))
            &&& step@ == m
            &&& (route is Install <==> m.action_phase == ActionPhase::Install)
            &&& (route is ExternalFlow <==> m.action_phase == ActionPhase::ExternalFlow)
            &&& route is Install || route is ExternalFlow ==> event_models(events@) == seq![start]
            &&& route matches SetupRoute::Done(o) ==> {
                &&& o@ == planned_outcome(m)
                &&& event_models(events@) == seq![start, outcome_event(m.action_phase, o@)]
            }
        },
{
    let (step, started) = begin_setup_action(input)?;
    let mut events: Vec<SetupExecutionEvent> = Vec::new();
    events.push(started);
    if step.action_phase == ActionPhase::Install {
        proof {
            assert(event_models(events@) =~= seq![events@[0]@]);
        }
        Ok((step, events, SetupRoute::Install))
    } else if step.action_phase == ActionPhase::ExternalFlow {
        proof {
            assert(event_models(events@) =~= seq![events@[0]@]);
        }
        Ok((step, events, SetupRoute::ExternalFlow))
    } else {
        let outcome = execution_outcome_for(&step);
        let closing = closing_event(&step, &outcome);
        events.push(closing);
        proof {
            assert(event_models(events@) =~= seq![events@[0]@, events@[1]@]);
        }
        Ok((step, events, SetupRoute::Done(outcome)))
    }
}

} // verus!

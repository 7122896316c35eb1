use withgenie_setup::catalog::{find_allowed_command, ActionPhase, RecipeStep};
use withgenie_setup::diagnostics::{CheckStatus, CommandEvidence};
use withgenie_setup::execution::{
    begin_setup_action, closing_event, diagnostic_call, dispatch_setup_action, SetupRoute, execute_external_flow_action, execute_install_action,
    execution_event_from_outcome, execution_outcome_for, install_verification_command,
    login_flow_for, outcome_event_kind, settle_install_fallback, verify_after_install,
    ExecuteSetupActionInput, ExecutionStatus, InstallDirective, InstallEvent, VerifyDecision,
    COMMAND_TIMEOUT_SECONDS, EXECUTION_TIMEOUT_SECONDS,
};

fn recipe(id: &str) -> RecipeStep {
    find_allowed_command(id).expect("recipe should be allowlisted")
}

fn evidence(exit_code: Option<i32>, stdout: &str, stderr: &str) -> CommandEvidence {
    CommandEvidence {
        exit_code,
        duration_ms: 3,
        stdout_redacted: stdout.to_string(),
        stderr_redacted: stderr.to_string(),
    }
}

#[test]
fn timeouts_are_twelve_seconds_and_twenty_minutes() {
    assert_eq!(COMMAND_TIMEOUT_SECONDS, 12);
    assert_eq!(EXECUTION_TIMEOUT_SECONDS, 1200);
}

#[test]
fn install_on_another_system_is_blocked_without_events() {
    let step = recipe("node.install.windows.winget");
    let t = execute_install_action("linux", &step, InstallEvent::Begin);
    assert!(t.events.is_empty());
    match t.directive {
        InstallDirective::Finish(o) => {
            assert_eq!(o.status, ExecutionStatus::Blocked);
            assert_eq!(o.action_id, "node.install.windows.winget");
            assert_eq!(o.message_ko, "Node.js LTS 설치 항목은 현재 운영체제에서 실행할 수 없습니다.");
            assert_eq!(o.next_action_ko, "이 레시피는 windows 전용입니다. 현재 OS: linux");
            assert_eq!(o.command_preview.as_deref(), Some(step.command_preview));
        }
        _ => panic!("a foreign install must finish at once"),
    }
}

#[test]
fn install_begins_with_consent_event_and_runs_the_recipe() {
    let step = recipe("git.install.windows.winget");
    let t = execute_install_action("windows", &step, InstallEvent::Begin);
    assert_eq!(t.events.len(), 1);
    assert_eq!(t.events[0].status, ExecutionStatus::NeedsOsConsent);
    assert_eq!(t.events[0].kind, "system");
    assert_eq!(
        t.events[0].message_ko,
        "Git for Windows 설치 설치를 시작합니다. 권한 창이 뜨면 사용자가 직접 '예'를 눌러주세요."
    );
    match t.directive {
        InstallDirective::RunInstall(call) => {
            assert_eq!(call.program, "winget");
            assert_eq!(call.args, step.args);
            assert_eq!(call.timeout_secs, EXECUTION_TIMEOUT_SECONDS);
        }
        _ => panic!("install should run next"),
    }
}

#[test]
fn finished_install_reports_output_and_starts_verification() {
    let step = recipe("node.install.windows.winget");
    let t = execute_install_action(
        "windows",
        &step,
        InstallEvent::InstallFinished(evidence(Some(0), "\nSuccessfully installed\n", "warning: slow mirror")),
    );
    assert_eq!(t.events.len(), 3);
    assert_eq!((t.events[0].kind, t.events[0].message_ko.as_str()), ("stdout", "Successfully installed"));
    assert_eq!(t.events[0].status, ExecutionStatus::Running);
    assert_eq!((t.events[1].kind, t.events[1].message_ko.as_str()), ("stderr", "warning: slow mirror"));
    assert_eq!(t.events[2].status, ExecutionStatus::Verifying);
    assert_eq!(t.events[2].message_ko, "설치 완료 후 node.version 검증을 시작합니다.");
    assert_eq!(t.events[2].command_preview.as_deref(), Some("node.version"));
    assert!(matches!(t.directive, InstallDirective::Verify));
}

#[test]
fn blank_install_output_falls_back_to_a_fixed_line() {
    let step = recipe("gh.install.windows.winget");
    let t = execute_install_action(
        "windows",
        &step,
        InstallEvent::InstallFinished(evidence(Some(0), " \n ", "")),
    );
    assert_eq!(t.events.len(), 2);
    assert_eq!(t.events[0].message_ko, "설치 명령 출력을 받았습니다.");
    assert_eq!(t.events[1].message_ko, "설치 완료 후 gh.install.windows.winget 검증을 시작합니다.");
}

#[test]
fn failed_install_finishes_blocked_with_the_first_error_line() {
    let step = recipe("pnpm.install.windows.npm");
    let t = execute_install_action(
        "windows",
        &step,
        InstallEvent::InstallFinished(evidence(Some(1), "", "npm ERR! code EACCES\nmore")),
    );
    assert_eq!(t.events.len(), 1);
    match t.directive {
        InstallDirective::Finish(o) => {
            assert_eq!(o.status, ExecutionStatus::Blocked);
            assert_eq!(o.message_ko, "pnpm 설치 설치가 완료되지 않았습니다.");
            assert_eq!(o.next_action_ko, "설치 로그를 확인하세요: npm ERR! code EACCES");
        }
        _ => panic!("a failed install must finish"),
    }
}

#[test]
fn already_installed_package_goes_on_to_verification() {
    let step = recipe("git.install.windows.winget");
    let t = execute_install_action(
        "windows",
        &step,
        InstallEvent::InstallFinished(evidence(
            Some(-1978335189),
            "Found an existing package already installed.",
            "",
        )),
    );
    assert!(matches!(t.directive, InstallDirective::Verify));
}

#[test]
fn verified_install_is_done_with_the_version() {
    let step = recipe("node.install.windows.winget");
    let t = execute_install_action(
        "windows",
        &step,
        InstallEvent::Verified(CheckStatus::Installed, Some("v24.2.0".to_string()), evidence(Some(0), "v24.2.0", "")),
    );
    assert!(t.events.is_empty());
    match t.directive {
        InstallDirective::Finish(o) => {
            assert_eq!(o.status, ExecutionStatus::Done);
            assert_eq!(o.message_ko, "Node.js LTS 설치 설치와 검증이 완료되었습니다.");
            assert_eq!(o.next_action_ko, "검증 결과: v24.2.0. 다음 항목으로 계속 진행합니다.");
            assert_eq!(o.command_preview.as_deref(), Some(step.command_preview));
        }
        _ => panic!("verification ends the install"),
    }
}

#[test]
fn unverified_install_asks_for_a_restart() {
    let step = recipe("vercel.install.windows.npm");
    let t = execute_install_action(
        "windows",
        &step,
        InstallEvent::Verified(CheckStatus::NeedsRepair, None, evidence(Some(1), "", "")),
    );
    match t.directive {
        InstallDirective::Finish(o) => {
            assert_eq!(o.status, ExecutionStatus::NeedsReboot);
            assert_eq!(
                o.next_action_ko,
                "앱 또는 Windows를 다시 시작한 뒤 재진단하세요. 검증 로그: 설치 후 검증 명령이 아직 통과하지 않았습니다."
            );
        }
        _ => panic!("verification ends the install"),
    }
}

#[test]
fn verification_commands_follow_the_install_recipe() {
    let gh = install_verification_command(&recipe("gh.install.windows.winget")).expect("gh check");
    assert_eq!((gh.program, gh.args.clone(), gh.timeout_secs), ("gh", vec!["--version"], 12));
    let node = install_verification_command(&recipe("node.install.windows.winget")).expect("node check");
    assert_eq!((node.program, node.args.clone()), ("node", vec!["-v"]));
    let git = install_verification_command(&recipe("git.install.windows.winget")).expect("git check");
    assert_eq!((git.program, git.args.clone()), ("git", vec!["--version"]));
    assert_eq!(
        install_verification_command(&recipe("node.version")).err().as_deref(),
        Some("검증 레시피가 연결되지 않았습니다: node.version")
    );
}

#[test]
fn cli_installs_are_verified_by_their_version_output() {
    let step = recipe("gh.install.windows.winget");
    match verify_after_install("windows", &step, evidence(Some(0), "gh version 2.62.0\nhttps://x", "")) {
        Ok(VerifyDecision::Verified(status, version, _)) => {
            assert_eq!(status, CheckStatus::Installed);
            assert_eq!(version.as_deref(), Some("gh version 2.62.0"));
        }
        _ => panic!("gh is verified directly"),
    }
    match verify_after_install("windows", &step, evidence(Some(1), "gh version", "")) {
        Ok(VerifyDecision::Verified(status, version, _)) => {
            assert_eq!(status, CheckStatus::NeedsRepair);
            assert_eq!(version, None);
        }
        _ => panic!("gh is verified directly"),
    }
}

#[test]
fn allowlisted_installs_are_verified_by_their_detection_recipe() {
    let step = recipe("node.install.windows.winget");
    match verify_after_install("windows", &step, evidence(Some(0), "v20.11.0", "")) {
        Ok(VerifyDecision::Verified(status, version, _)) => {
            assert_eq!(status, CheckStatus::NeedsRepair);
            assert_eq!(version.as_deref(), Some("v20.11.0"));
        }
        _ => panic!("node is verified by node.version"),
    }
    assert_eq!(
        verify_after_install("windows", &recipe("node.version"), evidence(Some(0), "", "")).err().as_deref(),
        Some("검증 레시피가 연결되지 않았습니다: node.version")
    );
}

#[test]
fn git_install_falls_back_to_its_installed_path() {
    let step = recipe("git.install.windows.winget");
    match verify_after_install("windows", &step, evidence(None, "", "program not found")) {
        Ok(VerifyDecision::TryFallback(call, status, _, _)) => {
            assert_eq!(call.program, "C:\\Program Files\\Git\\cmd\\git.exe");
            assert_eq!(call.args, vec!["--version"]);
            assert_eq!(call.timeout_secs, COMMAND_TIMEOUT_SECONDS);
            assert_eq!(status, CheckStatus::Missing);
        }
        _ => panic!("git tries its installed path"),
    }
}

#[test]
fn fallback_result_decides_only_when_it_succeeds() {
    let first = evidence(None, "", "not found");
    let (status, version, ev) = settle_install_fallback(
        CheckStatus::Missing,
        None,
        first.clone(),
        evidence(Some(0), "git version 2.45.1.windows.1\n", ""),
    );
    assert_eq!(status, CheckStatus::Installed);
    assert_eq!(version.as_deref(), Some("git version 2.45.1.windows.1"));
    assert_eq!(ev.exit_code, Some(0));

    let (status, version, ev) =
        settle_install_fallback(CheckStatus::Missing, None, first, evidence(Some(1), "", "nope"));
    assert_eq!(status, CheckStatus::Missing);
    assert_eq!(version, None);
    assert_eq!(ev.stderr_redacted, "not found");
}

#[test]
fn opened_login_window_waits_for_browser_auth() {
    let step = recipe("gh.auth.login");
    let o = execute_external_flow_action(&step, &evidence(Some(0), "", "")).expect("login flow");
    assert_eq!(o.status, ExecutionStatus::NeedsBrowserAuth);
    assert_eq!(o.message_ko, "GitHub 브라우저 로그인 시작 창을 열었습니다.");
}

#[test]
fn login_window_that_fails_to_open_is_blocked_with_the_manual_command() {
    let step = recipe("vercel.login");
    let o = execute_external_flow_action(&step, &evidence(None, "", "  \nspawn failed: no terminal\n"))
        .expect("login flow");
    assert_eq!(o.status, ExecutionStatus::Blocked);
    assert_eq!(o.message_ko, "Vercel 브라우저 로그인 시작 창을 열지 못했습니다.");
    assert_eq!(
        o.next_action_ko,
        "공식 CLI 로그인 명령을 직접 실행해 주세요: vercel login. 오류: spawn failed: no terminal"
    );
    let silent = execute_external_flow_action(&step, &evidence(Some(2), "", "")).expect("login flow");
    assert_eq!(
        silent.next_action_ko,
        "공식 CLI 로그인 명령을 직접 실행해 주세요: vercel login. 오류: 로그인 창을 열 수 없습니다."
    );
}

#[test]
fn recipes_without_a_login_flow_are_refused() {
    let step = recipe("node.version");
    assert_eq!(
        execute_external_flow_action(&step, &evidence(Some(0), "", "")).err().as_deref(),
        Some("외부 로그인 실행 레시피가 연결되지 않았습니다: node.version")
    );
    assert_eq!(
        login_flow_for(&step).err().as_deref(),
        Some("외부 로그인 실행 레시피가 연결되지 않았습니다: node.version")
    );
    assert_eq!(login_flow_for(&recipe("vercel.login")).map(|f| f.verify_args), Ok(vec!["whoami"]));
}

#[test]
fn approvals_need_an_id_and_an_allowlisted_action() {
    let blank = ExecuteSetupActionInput { action_id: "node.version".to_string(), approval_id: "  \t".to_string() };
    assert_eq!(
        begin_setup_action(&blank).err().as_deref(),
        Some("승인 ID가 비어 있어 작업을 시작할 수 없습니다.")
    );
    let unknown = ExecuteSetupActionInput { action_id: "sh -c".to_string(), approval_id: "a1".to_string() };
    assert_eq!(begin_setup_action(&unknown).err().as_deref(), Some("허용되지 않은 작업 ID입니다: sh -c"));
    let ok = ExecuteSetupActionInput { action_id: "vercel.login".to_string(), approval_id: "a1".to_string() };
    let (step, started) = begin_setup_action(&ok).expect("allowlisted");
    assert_eq!(step.id, "vercel.login");
    assert_eq!(started.status, ExecutionStatus::Running);
    assert_eq!(started.kind, "system");
    assert_eq!(started.message_ko, "Vercel 브라우저 로그인 시작 작업을 allowlist에서 확인했습니다.");
    assert_eq!(started.command_preview.as_deref(), Some("vercel login"));
}

#[test]
fn failures_are_reported_on_the_error_stream() {
    assert_eq!(outcome_event_kind(ActionPhase::Install, ExecutionStatus::NeedsReboot), "stderr");
    assert_eq!(outcome_event_kind(ActionPhase::Install, ExecutionStatus::Blocked), "stderr");
    assert_eq!(outcome_event_kind(ActionPhase::Install, ExecutionStatus::Done), "system");
    assert_eq!(outcome_event_kind(ActionPhase::ExternalFlow, ExecutionStatus::NeedsReboot), "system");
    assert_eq!(outcome_event_kind(ActionPhase::Detect, ExecutionStatus::Blocked), "stderr");
    assert_eq!(outcome_event_kind(ActionPhase::ExternalFlow, ExecutionStatus::NeedsBrowserAuth), "system");
}

#[test]
fn planned_outcomes_follow_the_phase() {
    let install = recipe("pnpm.install.windows.npm");
    let o = execution_outcome_for(&install);
    assert_eq!(o.status, ExecutionStatus::NeedsUserConfirm);
    assert_eq!(o.message_ko, "pnpm 설치 설치를 시작할 준비가 되었습니다.");
    assert_eq!(o.next_action_ko, install.expected_permission_prompt_ko);
    assert_eq!(o.docs_url.as_deref(), Some(install.docs_url));

    let e = execution_event_from_outcome(&o, "system");
    assert_eq!(e.action_id, "pnpm.install.windows.npm");
    assert_eq!(e.status, ExecutionStatus::NeedsUserConfirm);
    assert_eq!(e.message_ko, o.message_ko);
    assert_eq!(e.command_preview, o.command_preview);
}

#[test]
fn diagnostics_run_the_recipe_command_under_the_short_limit() {
    let call = diagnostic_call(&recipe("windows.winget.version"));
    assert_eq!(call.program, "winget");
    assert_eq!(call.args, vec!["--version"]);
    assert_eq!(call.timeout_secs, COMMAND_TIMEOUT_SECONDS);
}

fn approval(action_id: &str) -> ExecuteSetupActionInput {
    ExecuteSetupActionInput { action_id: action_id.to_string(), approval_id: "card-1".to_string() }
}

#[test]
fn detection_action_ends_at_once_with_two_events() {
    let (step, events, route) = dispatch_setup_action(&approval("node.version")).expect("allowlisted");
    assert_eq!(step.id, "node.version");
    assert_eq!(events.len(), 2);
    assert_eq!((events[0].status, events[0].kind), (ExecutionStatus::Running, "system"));
    assert_eq!(events[0].message_ko, "Node.js 버전 확인 작업을 allowlist에서 확인했습니다.");
    match route {
        SetupRoute::Done(o) => {
            assert_eq!(o.status, ExecutionStatus::Blocked);
            assert_eq!(o.message_ko, "Node.js 버전 확인 항목은 현재 진단 전용 레시피입니다.");
            assert_eq!((events[1].status, events[1].kind), (ExecutionStatus::Blocked, "stderr"));
            assert_eq!(events[1].message_ko, o.message_ko);
            assert_eq!(events[1].action_id, "node.version");
        }
        _ => panic!("a detection runs nothing"),
    }
}

#[test]
fn install_and_login_actions_go_on_after_their_admission() {
    let (_, events, route) = dispatch_setup_action(&approval("git.install.windows.winget")).expect("allowlisted");
    assert_eq!(events.len(), 1);
    assert!(matches!(route, SetupRoute::Install));
    let (_, events, route) = dispatch_setup_action(&approval("gh.auth.login")).expect("allowlisted");
    assert_eq!(events.len(), 1);
    assert!(matches!(route, SetupRoute::ExternalFlow));
    assert_eq!(
        dispatch_setup_action(&approval("shell.raw")).err().as_deref(),
        Some("허용되지 않은 작업 ID입니다: shell.raw")
    );
}

#[test]
fn closing_events_use_the_kind_of_the_phase() {
    let step = recipe("node.install.windows.winget");
    let t = execute_install_action(
        "windows",
        &step,
        InstallEvent::Verified(CheckStatus::NeedsRepair, None, evidence(Some(1), "", "")),
    );
    let outcome = match t.directive {
        InstallDirective::Finish(o) => o,
        _ => panic!("verification ends the install"),
    };
    let e = closing_event(&step, &outcome);
    assert_eq!((e.status, e.kind), (ExecutionStatus::NeedsReboot, "stderr"));
    let login = recipe("vercel.login");
    let opened = execute_external_flow_action(&login, &evidence(Some(0), "", "")).expect("login flow");
    let e = closing_event(&login, &opened);
    assert_eq!((e.status, e.kind), (ExecutionStatus::NeedsBrowserAuth, "system"));
}

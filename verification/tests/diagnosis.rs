use std::collections::HashSet;

use withgenie_setup::catalog::{
    allowed_commands, find_allowed_command, ActionPhase, ClassRequirement, RecipeStep, RiskTier,
};
use withgenie_setup::commands::{command_label, command_preview_for, external_flow_command_for};
use withgenie_setup::diagnostics::{
    classify_result, diagnostic_plan, diagnostic_step_for, first_non_empty_line,
    evidence_of_run, install_output_indicates_existing_package, non_empty, run_result_for,
    sweep_checks, tool_check_for, CheckStatus, CommandEvidence, RunOutcome,
};
use withgenie_setup::plan::get_setup_plan;

fn recipe(id: &str) -> RecipeStep {
    find_allowed_command(id).expect("recipe should be allowlisted")
}

fn evidence(exit_code: Option<i32>, stdout: &str, stderr: &str) -> CommandEvidence {
    CommandEvidence {
        exit_code,
        duration_ms: 7,
        stdout_redacted: stdout.to_string(),
        stderr_redacted: stderr.to_string(),
    }
}

fn ids(steps: &[RecipeStep]) -> Vec<&'static str> {
    steps.iter().map(|s| s.id).collect()
}

#[test]
fn node_on_class_version_is_installed() {
    let (status, version, message, action) =
        classify_result("linux", &recipe("node.version"), &evidence(Some(0), "v24.1.0\n", ""));
    assert_eq!(status, CheckStatus::Installed);
    assert_eq!(version.as_deref(), Some("v24.1.0"));
    assert_eq!(message, "Node.js 버전 확인 준비되었습니다.");
    assert_eq!(action, "추가 조치가 필요하지 않습니다.");
}

#[test]
fn node_on_older_version_needs_repair() {
    let (status, version, message, action) =
        classify_result("windows", &recipe("node.version"), &evidence(Some(0), "  v22.3.0  ", ""));
    assert_eq!(status, CheckStatus::NeedsRepair);
    assert_eq!(version.as_deref(), Some("v22.3.0"));
    assert_eq!(message, "Node.js는 있지만 수업 기준인 v24 LTS가 아닙니다.");
    assert_eq!(action, "Node.js v24 LTS 설치 전략에 따라 복구하세요.");
}

#[test]
fn failed_optional_wsl_check_is_skipped() {
    let (status, version, message, _) =
        classify_result("windows", &recipe("wsl.status"), &evidence(Some(1), "", "not found"));
    assert_eq!(status, CheckStatus::OptionalSkipped);
    assert_eq!(version, None);
    assert_eq!(message, "WSL은 현재 선택 항목입니다. 필요한 수업에서만 준비하면 됩니다.");
}

#[test]
fn missing_tool_is_reported_from_stderr() {
    let (status, version, message, action) = classify_result(
        "linux",
        &recipe("git.version"),
        &evidence(None, "", "sh: git: command not found\n"),
    );
    assert_eq!(status, CheckStatus::Missing);
    assert_eq!(version, None);
    assert_eq!(message, "Git 확인이(가) 아직 설치되지 않았습니다.");
    assert_eq!(action, "설치 계획 화면의 안내를 따라 준비하세요.");
}

#[test]
fn other_failures_need_repair_and_keep_the_first_output_line() {
    let (status, version, message, action) = classify_result(
        "linux",
        &recipe("gh.auth.status"),
        &evidence(Some(1), "You are not logged in\nRun gh auth login", "permission denied"),
    );
    assert_eq!(status, CheckStatus::NeedsRepair);
    assert_eq!(version.as_deref(), Some("You are not logged in"));
    assert_eq!(message, "GitHub 로그인 확인 확인이 끝나지 않았습니다.");
    assert_eq!(action, "권한, 로그인, PATH 또는 네트워크 상태를 확인하세요.");
}

#[test]
fn macos_checks_are_required_only_on_macos() {
    assert!(ClassRequirement::RequiredOnMacos.is_required_on("macos"));
    assert!(!ClassRequirement::RequiredOnMacos.is_required_on("windows"));
    assert!(ClassRequirement::RequiredOnWindows.is_required_on("windows"));
    assert!(!ClassRequirement::RequiredOnWindows.is_required_on("linux"));
    assert!(ClassRequirement::Required.is_required_on("linux"));
    assert!(!ClassRequirement::Optional.is_required_on("macos"));
}

#[test]
fn non_empty_keeps_the_first_line() {
    assert_eq!(non_empty(""), None);
    assert_eq!(non_empty("git version 2.45.1\nextra").as_deref(), Some("git version 2.45.1"));
    assert_eq!(non_empty("\nsecond").as_deref(), Some(""));
}

#[test]
fn first_non_empty_line_skips_blank_lines_and_trims() {
    assert_eq!(first_non_empty_line("\n   \n  hello there  \nworld").as_deref(), Some("hello there"));
    assert_eq!(first_non_empty_line(" \n\t\n"), None);
    assert_eq!(first_non_empty_line(""), None);
}

#[test]
fn existing_package_messages_are_recognised_in_either_stream_and_any_case() {
    assert!(install_output_indicates_existing_package(&evidence(Some(1), "", "Package ALREADY INSTALLED")));
    assert!(install_output_indicates_existing_package(&evidence(
        Some(1),
        "No newer package versions are available from the configured sources.",
        ""
    )));
    assert!(!install_output_indicates_existing_package(&evidence(Some(1), "Installer failed", "0x80070005")));
}

#[test]
fn sweep_on_each_host_runs_required_and_platform_checks() {
    assert_eq!(
        ids(&diagnostic_plan("linux")),
        ["node.version", "npm.version", "pnpm.version", "git.version", "gh.auth.status", "vercel.whoami", "wsl.status"]
    );
    assert_eq!(
        ids(&diagnostic_plan("macos")),
        [
            "node.version", "npm.version", "pnpm.version", "git.version", "gh.auth.status",
            "vercel.whoami", "macos.version", "macos.clt", "brew.version", "wsl.status"
        ]
    );
    assert_eq!(
        ids(&diagnostic_plan("windows")),
        [
            "node.version", "npm.version", "pnpm.version", "git.version", "gh.auth.status",
            "vercel.whoami", "windows.winget.version", "wsl.status"
        ]
    );
}

#[test]
fn sweep_only_runs_safe_detection_recipes() {
    for os in ["linux", "macos", "windows", "freebsd"] {
        for step in diagnostic_plan(os) {
            assert_eq!(step.action_phase, ActionPhase::Detect);
            assert_eq!(step.risk_tier, RiskTier::Safe);
            assert!(!step.requires_consent);
        }
    }
}

#[test]
fn diagnostic_requests_refuse_unknown_and_consent_recipes() {
    assert_eq!(
        diagnostic_step_for("rm.everything").err().as_deref(),
        Some("허용되지 않은 명령 ID입니다: rm.everything")
    );
    assert_eq!(
        diagnostic_step_for("gh.auth.login").err().as_deref(),
        Some("이 명령은 브라우저 로그인 또는 사용자 동의가 필요합니다. UI 안내 버튼에서 별도 동의를 받은 뒤 실행해야 합니다.")
    );
    assert_eq!(diagnostic_step_for("node.version").map(|s| s.id), Ok("node.version"));
}

#[test]
fn tool_check_reports_the_recipe_and_its_reading() {
    let ev = evidence(Some(0), "14.5\n", "");
    let on_mac = tool_check_for("macos", &recipe("macos.version"), ev.clone());
    assert_eq!(on_mac.id, "macos.version");
    assert_eq!(on_mac.label, "macOS 버전 확인");
    assert!(on_mac.required_for_class);
    assert_eq!(on_mac.status, CheckStatus::Installed);
    assert_eq!(on_mac.detected_version.as_deref(), Some("14.5"));
    assert_eq!(on_mac.required_version.as_deref(), Some("14 이상"));
    assert_eq!(on_mac.verify_command_label, "sw_vers -productVersion");
    assert_eq!(on_mac.beginner_message, "macOS 버전 확인 준비되었습니다.");
    assert_eq!(on_mac.evidence.duration_ms, 7);
    assert_eq!(on_mac.links, vec![recipe("macos.version").docs_url.to_string()]);

    let elsewhere = tool_check_for("linux", &recipe("macos.version"), ev);
    assert!(!elsewhere.required_for_class);
}

#[test]
fn run_result_reports_the_recipe_and_its_reading() {
    let result = run_result_for("linux", &recipe("pnpm.version"), evidence(Some(0), "9.1.0", ""));
    assert_eq!(result.command_id, "pnpm.version");
    assert_eq!(result.command_label, "pnpm -v");
    assert_eq!(result.status, CheckStatus::Installed);
    assert_eq!(result.detected_version.as_deref(), Some("9.1.0"));
    assert_eq!(result.beginner_message, "pnpm 확인 준비되었습니다.");
    assert_eq!(result.evidence.stdout_redacted, "9.1.0");
}

#[test]
fn command_previews_join_program_and_arguments() {
    assert_eq!(command_preview_for("node", &vec![]), "node");
    assert_eq!(command_preview_for("gh", &vec!["auth", "status"]), "gh auth status");
    assert_eq!(command_label(&recipe("brew.version")), "brew --version");
}

#[test]
fn every_displayed_command_is_the_command_that_runs() {
    for step in allowed_commands() {
        assert_eq!(command_label(&step), step.command_preview);
    }
}

#[test]
fn recipe_ids_are_unique_and_each_finds_its_recipe() {
    let all = allowed_commands();
    let distinct: HashSet<&str> = all.iter().map(|s| s.id).collect();
    assert_eq!(distinct.len(), all.len());
    assert_eq!(all.len(), 18);
    for step in &all {
        assert_eq!(find_allowed_command(step.id).map(|s| s.command_preview), Some(step.command_preview));
    }
}

#[test]
fn recipe_kinds_keep_their_safety_promises() {
    for step in allowed_commands() {
        assert_eq!(step.requires_consent, step.action_phase != ActionPhase::Detect);
        match step.action_phase {
            ActionPhase::Detect => {
                assert_eq!(step.risk_tier, RiskTier::Safe);
                assert!(!step.requires_browser && !step.may_require_elevation);
            }
            ActionPhase::ExternalFlow => {
                assert_eq!(step.risk_tier, RiskTier::UserMediated);
                assert!(step.requires_browser);
            }
            ActionPhase::Install => assert_eq!(step.target_os, Some("windows")),
            _ => {}
        }
        for arg in &step.args {
            assert!(!matches!(*arg, "--github" | "--gitlab" | "--bitbucket" | "--oob" | "--token" | "--with-token"));
        }
    }
}

#[test]
fn login_launchers_run_exactly_the_login_recipes() {
    for step in allowed_commands() {
        match external_flow_command_for(step.id) {
            Some(flow) => {
                assert_eq!(step.action_phase, ActionPhase::ExternalFlow);
                assert_eq!(flow.program, step.program);
                assert_eq!(flow.args, step.args);
            }
            None => assert_ne!(step.action_phase, ActionPhase::ExternalFlow),
        }
    }
}

#[test]
fn plan_lists_every_recipe_for_the_host() {
    let plan = get_setup_plan("macos");
    assert_eq!(plan.current_os, "macos");
    assert_eq!(plan.steps.len(), 18);
    assert_eq!(plan.steps[0].id, "node.version");
    assert_eq!(plan.steps[0].verify_command_label, "node -v");
    let mac = plan.steps.iter().find(|s| s.id == "macos.clt").expect("macOS check listed");
    assert!(mac.required_for_class);
    let on_linux = get_setup_plan("linux");
    let mac_elsewhere = on_linux.steps.iter().find(|s| s.id == "macos.clt").expect("listed");
    assert!(!mac_elsewhere.required_for_class);
    assert_eq!(
        plan.forbidden_commands,
        [
            "vercel login --github",
            "vercel login --gitlab",
            "vercel login --bitbucket",
            "vercel login --oob",
            "--token",
            "sh -c",
            "cmd /C <user-input>"
        ]
    );
    assert_eq!(plan.security_notes[0], "이 프로그램은 비밀번호를 묻지 않습니다.");
    assert_eq!(plan.security_notes.len(), 4);
}

#[test]
fn wsl_is_installed_or_skipped_on_every_host() {
    for os in ["windows", "macos", "linux"] {
        let ok = classify_result(os, &recipe("wsl.status"), &evidence(Some(0), "Default Version: 2", ""));
        assert_eq!(ok.0, CheckStatus::Installed);
        let missing = classify_result(os, &recipe("wsl.status"), &evidence(None, "", "No such file"));
        assert_eq!(missing.0, CheckStatus::OptionalSkipped);
    }
}

#[test]
fn node_passes_only_on_the_class_line() {
    for (out, status) in [
        ("v24.0.0", CheckStatus::Installed),
        ("  v24.15.0\n", CheckStatus::Installed),
        ("v240.1.0", CheckStatus::NeedsRepair),
        ("v22.11.0", CheckStatus::NeedsRepair),
        ("", CheckStatus::NeedsRepair),
    ] {
        let (got, _, _, _) = classify_result("windows", &recipe("node.version"), &evidence(Some(0), out, ""));
        assert_eq!(got, status, "{out:?}");
    }
}

#[test]
fn sweep_reports_each_planned_check_in_order() {
    let plan = diagnostic_plan("windows");
    let runs: Vec<CommandEvidence> = plan
        .iter()
        .map(|step| {
            if step.id == "git.version" {
                evidence(None, "", "'git' is not recognized; not found")
            } else if step.id == "node.version" {
                evidence(Some(0), "v24.3.0", "")
            } else {
                evidence(Some(0), "ok", "")
            }
        })
        .collect();
    let checks = sweep_checks("windows", runs);
    assert_eq!(checks.iter().map(|c| c.id.as_str()).collect::<Vec<_>>(), ids(&plan));
    for (c, step) in checks.iter().zip(plan.iter()) {
        assert_eq!(c.verify_command_label, command_label(step));
    }
    let git = checks.iter().find(|c| c.id == "git.version").expect("git checked");
    assert_eq!(git.status, CheckStatus::Missing);
    assert_eq!(checks[0].detected_version.as_deref(), Some("v24.3.0"));
    let winget = checks.iter().find(|c| c.id == "windows.winget.version").expect("winget checked");
    assert!(winget.required_for_class);
    assert!(!checks.iter().any(|c| c.id == "gh.auth.login" || c.id == "vercel.login"));
}

#[test]
fn run_outcomes_become_evidence() {
    let e = evidence_of_run(RunOutcome::Exited(Some(0), "v24.1.0".to_string(), String::new()), 12);
    assert_eq!((e.exit_code, e.duration_ms, e.stdout_redacted.as_str(), e.stderr_redacted.as_str()), (Some(0), 12, "v24.1.0", ""));
    let e = evidence_of_run(RunOutcome::SpawnFailed("program not found".to_string()), 3);
    assert_eq!((e.exit_code, e.stdout_redacted.as_str(), e.stderr_redacted.as_str()), (None, "", "program not found"));
    let e = evidence_of_run(RunOutcome::WaitFailed("broken pipe".to_string()), 4);
    assert_eq!((e.exit_code, e.stderr_redacted.as_str()), (None, "broken pipe"));
    let e = evidence_of_run(RunOutcome::TimedOut, 12000);
    assert_eq!((e.exit_code, e.duration_ms), (None, 12000));
    assert_eq!(e.stderr_redacted, "명령 시간이 초과되어 안전하게 중단했습니다.");
}

use withgenie_setup::catalog::{find_allowed_command, ActionPhase, ElevationMethod, RiskTier};
use withgenie_setup::commands::{execution_verify_step_id, external_flow_command_for};
use withgenie_setup::diagnostics::{install_output_indicates_existing_package, CommandEvidence};
use withgenie_setup::execution::{execution_outcome_for, ExecutionStatus};
use withgenie_setup::redaction::redact;
use withgenie_setup::report::{
    build_handoff_packet, build_health_report, ApprovalCardInput, HandoffPacketInput,
    HealthReportInput, MachineInfo, NetworkInfo,
};
use withgenie_setup::NATIVE_MENU_LABELS_KO;

fn test_machine() -> MachineInfo {
    MachineInfo {
        os: "linux".to_string(),
        os_version: "unknown".to_string(),
        build_number: None,
        arch: "x86_64".to_string(),
        shell: "/bin/sh".to_string(),
        network: NetworkInfo {
            status: "unknown",
            blocked_hosts: vec![],
        },
    }
}

#[test]
fn unknown_command_is_not_allowed() {
    assert!(find_allowed_command("vercel.login.--github").is_none());
    assert!(find_allowed_command("shell.raw").is_none());
}

#[test]
fn vercel_login_has_no_deprecated_provider_flags() {
    let step = find_allowed_command("vercel.login").expect("vercel login should exist");
    assert_eq!(step.args, &["login"]);
    assert!(!step.args.iter().any(|arg| matches!(
        *arg,
        "--github" | "--gitlab" | "--bitbucket" | "--oob" | "--token"
    )));
}

#[test]
fn github_login_uses_browser_clipboard_flow_without_prompting_for_tokens() {
    let step = find_allowed_command("gh.auth.login").expect("GitHub login should exist");

    assert_eq!(step.program, "gh");
    assert!(step.args.contains(&"--web"));
    assert!(step.args.contains(&"--clipboard"));
    assert!(step.args.contains(&"--hostname"));
    assert!(step.args.contains(&"github.com"));
    assert!(step.args.contains(&"--git-protocol"));
    assert!(step.args.contains(&"https"));
    assert!(!step.args.contains(&"--with-token"));
}

#[test]
fn external_login_flows_have_launcher_commands_and_verify_steps() {
    let github = external_flow_command_for("gh.auth.login")
        .expect("GitHub external flow should have a launcher command");
    assert_eq!(github.program, "gh");
    assert_eq!(github.verify_program, "gh");
    assert_eq!(github.verify_args, ["auth", "status"]);

    let vercel = external_flow_command_for("vercel.login")
        .expect("Vercel external flow should have a launcher command");
    assert_eq!(vercel.program, "vercel");
    assert_eq!(vercel.args, ["login"]);
    assert_eq!(vercel.verify_program, "vercel");
    assert_eq!(vercel.verify_args, ["whoami"]);
}

#[test]
fn redacts_sensitive_values() {
    let sample = "token=ghp_abcdefghijklmnopqrstuvwxyz user=a@example.com path=/Users/genie code: ABCD-1234";
    let redacted = redact(sample).expect("redaction rules compile");
    assert!(redacted.contains("[REDACTED_TOKEN]"));
    assert!(redacted.contains("[REDACTED_EMAIL]"));
    assert!(redacted.contains("/Users/[REDACTED_USER]"));
    assert!(redacted.contains("[REDACTED_CODE]"));
    assert!(!redacted.contains("a@example.com"));
}

#[test]
fn health_report_marks_redaction_applied() {
    let report = build_health_report(HealthReportInput { checks: vec![] }, test_machine());
    assert!(report.redaction.applied);
    assert_eq!(report.schema_version, "0.1.0");
}

#[test]
fn consent_recipes_are_user_mediated_external_flows() {
    let gh = find_allowed_command("gh.auth.login").expect("GitHub login recipe should exist");
    let vercel = find_allowed_command("vercel.login").expect("Vercel login recipe should exist");

    assert_eq!(gh.risk_tier, RiskTier::UserMediated);
    assert_eq!(gh.action_phase, ActionPhase::ExternalFlow);
    assert_eq!(vercel.risk_tier, RiskTier::UserMediated);
    assert_eq!(vercel.action_phase, ActionPhase::ExternalFlow);
}

#[test]
fn diagnostic_recipes_are_safe_detect_actions() {
    let node = find_allowed_command("node.version").expect("Node version recipe should exist");
    assert_eq!(node.risk_tier, RiskTier::Safe);
    assert_eq!(node.action_phase, ActionPhase::Detect);
    assert!(!node.requires_consent);
}

#[test]
fn windows_git_install_recipe_requires_explicit_os_consent() {
    let git_install = find_allowed_command("git.install.windows.winget")
        .expect("Windows Git install recipe should exist");

    assert_eq!(git_install.target_os, Some("windows"));
    assert_eq!(git_install.risk_tier, RiskTier::PermissionPrompt);
    assert_eq!(git_install.action_phase, ActionPhase::Install);
    assert!(git_install.requires_consent);
    assert!(git_install.may_require_elevation);
    assert_eq!(execution_verify_step_id(git_install.id), Some("git.version"));
    assert!(git_install.command_preview.contains("winget install"));
    assert!(git_install.expected_permission_prompt_ko.contains("UAC"));
}

#[test]
fn winget_existing_package_output_allows_verification_instead_of_blocking() {
    let evidence = CommandEvidence {
        exit_code: Some(1),
        duration_ms: 42,
        stdout_redacted: "Found an existing package already installed. Trying to upgrade the installed package...".to_string(),
        stderr_redacted: String::new(),
    };

    assert!(install_output_indicates_existing_package(&evidence));
}

#[test]
fn windows_one_click_install_recipes_have_safe_verification_targets() {
    let node_install = find_allowed_command("node.install.windows.winget")
        .expect("Windows Node install recipe should exist");
    let pnpm_install = find_allowed_command("pnpm.install.windows.npm")
        .expect("Windows pnpm install recipe should exist");
    let gh_install = find_allowed_command("gh.install.windows.winget")
        .expect("Windows GitHub CLI install recipe should exist");
    let vercel_install = find_allowed_command("vercel.install.windows.npm")
        .expect("Windows Vercel CLI install recipe should exist");

    assert_eq!(execution_verify_step_id(node_install.id), Some("node.version"));
    assert_eq!(execution_verify_step_id(pnpm_install.id), Some("pnpm.version"));
    assert!(node_install.command_preview.contains("OpenJS.NodeJS.LTS"));
    assert!(gh_install.command_preview.contains("GitHub.cli"));
    assert!(vercel_install.command_preview.contains("vercel@latest"));
    assert_eq!(pnpm_install.requires_elevation_method, ElevationMethod::NoElevation);
    assert_eq!(vercel_install.requires_elevation_method, ElevationMethod::NoElevation);
}

#[test]
fn detect_recipe_execution_is_blocked_until_install_recipe_exists() {
    let node = find_allowed_command("node.version").expect("Node version recipe should exist");
    let outcome = execution_outcome_for(&node);

    assert_eq!(outcome.status, ExecutionStatus::Blocked);
    assert!(outcome.next_action_ko.contains("설치/복구 레시피가 연결되기 전"));
}

#[test]
fn external_flow_execution_requires_browser_auth() {
    let vercel = find_allowed_command("vercel.login").expect("Vercel login recipe should exist");
    let outcome = execution_outcome_for(&vercel);

    assert_eq!(outcome.status, ExecutionStatus::NeedsBrowserAuth);
    assert_eq!(outcome.command_preview.as_deref(), Some("vercel login"));
}

#[test]
fn handoff_packet_preserves_redaction_contract() {
    let packet = build_handoff_packet(HandoffPacketInput {
        checks: vec![],
        approval_cards: vec![ApprovalCardInput {
            id: "node.version".to_string(),
            label: "Node.js 버전 확인".to_string(),
            decision: "ask_instructor".to_string(),
            reason_ko: "설치가 필요합니다.".to_string(),
        }],
    });

    assert!(packet.redaction.applied);
    assert!(packet.next_action_ko.contains("강사 도움 요청"));
}

#[test]
fn native_menu_labels_are_korean() {
    assert_eq!(NATIVE_MENU_LABELS_KO, ["파일", "편집", "보기", "창", "도움말"]);
    assert!(!NATIVE_MENU_LABELS_KO
        .iter()
        .any(|label| matches!(*label, "File" | "Edit" | "View" | "Window" | "Help")));
}

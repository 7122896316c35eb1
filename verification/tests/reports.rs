use withgenie_setup::diagnostics::{CheckStatus, CommandEvidence, ToolCheck};
use withgenie_setup::redaction::{preview_redaction, redact};
use withgenie_setup::report::{
    build_handoff_packet, build_health_report, summarize, timestamp_at, timestamp_now, UNKNOWN_TIME, ApprovalCardInput, HandoffPacketInput,
    HealthReportInput, MachineInfo, NetworkInfo, APP_VERSION, RECIPE_VERSION,
};

fn check(id: &str, required: bool, status: CheckStatus, exit_code: Option<i32>) -> ToolCheck {
    ToolCheck {
        id: id.to_string(),
        label: id.to_string(),
        required_for_class: required,
        status,
        detected_version: None,
        required_version: None,
        verify_command_label: format!("{id} --version"),
        beginner_message: format!("{id} 메시지"),
        support_action: String::new(),
        evidence: CommandEvidence {
            exit_code,
            duration_ms: 15,
            stdout_redacted: String::new(),
            stderr_redacted: String::new(),
        },
        links: vec![],
    }
}

fn card(decision: &str) -> ApprovalCardInput {
    ApprovalCardInput {
        id: "git.install.windows.winget".to_string(),
        label: "Git for Windows 설치".to_string(),
        decision: decision.to_string(),
        reason_ko: String::new(),
    }
}

fn machine() -> MachineInfo {
    MachineInfo {
        os: "windows".to_string(),
        os_version: "Microsoft Windows [Version 10.0.22631]".to_string(),
        build_number: None,
        arch: "x86_64".to_string(),
        shell: "C:\\Windows\\system32\\cmd.exe".to_string(),
        network: NetworkInfo { status: "unknown", blocked_hosts: vec![] },
    }
}

#[test]
fn all_required_installed_is_ready_for_class() {
    let checks = vec![
        check("node.version", true, CheckStatus::Installed, Some(0)),
        check("git.version", true, CheckStatus::Installed, Some(0)),
        check("wsl.status", false, CheckStatus::OptionalSkipped, Some(1)),
    ];
    let s = summarize(&checks);
    assert_eq!(s.class_readiness, "ready_for_class");
    assert_eq!((s.required_passed, s.required_total), (2, 2));
    assert!(!s.needs_instructor_help);
    assert_eq!(s.beginner_message, "수업에 필요한 기본 도구가 준비되었습니다.");
    assert_eq!(s.instructor_message, "필수 항목 통과, WSL은 선택 항목입니다.");
}

#[test]
fn missing_required_tool_needs_attention() {
    let checks = vec![
        check("node.version", true, CheckStatus::Installed, Some(0)),
        check("git.version", true, CheckStatus::Missing, None),
    ];
    let s = summarize(&checks);
    assert_eq!(s.class_readiness, "needs_attention");
    assert_eq!((s.required_passed, s.required_total), (1, 2));
    assert!(s.needs_instructor_help);
    assert_eq!(s.beginner_message, "몇 가지 항목을 더 준비해야 합니다.");
    assert_eq!(s.instructor_message, "복구 필요 또는 설치 필요 항목을 확인하세요.");
}

#[test]
fn required_tool_that_was_skipped_still_needs_attention() {
    let s = summarize(&vec![check("node.version", true, CheckStatus::OptionalSkipped, Some(1))]);
    assert_eq!(s.class_readiness, "needs_attention");
    assert_eq!((s.required_passed, s.required_total), (0, 1));
}

#[test]
fn any_blocked_or_unsupported_check_blocks_the_class() {
    let checks = vec![
        check("node.version", true, CheckStatus::Installed, Some(0)),
        check("wsl.status", false, CheckStatus::Unsupported, None),
    ];
    let s = summarize(&checks);
    assert_eq!(s.class_readiness, "blocked");
    assert!(s.needs_instructor_help);
    assert_eq!(s.beginner_message, "강사 또는 조교의 도움이 필요합니다.");
    assert_eq!(s.instructor_message, "차단되었거나 지원 불가인 항목을 먼저 확인하세요.");
    assert_eq!(summarize(&vec![check("x", true, CheckStatus::Blocked, None)]).class_readiness, "blocked");
}

#[test]
fn no_checks_are_ready() {
    let s = summarize(&vec![]);
    assert_eq!(s.class_readiness, "ready_for_class");
    assert_eq!((s.required_passed, s.required_total), (0, 0));
}

#[test]
fn passed_required_checks_never_exceed_required_ones() {
    let checks = vec![
        check("a", true, CheckStatus::Installed, Some(0)),
        check("b", false, CheckStatus::Installed, Some(0)),
        check("c", true, CheckStatus::NeedsRepair, Some(1)),
        check("d", false, CheckStatus::NeedsRestart, None),
    ];
    let s = summarize(&checks);
    assert_eq!((s.required_passed, s.required_total), (1, 2));
    assert!(s.required_passed <= s.required_total && s.required_total <= checks.len());
}

#[test]
fn health_report_logs_every_check() {
    let checks = vec![
        check("node.version", true, CheckStatus::Installed, Some(0)),
        check("wsl.status", false, CheckStatus::OptionalSkipped, Some(1)),
        check("git.version", true, CheckStatus::Missing, None),
    ];
    let report = build_health_report(HealthReportInput { checks }, machine());
    assert_eq!(report.schema_version, "0.1.0");
    assert_eq!(report.app.name, "위드지니 셋업");
    assert_eq!(report.app.version, APP_VERSION);
    assert_eq!(report.app.recipe_version, RECIPE_VERSION);
    assert_eq!(RECIPE_VERSION, "2026.05.01");
    assert_eq!(report.app.distribution_channel, "public_github");
    assert_eq!(report.machine.os, "windows");
    assert_eq!(report.summary.class_readiness, "needs_attention");
    assert_eq!(report.checks.len(), 3);
    let statuses: Vec<&str> = report.execution_log.iter().map(|e| e.status).collect();
    assert_eq!(statuses, ["passed", "passed", "failed"]);
    assert_eq!(report.execution_log[2].step_id, "git.version");
    assert_eq!(report.execution_log[2].command_label, "git.version --version");
    assert_eq!(report.execution_log[2].exit_code, None);
    assert_eq!(report.execution_log[0].exit_code, Some(0));
    assert_eq!(report.execution_log[0].duration_ms, 15);
    assert_eq!(report.execution_log[1].message_redacted, "wsl.status 메시지");
    assert_eq!(report.resume_state.last_completed_step, "diagnostics");
    assert_eq!(report.resume_state.next_action, "follow_support_action_or_start_lesson");
    assert!(!report.resume_state.requires_restart);
    assert_eq!(
        report.redaction.masked_fields,
        ["token_like_strings", "password_like_values", "email_addresses", "home_paths", "oauth_device_codes"]
    );
    assert_eq!(report.redaction.rules_version, "0.1.0");
    assert!(!report.generated_at.is_empty());
}

#[test]
fn handoff_points_at_help_requests_first() {
    let packet = build_handoff_packet(HandoffPacketInput {
        checks: vec![check("git.version", true, CheckStatus::Missing, None)],
        approval_cards: vec![card("approve"), card("ask_instructor")],
    });
    assert_eq!(packet.next_action_ko, "승인 큐에서 강사 도움 요청으로 표시된 항목을 먼저 확인하세요.");
    assert_eq!(packet.student_summary_ko, "몇 가지 항목을 더 준비해야 합니다.");
    assert_eq!(packet.instructor_summary_ko, "복구 필요 또는 설치 필요 항목을 확인하세요.");
    assert_eq!(packet.approval_cards.len(), 2);
}

#[test]
fn handoff_points_at_failed_checks_without_help_requests() {
    let packet = build_handoff_packet(HandoffPacketInput {
        checks: vec![
            check("node.version", true, CheckStatus::Installed, Some(0)),
            check("wsl.status", false, CheckStatus::Missing, Some(1)),
        ],
        approval_cards: vec![card("approve")],
    });
    assert_eq!(packet.next_action_ko, "실패한 항목의 support_action과 redacted evidence를 확인하세요.");
    assert_eq!(packet.student_summary_ko, "몇 가지 항목을 더 준비해야 합니다.");
}

#[test]
fn handoff_reports_ready_when_everything_passed() {
    let packet = build_handoff_packet(HandoffPacketInput {
        checks: vec![
            check("node.version", true, CheckStatus::Installed, Some(0)),
            check("wsl.status", false, CheckStatus::OptionalSkipped, Some(1)),
        ],
        approval_cards: vec![],
    });
    assert_eq!(packet.next_action_ko, "필수 항목이 준비되었습니다.");
    assert!(packet.redaction.applied);
    assert_eq!(packet.checks.len(), 2);
}

#[test]
fn redaction_masks_each_kind_of_secret() {
    assert_eq!(
        redact("token GHO_abcdefghijklmnopqrstuvwxyz0123 end").as_deref(),
        Some("token [REDACTED_TOKEN] end")
    );
    assert_eq!(
        redact("vercel_ABCDEFGHIJKLMNOPQRSTUVWX").as_deref(),
        Some("[REDACTED_TOKEN]")
    );
    assert_eq!(redact("pwd: hunter2 next").as_deref(), Some("pwd=[REDACTED_PASSWORD] next"));
    assert_eq!(
        redact("Contact Genie.Kim@Example.COM today").as_deref(),
        Some("Contact [REDACTED_EMAIL] today")
    );
    assert_eq!(redact("/Users/genie/projects").as_deref(), Some("/Users/[REDACTED_USER]/projects"));
    assert_eq!(
        redact("C:\\Users\\genie\\AppData").as_deref(),
        Some("C:\\Users\\[REDACTED_USER]\\AppData")
    );
    assert_eq!(redact("device code: WXYZ-9876").as_deref(), Some("device code=[REDACTED_CODE]"));
}

#[test]
fn redaction_trims_and_keeps_plain_text() {
    assert_eq!(redact("  v24.1.0\n").as_deref(), Some("v24.1.0"));
    assert_eq!(redact("").as_deref(), Some(""));
    assert_eq!(
        preview_redaction("  my password=secret123  ".to_string()).as_deref(),
        Some("my password=[REDACTED_PASSWORD]")
    );
}

#[test]
fn optional_check_that_needs_repair_or_restart_needs_attention() {
    for status in [CheckStatus::NeedsRepair, CheckStatus::NeedsRestart, CheckStatus::Missing] {
        let checks = vec![
            check("node.version", true, CheckStatus::Installed, Some(0)),
            check("wsl.status", false, status, Some(1)),
        ];
        let s = summarize(&checks);
        assert_eq!(s.class_readiness, "needs_attention", "{status:?}");
        assert!(s.needs_instructor_help);
        assert_eq!((s.required_passed, s.required_total), (1, 1));
        assert_eq!(s.beginner_message, "몇 가지 항목을 더 준비해야 합니다.");
    }
}

#[test]
fn optional_installed_or_skipped_keeps_the_class_ready() {
    for status in [CheckStatus::Installed, CheckStatus::OptionalSkipped] {
        let checks = vec![
            check("git.version", true, CheckStatus::Installed, Some(0)),
            check("wsl.status", false, status, Some(0)),
        ];
        assert_eq!(summarize(&checks).class_readiness, "ready_for_class");
    }
}

#[test]
fn time_stamps_are_rfc3339_text() {
    let t = timestamp_now();
    assert_ne!(t, UNKNOWN_TIME);
    assert!(chrono::DateTime::parse_from_rfc3339(&t).is_ok(), "{t}");
    let report = build_health_report(
        HealthReportInput { checks: vec![check("node.version", true, CheckStatus::Installed, Some(0))] },
        machine(),
    );
    assert!(chrono::DateTime::parse_from_rfc3339(&report.generated_at).is_ok());
    assert!(chrono::DateTime::parse_from_rfc3339(&report.execution_log[0].timestamp).is_ok());
}

#[test]
fn clock_readings_become_rfc3339_text_or_unknown() {
    assert_eq!(timestamp_at(0, 0), "1970-01-01T00:00:00+00:00");
    assert_eq!(timestamp_at(86_400, 0), "1970-01-02T00:00:00+00:00");
    assert_eq!(timestamp_at(1_000_000_000, 500_000_000), "2001-09-09T01:46:40.500+00:00");
    assert_eq!(timestamp_at(u64::MAX, 0), UNKNOWN_TIME);
    assert_eq!(timestamp_at(1 << 62, 0), UNKNOWN_TIME);
    assert_eq!(timestamp_at(1, 2_000_000_000), UNKNOWN_TIME);
}

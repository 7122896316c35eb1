//! The class-readiness summary, the health report and the packet handed to
//! the instructor.
use vstd::prelude::*;

use crate::diagnostics::{CheckStatus, ToolCheck};
use crate::text::same_text;

verus! {

/// Whether the class can start, as the report states it.
pub struct ReportSummary {
    pub class_readiness: &'static str,
    pub required_passed: usize,
    pub required_total: usize,
    pub needs_instructor_help: bool,
    pub beginner_message: String,
    pub instructor_message: String,
}

/// Number of checks that are required for class.
pub open spec fn count_required(checks: Seq<ToolCheck>) -> nat
    decreases checks.len(),
{
    if checks.len() == 0 {
        0
    } else {
        count_required(checks.drop_last()) + if checks.last().required_for_class {
            1nat
        } else {
            0nat
        }
    }
}

/// Number of checks that are required for class and passed.
pub open spec fn count_required_passed(checks: Seq<ToolCheck>) -> nat
    decreases checks.len(),
{
    if checks.len() == 0 {
        0
    } else {
        count_required_passed(checks.drop_last()) + if checks.last().required_for_class
            && checks.last().status == CheckStatus::Installed {
            1nat
        } else {
            0nat
        }
    }
}

/// The status stops the class until someone helps.
pub open spec fn is_blocker(s: CheckStatus) -> bool {
    s == CheckStatus::Blocked || s == CheckStatus::Unsupported
}

/// The status of a required tool asks for more preparation.
pub open spec fn needs_preparation(s: CheckStatus) -> bool {
    s == CheckStatus::Missing || s == CheckStatus::NeedsRepair || s == CheckStatus::NeedsRestart
}

/// Some check is blocked or unsupported.
pub open spec fn has_blocker(checks: Seq<ToolCheck>) -> bool {
    exists|i: int| 0 <= i < checks.len() && is_blocker(#[trigger] checks[i].status)
}

/// The check keeps the class from being ready: a required tool is missing or
/// needs repair or a restart, and an optional tool is neither installed nor
/// skipped (so in particular it is not ready when it needs repair or a
/// restart).
pub open spec fn unsettled(c: ToolCheck) -> bool {
    if c.required_for_class {
        needs_preparation(c.status)
    } else {
        !(c.status == CheckStatus::Installed || c.status == CheckStatus::OptionalSkipped)
    }
}

/// Some check is unsettled.
pub open spec fn has_attention(checks: Seq<ToolCheck>) -> bool {
    exists|i: int| 0 <= i < checks.len() && unsettled(#[trigger] checks[i])
}

/// The readiness that the checks amount to.
pub open spec fn readiness(checks: Seq<ToolCheck>) -> Seq<char> {
    if has_blocker(checks) {
        "blocked"@
    } else if has_attention(checks) || count_required_passed(checks) < count_required(checks) {
        "needs_attention"@
    } else {
        "ready_for_class"@
    }
}

/// The message for the student that goes with the readiness of the checks.
pub open spec fn beginner_message_for(checks: Seq<ToolCheck>) -> Seq<char> {
    if has_blocker(checks) {
        "강사 또는 조교의 도움이 필요합니다."@
    } else if has_attention(checks) || count_required_passed(checks) < count_required(checks) {
        "몇 가지 항목을 더 준비해야 합니다."@
    } else {
        "수업에 필요한 기본 도구가 준비되었습니다."@
    }
}

/// The message for the instructor that goes with the readiness of the checks.
pub open spec fn instructor_message_for(checks: Seq<ToolCheck>) -> Seq<char> {
    if has_blocker(checks) {
        "차단되었거나 지원 불가인 항목을 먼저 확인하세요."@
    } else if has_attention(checks) || count_required_passed(checks) < count_required(checks) {
        "복구 필요 또는 설치 필요 항목을 확인하세요."@
    } else {
        "필수 항목 통과, WSL은 선택 항목입니다."@
    }
}

/// The summary says what the checks amount to, with the messages of that
/// readiness; help is needed unless the class is ready.
pub open spec fn summarizes(s: ReportSummary, checks: Seq<ToolCheck>) -> bool {
    &&& s.required_total == count_required(checks)
    &&& s.required_passed == count_required_passed(checks)
    &&& s.class_readiness@ == readiness(checks)
    &&& s.needs_instructor_help == (readiness(checks) != "ready_for_class"@)
    &&& s.beginner_message@ == beginner_message_for(checks)
    &&& s.instructor_message@ == instructor_message_for(checks)
}

/// Passed required checks are among the required ones.
pub proof fn lemma_passed_at_most_required(checks: Seq<ToolCheck>)
    ensures
        count_required_passed(checks) <= count_required(checks) <= checks.len(),
    decreases checks.len(),
{
    if checks.len() > 0 {
        lemma_passed_at_most_required(checks.drop_last());
    }
}

/// The summary counts are the numbers of required checks, and of required
/// checks that are installed, among all the checks.
pub proof fn lemma_required_counts(checks: Seq<ToolCheck>)
    ensures
        count_required(checks) == checks.filter(|c: ToolCheck| c.required_for_class).len(),
        count_required_passed(checks) == checks.filter(
            |c: ToolCheck| c.required_for_class && c.status == CheckStatus::Installed,
        ).len(),
    decreases checks.len(),
{
    if checks.len() > 0 {
        let init = checks.drop_last();
        lemma_required_counts(init);
        assert(checks =~= init.push(checks.last()));
        init.lemma_filter_push(checks.last(), |c: ToolCheck| c.required_for_class);
        init.lemma_filter_push(
            checks.last(),
            |c: ToolCheck| c.required_for_class && c.status == CheckStatus::Installed,
        );
    } else {
        assert(checks.filter(|c: ToolCheck| c.required_for_class) =~= Seq::<ToolCheck>::empty());
        assert(checks.filter(
            |c: ToolCheck| c.required_for_class && c.status == CheckStatus::Installed,
        ) =~= Seq::<ToolCheck>::empty());
    }
}

/// Every required check passed exactly when the count of passed required
/// checks reaches the count of required ones.
pub proof fn lemma_all_required_passed(checks: Seq<ToolCheck>)
    ensures
        (count_required_passed(checks) == count_required(checks)) <==> (forall|i: int|
            0 <= i < checks.len() && (#[trigger] checks[i]).required_for_class ==> checks[i].status
                == CheckStatus::Installed),
    decreases checks.len(),
{
    if checks.len() > 0 {
        let init = checks.drop_last();
        lemma_all_required_passed(init);
        lemma_passed_at_most_required(init);
        assert forall|i: int| 0 <= i < init.len() implies #[trigger] init[i] == checks[i] by {}
        if count_required_passed(checks) == count_required(checks) {
            assert forall|i: int|
                0 <= i < checks.len() && (#[trigger] checks[i]).required_for_class implies checks[i].status
                == CheckStatus::Installed by {
                if i < init.len() {
                    assert(init[i] == checks[i]);
                }
            }
        }
        if forall|i: int|
            0 <= i < checks.len() && (#[trigger] checks[i]).required_for_class ==> checks[i].status
                == CheckStatus::Installed {
            assert forall|i: int|
                0 <= i < init.len() && (#[trigger] init[i]).required_for_class implies init[i].status
                == CheckStatus::Installed by {
                assert(init[i] == checks[i]);
            }
            assert(checks.last() == checks[checks.len() - 1]);
        }
    }
}

/// The summary states: the class is ready exactly when nothing blocks it,
/// every required check is installed and every optional check is installed
/// or skipped; a check that needs repair or a restart, required or not,
/// makes it need attention unless something blocks it; anything blocked or
/// unsupported blocks it.
pub proof fn lemma_readiness_states(checks: Seq<ToolCheck>)
    ensures
        (readiness(checks) == "ready_for_class"@) <==> (!has_blocker(checks) && forall|i: int|
            0 <= i < checks.len() ==> if (#[trigger] checks[i]).required_for_class {
                checks[i].status == CheckStatus::Installed
            } else {
                checks[i].status == CheckStatus::Installed || checks[i].status
                    == CheckStatus::OptionalSkipped
            }),
        !has_blocker(checks) && (exists|i: int|
            0 <= i < checks.len() && ((#[trigger] checks[i]).status == CheckStatus::NeedsRepair
                || checks[i].status == CheckStatus::NeedsRestart)) ==> readiness(checks)
            == "needs_attention"@,
        has_blocker(checks) ==> readiness(checks) == "blocked"@,
{
    reveal_strlit("blocked");
    reveal_strlit("needs_attention");
    reveal_strlit("ready_for_class");
    assert("blocked"@.len() != "ready_for_class"@.len());
    assert("needs_attention"@[0] != "ready_for_class"@[0]);
    lemma_all_required_passed(checks);
    lemma_passed_at_most_required(checks);
    if exists|i: int|
        0 <= i < checks.len() && ((#[trigger] checks[i]).status == CheckStatus::NeedsRepair
            || checks[i].status == CheckStatus::NeedsRestart) {
        let i = choose|i: int|
            0 <= i < checks.len() && ((#[trigger] checks[i]).status == CheckStatus::NeedsRepair
                || checks[i].status == CheckStatus::NeedsRestart);
        assert(unsettled(checks[i]));
    }
    if !has_blocker(checks) && forall|i: int|
        0 <= i < checks.len() ==> if (#[trigger] checks[i]).required_for_class {
            checks[i].status == CheckStatus::Installed
        } else {
            checks[i].status == CheckStatus::Installed || checks[i].status
                == CheckStatus::OptionalSkipped
        } {
        assert forall|i: int|
            0 <= i < checks.len() && (#[trigger] checks[i]).required_for_class implies checks[i].status
            == CheckStatus::Installed by {}
        if has_attention(checks) {
            let k = choose|k: int| 0 <= k < checks.len() && unsettled(#[trigger] checks[k]);
            assert(!unsettled(checks[k]));
        }
    }
    if readiness(checks) == "ready_for_class"@ {
        assert forall|i: int|
            0 <= i < checks.len() implies if (#[trigger] checks[i]).required_for_class {
                checks[i].status == CheckStatus::Installed
            } else {
                checks[i].status == CheckStatus::Installed || checks[i].status
                    == CheckStatus::OptionalSkipped
            } by {
            if !checks[i].required_for_class {
                assert(!unsettled(checks[i]));
            }
        }
    }
}

/// Sums up the checks: how many required ones passed, and whether the class
/// can start.
pub fn summarize(checks: &Vec<ToolCheck>) -> (s: ReportSummary)
    ensures
        summarizes(s, checks@),
{
    let n = checks.len();
    let mut required_total: usize = 0;
    let mut required_passed: usize = 0;
    let mut has_blocker_seen = false;
    let mut has_attention_seen = false;
    let mut i: usize = 0;
    while i < n
        invariant
            n == checks@.len(),
            i <= n,
            required_total == count_required(checks@.take(i as int)),
            required_passed == count_required_passed(checks@.take(i as int)),
            has_blocker_seen == has_blocker(checks@.take(i as int)),
            has_attention_seen == has_attention(checks@.take(i as int)),
        decreases n - i,
    {
        let ghost before = checks@.take(i as int);
        let ghost after = checks@.take(i + 1);
        proof {
            assert(after.drop_last() =~= before);
            lemma_passed_at_most_required(before);
        }
        let check = &checks[i];
        if check.required_for_class {
            required_total += 1;
            if check.status == CheckStatus::Installed {
                required_passed += 1;
            }
        }
        let blocker = check.status == CheckStatus::Blocked || check.status
            == CheckStatus::Unsupported;
        let attention = if check.required_for_class {
            check.status == CheckStatus::Missing || check.status == CheckStatus::NeedsRepair
                || check.status == CheckStatus::NeedsRestart
        } else {
            !(check.status == CheckStatus::Installed || check.status
                == CheckStatus::OptionalSkipped)
        };
        proof {
            assert(after[i as int] == checks@[i as int]);
            if has_blocker(after) && !has_blocker(before) {
                let k = choose|k: int| 0 <= k < after.len() && is_blocker(#[trigger] after[k].status);
                assert(k == i || before[k] == after[k]);
            }
            if has_blocker(before) {
                let k = choose|k: int| 0 <= k < before.len() && is_blocker(#[trigger] before[k].status);
                assert(after[k] == before[k]);
            }
            if has_attention(after) && !has_attention(before) {
                let k = choose|k: int| 0 <= k < after.len() && unsettled(#[trigger] after[k]);
                assert(k == i || before[k] == after[k]);
            }
            if has_attention(before) {
                let k = choose|k: int| 0 <= k < before.len() && unsettled(#[trigger] before[k]);
                assert(after[k] == before[k]);
            }
        }
        has_blocker_seen = has_blocker_seen || blocker;
        has_attention_seen = has_attention_seen || attention;
        i += 1;
    }
    assert(checks@.take(n as int) =~= checks@);
    proof {
        reveal_strlit("blocked");
        reveal_strlit("needs_attention");
        reveal_strlit("ready_for_class");
        assert("blocked"@.len() != "ready_for_class"@.len());
        assert("needs_attention"@[0] != "ready_for_class"@[0]);
    }
    if has_blocker_seen {
        ReportSummary {
            class_readiness: "blocked",
            required_passed,
            required_total,
            needs_instructor_help: true,
            beginner_message: "강사 또는 조교의 도움이 필요합니다.".to_owned(),
            instructor_message: "차단되었거나 지원 불가인 항목을 먼저 확인하세요.".to_owned(),
        }
    } else if has_attention_seen || required_passed < required_total {
        ReportSummary {
            class_readiness: "needs_attention",
            required_passed,
            required_total,
            needs_instructor_help: true,
            beginner_message: "몇 가지 항목을 더 준비해야 합니다.".to_owned(),
            instructor_message: "복구 필요 또는 설치 필요 항목을 확인하세요.".to_owned(),
        }
    } else {
        ReportSummary {
            class_readiness: "ready_for_class",
            required_passed,
            required_total,
            needs_instructor_help: false,
            beginner_message: "수업에 필요한 기본 도구가 준비되었습니다.".to_owned(),
            instructor_message: "필수 항목 통과, WSL은 선택 항목입니다.".to_owned(),
        }
    }
}

/// The application version that reports carry.
pub const APP_VERSION: &'static str = "0.1.0";

/// The version of the recipe set that reports carry.
pub const RECIPE_VERSION: &'static str = "2026.05.01";

/// Seconds and nanoseconds since the Unix epoch by the system clock.
///
/// Calls `SystemTime::elapsed` on `std::time::UNIX_EPOCH`, which fails when
/// the clock stands before the epoch; then `None`. The value depends on the
/// clock, so the contract only states what `Duration::subsec_nanos`
/// documents: the nanoseconds are less than one second.
#[verifier::external_body]
fn clock_since_epoch() -> (r: Option<(u64, u32)>)
    ensures
        r matches Some(t) ==> t.1 < 1_000_000_000,
{
    match std::time::UNIX_EPOCH.elapsed() {
        Ok(d) => Some((d.as_secs(), d.subsec_nanos())),
        Err(_) => None,
    }
}

/// Whether `chrono::DateTime::from_timestamp` gives a date for the instant
/// `secs` seconds and `nanos` nanoseconds after the Unix epoch.
pub uninterp spec fn chrono_date_exists(secs: int, nanos: nat) -> bool;

/// The text that `to_rfc3339` writes for the UTC date that
/// `chrono::DateTime::from_timestamp` gives for `secs` and `nanos`.
pub uninterp spec fn rfc3339_text(secs: int, nanos: nat) -> Seq<char>;

/// The instant `secs` seconds and `nanos` nanoseconds after the Unix epoch,
/// in UTC, as RFC 3339 text.
///
/// Calls `chrono::DateTime::from_timestamp`, which returns `None` for an
/// instant out of chrono's range or an invalid nanosecond count, and
/// `to_rfc3339` on the date it returns, which writes a text such as
/// `1996-12-19T16:39:57+00:00` and does not fail on such a date. Both depend
/// on the two arguments alone; the contract names whether a date exists and
/// the text written for it, and states that the text is not empty.
#[verifier::external_body]
fn rfc3339_at(secs: i64, nanos: u32) -> (r: Option<String>)
    ensures
        r is Some <==> chrono_date_exists(secs as int, nanos as nat),
        r matches Some(t) ==> t@ == rfc3339_text(secs as int, nanos as nat) && t@.len() > 0,
{
    match chrono::DateTime::from_timestamp(secs, nanos) {
        Some(t) => Some(t.to_rfc3339()),
        None => None,
    }
}

/// What a time stamp reads when the system clock gives no date.
pub const UNKNOWN_TIME: &'static str = "unknown";

/// The time stamp for a clock reading of `secs` seconds and `nanos`
/// nanoseconds after the Unix epoch: its RFC 3339 text when the reading fits
/// chrono's signed seconds and chrono has a date for it, else `unknown`.
pub open spec fn time_stamp_for(secs: int, nanos: nat) -> Seq<char> {
    if secs <= i64::MAX && chrono_date_exists(secs, nanos) {
        rfc3339_text(secs, nanos)
    } else {
        UNKNOWN_TIME@
    }
}

/// The text is a time stamp that some clock reading gives, or `unknown`.
pub open spec fn is_time_stamp(t: Seq<char>) -> bool {
    ||| t == UNKNOWN_TIME@
    ||| exists|secs: int, nanos: nat|
        0 <= secs <= i64::MAX && nanos < 1_000_000_000 && chrono_date_exists(secs, nanos) && t
            == #[trigger] rfc3339_text(secs, nanos)
}

/// The time stamp for the clock reading `secs` seconds and `nanos`
/// nanoseconds after the Unix epoch.
pub fn timestamp_at(secs: u64, nanos: u32) -> (r: String)
    ensures
        r@ == time_stamp_for(secs as int, nanos as nat),
        r@.len() > 0,
{
    proof {
        reveal_strlit("unknown");
    }
    if secs <= 0x7fff_ffff_ffff_ffff {
        match rfc3339_at(secs as i64, nanos) {
            Some(t) => t,
            None => UNKNOWN_TIME.to_owned(),
        }
    } else {
        UNKNOWN_TIME.to_owned()
    }
}

/// The current time in UTC as RFC 3339 text, or [`UNKNOWN_TIME`] when the
/// system clock stands before the epoch or beyond what a date can hold.
/// Which instant it names depends on the clock.
pub fn timestamp_now() -> (r: String)
    ensures
        is_time_stamp(r@),
        r@.len() > 0,
{
    match clock_since_epoch() {
        Some((secs, nanos)) => {
            let t = timestamp_at(secs, nanos);
            proof {
                if t@ != UNKNOWN_TIME@ {
                    assert(rfc3339_text(secs as int, nanos as nat) == t@);
                }
            }
            t
        },
        None => {
            proof {
                reveal_strlit("unknown");
            }
            UNKNOWN_TIME.to_owned()
        },
    }
}

/// The application that wrote a report.
pub struct AppInfo {
    pub name: &'static str,
    pub version: &'static str,
    pub recipe_version: &'static str,
    pub distribution_channel: &'static str,
}

/// Reachability of the network, as far as it is known.
pub struct NetworkInfo {
    pub status: &'static str,
    pub blocked_hosts: Vec<String>,
}

/// The machine that was checked.
pub struct MachineInfo {
    pub os: String,
    pub os_version: String,
    pub build_number: Option<String>,
    pub arch: String,
    pub shell: String,
    pub network: NetworkInfo,
}

/// One line of the execution log.
pub struct LogEntry {
    pub timestamp: String,
    pub step_id: String,
    pub command_label: String,
    pub status: &'static str,
    pub exit_code: Option<i32>,
    pub duration_ms: u128,
    pub message_redacted: String,
}

/// Where a later session picks up.
pub struct ResumeState {
    pub last_completed_step: &'static str,
    pub next_action: &'static str,
    pub requires_restart: bool,
}

/// Which kinds of values were masked before the report left the machine.
pub struct RedactionInfo {
    pub applied: bool,
    pub rules_version: &'static str,
    pub masked_fields: Vec<&'static str>,
}

/// The full health report.
pub struct HealthReport {
    pub schema_version: &'static str,
    pub generated_at: String,
    pub app: AppInfo,
    pub machine: MachineInfo,
    pub summary: ReportSummary,
    pub checks: Vec<ToolCheck>,
    pub execution_log: Vec<LogEntry>,
    pub resume_state: ResumeState,
    pub redaction: RedactionInfo,
}

/// The checks a health report is built from.
pub struct HealthReportInput {
    pub checks: Vec<ToolCheck>,
}

/// A decision the student took on an approval card.
pub struct ApprovalCardInput {
    pub id: String,
    pub label: String,
    pub decision: String,
    pub reason_ko: String,
}

/// What a handoff packet is built from.
pub struct HandoffPacketInput {
    pub checks: Vec<ToolCheck>,
    pub approval_cards: Vec<ApprovalCardInput>,
}

/// The packet handed to the instructor.
pub struct HandoffPacket {
    pub generated_at: String,
    pub student_summary_ko: String,
    pub instructor_summary_ko: String,
    pub next_action_ko: String,
    pub checks: Vec<ToolCheck>,
    pub approval_cards: Vec<ApprovalCardInput>,
    pub redaction: RedactionInfo,
}

/// The kinds of values that redaction masks.
pub open spec fn masked_field_names() -> Seq<Seq<char>> {
    seq![
        "token_like_strings"@,
        "password_like_values"@,
        "email_addresses"@,
        "home_paths"@,
        "oauth_device_codes"@,
    ]
}

/// The redaction record says that redaction was applied, under rules 0.1.0,
/// to the kinds of values that the rules mask.
pub open spec fn redaction_applied(r: RedactionInfo) -> bool {
    &&& r.applied
    &&& r.rules_version@ == "0.1.0"@
    &&& r.masked_fields@.map_values(|f: &str| f@) == masked_field_names()
}

fn redaction_info() -> (r: RedactionInfo)
    ensures
        redaction_applied(r),
{
    let r = RedactionInfo {
        applied: true,
        rules_version: "0.1.0",
        masked_fields: vec![
            "token_like_strings",
            "password_like_values",
            "email_addresses",
            "home_paths",
            "oauth_device_codes",
        ],
    };
    assert(r.masked_fields@.map_values(|f: &str| f@) =~= masked_field_names());
    r
}

/// The check counts as passed in the execution log.
pub open spec fn passed_in_log(s: CheckStatus) -> bool {
    s == CheckStatus::Installed || s == CheckStatus::OptionalSkipped
}

/// A log entry records the check: its id, command, outcome, exit code,
/// duration and message.
pub open spec fn logs_check(e: LogEntry, c: ToolCheck) -> bool {
    &&& e.step_id@ == c.id@
    &&& e.command_label@ == c.verify_command_label@
    &&& e.status@ == (if passed_in_log(c.status) {
        "passed"@
    } else {
        "failed"@
    })
    &&& e.exit_code == c.evidence.exit_code
    &&& e.duration_ms == c.evidence.duration_ms
    &&& e.message_redacted@ == c.beginner_message@
}

/// Builds the health report for the checks on the described machine. Every
/// field but the time stamps is fixed by the checks and the machine.
pub fn build_health_report(input: HealthReportInput, machine: MachineInfo) -> (r: HealthReport)
    ensures
        r.schema_version@ == "0.1.0"@,
        is_time_stamp(r.generated_at@),
        forall|i: int| 0 <= i < r.execution_log@.len() ==> is_time_stamp((#[trigger] r.execution_log@[i]).timestamp@),
        r.app.name@ == "위드지니 셋업"@,
        r.app.version@ == APP_VERSION@,
        r.app.recipe_version@ == RECIPE_VERSION@,
        r.app.distribution_channel@ == "public_github"@,
        r.machine == machine,
        summarizes(r.summary, input.checks@),
        r.checks@ == input.checks@,
        r.execution_log@.len() == input.checks@.len(),
        forall|i: int|
            0 <= i < input.checks@.len() ==> logs_check(
                #[trigger] r.execution_log@[i],
                input.checks@[i],
            ),
        forall|i: int|
            0 <= i < input.checks@.len() ==> (#[trigger] r.execution_log@[i]).status@ == (if input.checks@[i].status
                == CheckStatus::Installed || input.checks@[i].status == CheckStatus::OptionalSkipped {
                "passed"@
            } else {
                "failed"@
            }),
        r.resume_state.last_completed_step@ == "diagnostics"@,
        r.resume_state.next_action@ == "follow_support_action_or_start_lesson"@,
        !r.resume_state.requires_restart,
        redaction_applied(r.redaction),
{
    let checks = input.checks;
    let summary = summarize(&checks);
    let mut execution_log: Vec<LogEntry> = Vec::new();
    let n = checks.len();
    let mut i: usize = 0;
    while i < n
        invariant
            n == checks@.len(),
            i <= n,
            execution_log@.len() == i,
            forall|k: int| 0 <= k < i ==> logs_check(#[trigger] execution_log@[k], checks@[k]),
            forall|k: int| 0 <= k < i ==> is_time_stamp((#[trigger] execution_log@[k]).timestamp@),
        decreases n - i,
    {
        let check = &checks[i];
        let passed = check.status == CheckStatus::Installed || check.status
            == CheckStatus::OptionalSkipped;
        let entry = LogEntry {
            timestamp: timestamp_now(),
            step_id: check.id.clone(),
            command_label: check.verify_command_label.clone(),
            status: if passed {
                "passed"
            } else {
                "failed"
            },
            exit_code: check.evidence.exit_code,
            duration_ms: check.evidence.duration_ms,
            message_redacted: check.beginner_message.clone(),
        };
        execution_log.push(entry);
        i += 1;
    }
    HealthReport {
        schema_version: "0.1.0",
        generated_at: timestamp_now(),
        app: AppInfo {
            name: "위드지니 셋업",
            version: APP_VERSION,
            recipe_version: RECIPE_VERSION,
            distribution_channel: "public_github",
        },
        machine,
        summary,
        checks,
        execution_log,
        resume_state: ResumeState {
            last_completed_step: "diagnostics",
            next_action: "follow_support_action_or_start_lesson",
            requires_restart: false,
        },
        redaction: redaction_info(),
    }
}

/// Some approval card asks for the instructor.
pub open spec fn help_requested(cards: Seq<ApprovalCardInput>) -> bool {
    exists|i: int| 0 <= i < cards.len() && (#[trigger] cards[i]).decision@ == "ask_instructor"@
}

/// Some check did not pass.
pub open spec fn has_failed_check(checks: Seq<ToolCheck>) -> bool {
    exists|i: int| 0 <= i < checks.len() && !passed_in_log((#[trigger] checks[i]).status)
}

/// What the instructor should look at first.
pub open spec fn handoff_next_action(checks: Seq<ToolCheck>, cards: Seq<ApprovalCardInput>) -> Seq<char> {
    if help_requested(cards) {
        "승인 큐에서 강사 도움 요청으로 표시된 항목을 먼저 확인하세요."@
    } else if has_failed_check(checks) {
        "실패한 항목의 support_action과 redacted evidence를 확인하세요."@
    } else {
        "필수 항목이 준비되었습니다."@
    }
}

fn any_help_requested(cards: &Vec<ApprovalCardInput>) -> (b: bool)
    ensures
        b == help_requested(cards@),
{
    let n = cards.len();
    let mut i: usize = 0;
    while i < n
        invariant
            n == cards@.len(),
            i <= n,
            forall|k: int| 0 <= k < i ==> (#[trigger] cards@[k]).decision@ != "ask_instructor"@,
        decreases n - i,
    {
        if same_text(cards[i].decision.as_str(), "ask_instructor") {
            return true;
        }
        i += 1;
    }
    false
}

fn any_failed_check(checks: &Vec<ToolCheck>) -> (b: bool)
    ensures
        b == has_failed_check(checks@),
{
    let n = checks.len();
    let mut i: usize = 0;
    while i < n
        invariant
            n == checks@.len(),
            i <= n,
            forall|k: int| 0 <= k < i ==> passed_in_log((#[trigger] checks@[k]).status),
        decreases n - i,
    {
        if !(checks[i].status == CheckStatus::Installed || checks[i].status
            == CheckStatus::OptionalSkipped) {
            return true;
        }
        i += 1;
    }
    false
}

/// Builds the packet for the instructor: the student's and the instructor's
/// summary, what to look at first, the checks and cards, and the redaction
/// record. Every field but the time stamp is fixed by the input.
pub fn build_handoff_packet(input: HandoffPacketInput) -> (r: HandoffPacket)
    ensures
        is_time_stamp(r.generated_at@),
        r.student_summary_ko@ == beginner_message_for(input.checks@),
        r.instructor_summary_ko@ == instructor_message_for(input.checks@),
        r.next_action_ko@ == handoff_next_action(input.checks@, input.approval_cards@),
        r.checks@ == input.checks@,
        r.approval_cards@ == input.approval_cards@,
        redaction_applied(r.redaction),
{
    let summary = summarize(&input.checks);
    let help = any_help_requested(&input.approval_cards);
    let failed = any_failed_check(&input.checks);
    let next_action_ko = if help {
        "승인 큐에서 강사 도움 요청으로 표시된 항목을 먼저 확인하세요.".to_owned()
    } else if failed {
        "실패한 항목의 support_action과 redacted evidence를 확인하세요.".to_owned()
    } else {
        "필수 항목이 준비되었습니다.".to_owned()
    };
    HandoffPacket {
        generated_at: timestamp_now(),
        student_summary_ko: summary.beginner_message,
        instructor_summary_ko: summary.instructor_message,
        next_action_ko,
        checks: input.checks,
        approval_cards: input.approval_cards,
        redaction: redaction_info(),
    }
}

} // verus!

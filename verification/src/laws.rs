//! Properties that hold of the allowlist as a whole, and of the tables that
//! refer to it.
use vstd::prelude::*;

use crate::catalog::{
    lookup_in, lookup_recipe, node_version_recipe, recipe_catalog, wsl_status_recipe, ActionPhase,
    ElevationMethod, RecipeModel, RiskTier,
};
use crate::commands::{command_text, external_flow_for, verify_step_id};
use crate::catalog::required_on;
use crate::diagnostics::{
    classify, diagnosis_plan_of, diagnostic_request, lemma_diagnosis_plan_is_safe, non_empty_spec,
    CheckStatus, ToolCheck,
};
use crate::execution::{
    admitted_action, install_result_outcome, install_succeeded, install_verdict, login_launch_outcome,
    outcome_kind, wrong_host, ExecutionStatus, VerifyVerdict,
};
use crate::redaction::redaction_rules;
use crate::report::{handoff_next_action, logs_check, ApprovalCardInput, LogEntry};
use crate::text::{contains, join, occurs_at, starts_with, to_ascii_lowercase, trim};

verus! {

/// The ids of the first and the second allowlisted recipe differ.
proof fn lemma_id_literals_distinct()
    ensures
        forall|i: int, j: int|
            0 <= i < j < recipe_catalog().len() ==> #[trigger] recipe_catalog()[i].id
                != #[trigger] recipe_catalog()[j].id,
{
    reveal_strlit("brew.version");
    reveal_strlit("gh.auth.login");
    reveal_strlit("gh.auth.status");
    reveal_strlit("gh.install.windows.winget");
    reveal_strlit("git.install.windows.winget");
    reveal_strlit("git.version");
    reveal_strlit("macos.clt");
    reveal_strlit("macos.version");
    reveal_strlit("node.install.windows.winget");
    reveal_strlit("node.version");
    reveal_strlit("npm.version");
    reveal_strlit("pnpm.install.windows.npm");
    reveal_strlit("pnpm.version");
    reveal_strlit("vercel.install.windows.npm");
    reveal_strlit("vercel.login");
    reveal_strlit("vercel.whoami");
    reveal_strlit("windows.winget.version");
    reveal_strlit("wsl.status");
    let cat = recipe_catalog();
    assert forall|i: int, j: int| 0 <= i < j < cat.len() implies #[trigger] cat[i].id.len()
        != #[trigger] cat[j].id.len() || cat[i].id[0] != cat[j].id[0] by {
    }
    assert forall|i: int, j: int| 0 <= i < j < cat.len() implies #[trigger] cat[i].id
        != #[trigger] cat[j].id by {
        assert(cat[i].id.len() != cat[j].id.len() || cat[i].id[0] != cat[j].id[0]);
    }
}

/// No two allowlisted recipes share an id, so an id names one recipe.
pub proof fn lemma_recipe_ids_unique()
    ensures
        forall|i: int, j: int|
            0 <= i < recipe_catalog().len() && 0 <= j < recipe_catalog().len() && i != j
                ==> #[trigger] recipe_catalog()[i].id != #[trigger] recipe_catalog()[j].id,
{
    lemma_id_literals_distinct();
    assert forall|i: int, j: int|
        0 <= i < recipe_catalog().len() && 0 <= j < recipe_catalog().len() && i != j
        implies #[trigger] recipe_catalog()[i].id != #[trigger] recipe_catalog()[j].id by {
        if j < i {
            assert(recipe_catalog()[j].id != recipe_catalog()[i].id);
        }
    }
}

/// The login flags that the official CLIs have deprecated, and the flags that
/// would hand a token to the command line.
pub open spec fn is_forbidden_login_flag(arg: Seq<char>) -> bool {
    ||| arg == "--github"@
    ||| arg == "--gitlab"@
    ||| arg == "--bitbucket"@
    ||| arg == "--oob"@
    ||| arg == "--token"@
    ||| arg == "--with-token"@
}

/// Every forbidden flag starts with two dashes, and its length and third
/// character tell it apart from any other word.
proof fn lemma_forbidden_flag_shape()
    ensures
        forall|a: Seq<char>|
            #[trigger] is_forbidden_login_flag(a) ==> a.len() >= 5 && a[0] == '-' && a[1] == '-'
                && ((a.len() == 5 && a[2] == 'o') || (a.len() == 7 && a[2] == 't') || (a.len()
                == 8 && a[2] == 'g') || (a.len() == 11 && a[2] == 'b') || (a.len() == 12 && a[2]
                == 'w')),
{
    reveal_strlit("--oob");
    reveal_strlit("--token");
    reveal_strlit("--github");
    reveal_strlit("--gitlab");
    reveal_strlit("--bitbucket");
    reveal_strlit("--with-token");
}

/// No allowlisted command passes a deprecated login provider flag or a token
/// on its command line.
pub proof fn lemma_no_forbidden_login_flags()
    ensures
        forall|i: int, k: int|
            0 <= i < recipe_catalog().len() && 0 <= k < recipe_catalog()[i].args.len()
                ==> !is_forbidden_login_flag(#[trigger] recipe_catalog()[i].args[k]),
{
    reveal_strlit("-e");
    reveal_strlit("-g");
    reveal_strlit("-p");
    reveal_strlit("-v");
    reveal_strlit("--id");
    reveal_strlit("auth");
    reveal_strlit("--web");
    reveal_strlit("https");
    reveal_strlit("login");
    reveal_strlit("status");
    reveal_strlit("whoami");
    reveal_strlit("Git.Git");
    reveal_strlit("install");
    reveal_strlit("--silent");
    reveal_strlit("--status");
    reveal_strlit("--version");
    reveal_strlit("--hostname");
    reveal_strlit("GitHub.cli");
    reveal_strlit("github.com");
    reveal_strlit("--clipboard");
    reveal_strlit("pnpm@latest");
    reveal_strlit("vercel@latest");
    reveal_strlit("--git-protocol");
    reveal_strlit("-productVersion");
    reveal_strlit("OpenJS.NodeJS.LTS");
    reveal_strlit("--disable-interactivity");
    reveal_strlit("--accept-source-agreements");
    reveal_strlit("--accept-package-agreements");
    lemma_forbidden_flag_shape();
    assert forall|i: int, k: int|
        0 <= i < recipe_catalog().len() && 0 <= k < recipe_catalog()[i].args.len()
        implies !is_forbidden_login_flag(#[trigger] recipe_catalog()[i].args[k]) by {
    }
}

/// Every recipe's displayed command is exactly the program followed by its
/// arguments, so what the student approves is what runs.
pub proof fn lemma_previews_match_commands()
    ensures
        forall|i: int|
            0 <= i < recipe_catalog().len() ==> #[trigger] recipe_catalog()[i].command_preview
                == command_text(recipe_catalog()[i].program, recipe_catalog()[i].args),
{
    reveal_with_fuel(join, 9);
    reveal_strlit(" ");
    reveal_strlit("-e");
    reveal_strlit("-g");
    reveal_strlit("-p");
    reveal_strlit("-v");
    reveal_strlit("gh");
    reveal_strlit("git");
    reveal_strlit("npm");
    reveal_strlit("wsl");
    reveal_strlit("--id");
    reveal_strlit("auth");
    reveal_strlit("brew");
    reveal_strlit("node");
    reveal_strlit("pnpm");
    reveal_strlit("--web");
    reveal_strlit("https");
    reveal_strlit("login");
    reveal_strlit("npm -v");
    reveal_strlit("status");
    reveal_strlit("vercel");
    reveal_strlit("whoami");
    reveal_strlit("winget");
    reveal_strlit("Git.Git");
    reveal_strlit("install");
    reveal_strlit("node -v");
    reveal_strlit("pnpm -v");
    reveal_strlit("sw_vers");
    reveal_strlit("--silent");
    reveal_strlit("--status");
    reveal_strlit("--version");
    reveal_strlit("--hostname");
    reveal_strlit("GitHub.cli");
    reveal_strlit("github.com");
    reveal_strlit("--clipboard");
    reveal_strlit("pnpm@latest");
    reveal_strlit("vercel login");
    reveal_strlit("wsl --status");
    reveal_strlit("xcode-select");
    reveal_strlit("git --version");
    reveal_strlit("vercel whoami");
    reveal_strlit("vercel@latest");
    reveal_strlit("--git-protocol");
    reveal_strlit("brew --version");
    reveal_strlit("gh auth status");
    reveal_strlit("-productVersion");
    reveal_strlit("xcode-select -p");
    reveal_strlit("winget --version");
    reveal_strlit("OpenJS.NodeJS.LTS");
    reveal_strlit("--disable-interactivity");
    reveal_strlit("sw_vers -productVersion");
    reveal_strlit("--accept-source-agreements");
    reveal_strlit("npm install -g pnpm@latest");
    reveal_strlit("--accept-package-agreements");
    reveal_strlit("npm install -g vercel@latest");
    reveal_strlit("gh auth login --web --clipboard --hostname github.com --git-protocol https");
    reveal_strlit("winget install --id Git.Git -e --accept-package-agreements --accept-source-agreements --disable-interactivity --silent");
    reveal_strlit("winget install --id GitHub.cli -e --accept-package-agreements --accept-source-agreements --disable-interactivity --silent");
    reveal_strlit("winget install --id OpenJS.NodeJS.LTS -e --accept-package-agreements --accept-source-agreements --disable-interactivity --silent");
    let cat = recipe_catalog();
    assert forall|i: int| 0 <= i < cat.len() implies #[trigger] cat[i].command_preview
        =~= command_text(cat[i].program, cat[i].args) by {
    }
}

/// Detection recipes only look: they are safe, need no consent, no browser
/// and no elevation.
pub proof fn lemma_detect_recipes_are_safe()
    ensures
        forall|i: int|
            0 <= i < recipe_catalog().len() && (#[trigger] recipe_catalog()[i]).action_phase
                == ActionPhase::Detect ==> {
                let r = recipe_catalog()[i];
                &&& r.risk_tier == RiskTier::Safe
                &&& !r.requires_consent
                &&& !r.requires_browser
                &&& !r.may_require_elevation
                &&& r.requires_elevation_method == ElevationMethod::NoElevation
                &&& r.package_source is None
            },
{
}

/// Login recipes hand over to the official browser flow: they are user
/// mediated, need consent and a browser, and the user manages any rights.
pub proof fn lemma_external_flows_are_user_mediated()
    ensures
        forall|i: int|
            0 <= i < recipe_catalog().len() && (#[trigger] recipe_catalog()[i]).action_phase
                == ActionPhase::ExternalFlow ==> {
                let r = recipe_catalog()[i];
                &&& r.risk_tier == RiskTier::UserMediated
                &&& r.requires_consent
                &&& r.requires_browser
                &&& r.requires_elevation_method == ElevationMethod::UserManaged
            },
{
}

/// Install recipes run on Windows only, always ask for consent, and may
/// raise a permission prompt exactly when they are marked as such and elevate
/// through `runas`.
pub proof fn lemma_install_recipes_need_consent()
    ensures
        forall|i: int|
            0 <= i < recipe_catalog().len() && (#[trigger] recipe_catalog()[i]).action_phase
                == ActionPhase::Install ==> {
                let r = recipe_catalog()[i];
                &&& r.target_os == Some("windows"@)
                &&& r.requires_consent
                &&& !r.requires_browser
                &&& r.package_source is Some
                &&& (r.may_require_elevation <==> r.risk_tier == RiskTier::PermissionPrompt)
                &&& (r.may_require_elevation <==> r.requires_elevation_method
                    == ElevationMethod::WindowsRunas)
                &&& (!r.may_require_elevation ==> r.risk_tier == RiskTier::UserMediated
                    && r.requires_elevation_method == ElevationMethod::NoElevation)
            },
{
}

/// A recipe asks for consent exactly when it changes something or opens a
/// login flow, that is, exactly when it is not a detection.
pub proof fn lemma_consent_exactly_for_non_detect()
    ensures
        forall|i: int|
            0 <= i < recipe_catalog().len() ==> ((#[trigger] recipe_catalog()[i]).requires_consent
                <==> recipe_catalog()[i].action_phase != ActionPhase::Detect),
{
}

/// A lookup finds the recipe at the first position that carries the id.
pub proof fn lemma_lookup_finds(cat: Seq<RecipeModel>, id: Seq<char>, i: int)
    requires
        0 <= i < cat.len(),
        cat[i].id == id,
        forall|j: int| 0 <= j < i ==> #[trigger] cat[j].id != id,
    ensures
        lookup_in(cat, id) == Some(cat[i]),
    decreases i,
{
    if i > 0 {
        assert forall|j: int| 0 <= j < i - 1 implies #[trigger] cat.drop_first()[j].id != id by {
            assert(cat.drop_first()[j] == cat[j + 1]);
        }
        lemma_lookup_finds(cat.drop_first(), id, i - 1);
    }
}

/// Looking up the id of an allowlisted recipe gives that recipe.
pub proof fn lemma_lookup_catalog_entry(i: int)
    requires
        0 <= i < recipe_catalog().len(),
    ensures
        lookup_recipe(recipe_catalog()[i].id) == Some(recipe_catalog()[i]),
{
    lemma_recipe_ids_unique();
    let cat = recipe_catalog();
    assert forall|j: int| 0 <= j < i implies #[trigger] cat[j].id != cat[i].id by {
        assert(cat[j].id != cat[i].id);
    }
    lemma_lookup_finds(cat, cat[i].id, i);
}

/// Each login recipe has a launcher, and only login recipes have one; the
/// launcher runs exactly the recipe's command, and its check is the command
/// of a detection recipe.
pub proof fn lemma_login_flows_match_recipes()
    ensures
        forall|i: int|
            0 <= i < recipe_catalog().len() ==> ((#[trigger] recipe_catalog()[i]).action_phase
                == ActionPhase::ExternalFlow <==> external_flow_for(recipe_catalog()[i].id) is Some),
        forall|i: int|
            0 <= i < recipe_catalog().len() && external_flow_for(
                (#[trigger] recipe_catalog()[i]).id,
            ) is Some ==> {
                let f = external_flow_for(recipe_catalog()[i].id)->0;
                f.program == recipe_catalog()[i].program && f.args == recipe_catalog()[i].args
            },
        forall|id: Seq<char>| #[trigger]
            external_flow_for(id) is Some ==> (lookup_recipe(id) matches Some(r)
                && r.action_phase == ActionPhase::ExternalFlow),
        forall|id: Seq<char>| #[trigger]
            external_flow_for(id) is Some ==> exists|j: int|
                0 <= j < recipe_catalog().len() && (#[trigger] recipe_catalog()[j]).action_phase
                    == ActionPhase::Detect && recipe_catalog()[j].program == external_flow_for(
                    id,
                )->0.verify_program && recipe_catalog()[j].args == external_flow_for(
                    id,
                )->0.verify_args,
{
    lemma_id_literals_distinct();
    let cat = recipe_catalog();
    assert(cat[9].id == "gh.auth.login"@);
    assert(cat[12].id == "vercel.login"@);
    assert forall|i: int| 0 <= i < cat.len() implies ((#[trigger] cat[i]).action_phase
        == ActionPhase::ExternalFlow <==> external_flow_for(cat[i].id) is Some) by {
        if i != 9 {
            if i < 9 {
                assert(cat[i].id != cat[9].id);
            } else {
                assert(cat[9].id != cat[i].id);
            }
        }
        if i != 12 {
            if i < 12 {
                assert(cat[i].id != cat[12].id);
            } else {
                assert(cat[12].id != cat[i].id);
            }
        }
    }
    lemma_lookup_catalog_entry(9);
    lemma_lookup_catalog_entry(12);
    assert forall|id: Seq<char>| #[trigger]
        external_flow_for(id) is Some implies exists|j: int|
            0 <= j < cat.len() && (#[trigger] cat[j]).action_phase == ActionPhase::Detect
                && cat[j].program == external_flow_for(id)->0.verify_program && cat[j].args
                == external_flow_for(id)->0.verify_args by {
        if id == "gh.auth.login"@ {
            assert(cat[7].args =~= external_flow_for(id)->0.verify_args);
        } else {
            assert(cat[10].args =~= external_flow_for(id)->0.verify_args);
        }
    }
}

/// Every installation that is confirmed through the allowlist is confirmed by
/// a safe detection recipe, and every install recipe is confirmed either so or
/// by asking the installed tool for its version.
pub proof fn lemma_install_verification_targets()
    ensures
        forall|id: Seq<char>| #[trigger]
            verify_step_id(id) is Some ==> {
                &&& (lookup_recipe(id) matches Some(r) && r.action_phase == ActionPhase::Install)
                &&& (lookup_recipe(verify_step_id(id)->0) matches Some(d) && d.action_phase
                    == ActionPhase::Detect && d.risk_tier == RiskTier::Safe && !d.requires_consent)
            },
        forall|i: int|
            0 <= i < recipe_catalog().len() && (#[trigger] recipe_catalog()[i]).action_phase
                == ActionPhase::Install ==> verify_step_id(recipe_catalog()[i].id) is Some
                || recipe_catalog()[i].id == "gh.install.windows.winget"@
                || recipe_catalog()[i].id == "vercel.install.windows.npm"@,
{
    let cat = recipe_catalog();
    lemma_lookup_catalog_entry(0);
    lemma_lookup_catalog_entry(1);
    lemma_lookup_catalog_entry(3);
    lemma_lookup_catalog_entry(4);
    lemma_lookup_catalog_entry(5);
    lemma_lookup_catalog_entry(6);
}

/// Any recipe that a lookup returns is one of the allowlist.
pub proof fn lemma_lookup_is_catalog_entry(id: Seq<char>)
    ensures
        lookup_recipe(id) matches Some(r) ==> exists|i: int|
            0 <= i < recipe_catalog().len() && #[trigger] recipe_catalog()[i] == r,
{
    crate::catalog::lemma_lookup_in(recipe_catalog(), id);
}

/// A diagnostic request only ever runs a safe detection recipe.
pub proof fn lemma_diagnostic_requests_only_detect(id: Seq<char>)
    ensures
        diagnostic_request(id) matches Ok(r) ==> r.action_phase == ActionPhase::Detect
            && r.risk_tier == RiskTier::Safe && !r.may_require_elevation,
{
    lemma_lookup_is_catalog_entry(id);
    lemma_consent_exactly_for_non_detect();
    lemma_detect_recipes_are_safe();
    if let Some(r) = lookup_recipe(id) {
        let i = choose|i: int| 0 <= i < recipe_catalog().len() && #[trigger] recipe_catalog()[i] == r;
        assert(recipe_catalog()[i] == r);
    }
}

/// The automatic sweep only runs safe detection recipes, whatever the host.
pub proof fn lemma_diagnosis_plan_only_detect(os: Seq<char>)
    ensures
        forall|k: int|
            0 <= k < diagnosis_plan_of(recipe_catalog(), os).len() ==> {
                let r = #[trigger] diagnosis_plan_of(recipe_catalog(), os)[k];
                r.action_phase == ActionPhase::Detect && r.risk_tier == RiskTier::Safe
            },
{
    lemma_diagnosis_plan_is_safe(recipe_catalog(), os);
    lemma_consent_exactly_for_non_detect();
    lemma_detect_recipes_are_safe();
    let p = diagnosis_plan_of(recipe_catalog(), os);
    assert forall|k: int| 0 <= k < p.len() implies {
        let r = #[trigger] p[k];
        r.action_phase == ActionPhase::Detect && r.risk_tier == RiskTier::Safe
    } by {
        let i = choose|i: int| 0 <= i < recipe_catalog().len() && recipe_catalog()[i] == p[k];
        assert(recipe_catalog()[i] == p[k]);
    }
}

/// Reading a diagnostic's output never concludes that a tool is blocked,
/// unsupported or waiting for a restart; a clean exit means the tool is
/// installed, unless Node.js is not on the class version; a missing or
/// skipped tool reports no version; and there is always a next step to take.
pub proof fn lemma_classification_outcomes(
    os: Seq<char>,
    step: crate::catalog::RecipeModel,
    exit_code: Option<i32>,
    stdout: Seq<char>,
    stderr: Seq<char>,
)
    ensures
        ({
            let c = classify(os, step, exit_code, stdout, stderr);
            &&& c.status != CheckStatus::Blocked
            &&& c.status != CheckStatus::Unsupported
            &&& c.status != CheckStatus::NeedsRestart
            &&& exit_code == Some(0i32) ==> (c.status == CheckStatus::Installed || (c.status
                == CheckStatus::NeedsRepair && step.id == "node.version"@))
            &&& exit_code == Some(0i32) ==> c.detected_version == non_empty_spec(trim(stdout))
            &&& (c.status == CheckStatus::Missing || c.status == CheckStatus::OptionalSkipped)
                ==> c.detected_version is None
            &&& c.support_action.len() > 0
        }),
{
    reveal_strlit("Node.js v24 LTS 설치 전략에 따라 복구하세요.");
    reveal_strlit("추가 조치가 필요하지 않습니다.");
    reveal_strlit("Linux/WSL 수업이 있으면 강사 안내에 따라 설치하세요.");
    reveal_strlit("설치 계획 화면의 안내를 따라 준비하세요.");
    reveal_strlit("권한, 로그인, PATH 또는 네트워크 상태를 확인하세요.");
}

/// WSL is optional on every host: its check reports the tool installed when
/// `wsl --status` exits cleanly, and skipped otherwise, never missing or in
/// need of repair.
pub proof fn lemma_wsl_is_optional(
    os: Seq<char>,
    exit_code: Option<i32>,
    stdout: Seq<char>,
    stderr: Seq<char>,
)
    ensures
        classify(os, wsl_status_recipe(), exit_code, stdout, stderr).status == (if exit_code
            == Some(0i32) {
            CheckStatus::Installed
        } else {
            CheckStatus::OptionalSkipped
        }),
{
    reveal_strlit("wsl.status");
    reveal_strlit("node.version");
    assert("wsl.status"@.len() != "node.version"@.len());
}

/// A clean `node -v` passes exactly when it reports a version of the class
/// line, v24; any other version needs repair.
pub proof fn lemma_node_passes_only_on_v24(os: Seq<char>, stdout: Seq<char>, stderr: Seq<char>)
    ensures
        classify(os, node_version_recipe(), Some(0i32), stdout, stderr).status == (if starts_with(
            trim(stdout),
            "v24."@,
        ) {
            CheckStatus::Installed
        } else {
            CheckStatus::NeedsRepair
        }),
{
}

/// A tool whose command did not exit cleanly and whose error output says the
/// program or file was not found is missing: no version is reported, and the
/// student is sent to the setup plan. Only the optional WSL check is skipped
/// instead.
pub proof fn lemma_not_found_means_missing(
    os: Seq<char>,
    step: RecipeModel,
    exit_code: Option<i32>,
    stdout: Seq<char>,
    stderr: Seq<char>,
)
    requires
        exit_code != Some(0i32),
        !(!required_on(step.required_for_class, os) && step.id == "wsl.status"@),
        contains(trim(stderr), "No such file"@) || contains(trim(stderr), "not found"@)
            || contains(trim(stderr), "cannot find"@),
    ensures
        classify(os, step, exit_code, stdout, stderr).status == CheckStatus::Missing,
        classify(os, step, exit_code, stdout, stderr).detected_version is None,
        classify(os, step, exit_code, stdout, stderr).beginner_message == step.label_ko
            + "이(가) 아직 설치되지 않았습니다."@,
        classify(os, step, exit_code, stdout, stderr).support_action
            == "설치 계획 화면의 안내를 따라 준비하세요."@,
{
}

/// A tool whose command did not exit cleanly, that is not the skipped WSL
/// check, and whose error output does not say it was not found, needs
/// repair, with the first line of its output as the version it reports.
pub proof fn lemma_other_failures_need_repair(
    os: Seq<char>,
    step: RecipeModel,
    exit_code: Option<i32>,
    stdout: Seq<char>,
    stderr: Seq<char>,
)
    requires
        exit_code != Some(0i32),
        !(!required_on(step.required_for_class, os) && step.id == "wsl.status"@),
        !contains(trim(stderr), "No such file"@),
        !contains(trim(stderr), "not found"@),
        !contains(trim(stderr), "cannot find"@),
    ensures
        classify(os, step, exit_code, stdout, stderr).status == CheckStatus::NeedsRepair,
        classify(os, step, exit_code, stdout, stderr).detected_version == non_empty_spec(
            trim(stdout),
        ),
{
}

/// What the handoff points the instructor at: a help request on any card
/// comes first; without one, the packet says everything is ready exactly
/// when every check is installed or skipped, and otherwise points at the
/// failed checks.
pub proof fn lemma_handoff_next_action(checks: Seq<ToolCheck>, cards: Seq<ApprovalCardInput>)
    ensures
        (exists|j: int| 0 <= j < cards.len() && (#[trigger] cards[j]).decision@ == "ask_instructor"@)
            ==> handoff_next_action(checks, cards)
            == "승인 큐에서 강사 도움 요청으로 표시된 항목을 먼저 확인하세요."@,
        (forall|j: int| 0 <= j < cards.len() ==> (#[trigger] cards[j]).decision@ != "ask_instructor"@)
            ==> {
            &&& (handoff_next_action(checks, cards) == "필수 항목이 준비되었습니다."@) <==> (forall|i: int|
                0 <= i < checks.len() ==> (#[trigger] checks[i]).status == CheckStatus::Installed
                    || checks[i].status == CheckStatus::OptionalSkipped)
            &&& (exists|i: int|
                0 <= i < checks.len() && !((#[trigger] checks[i]).status == CheckStatus::Installed
                    || checks[i].status == CheckStatus::OptionalSkipped)) ==> handoff_next_action(
                checks,
                cards,
            ) == "실패한 항목의 support_action과 redacted evidence를 확인하세요."@
        },
{
    reveal_strlit("필수 항목이 준비되었습니다.");
    reveal_strlit("실패한 항목의 support_action과 redacted evidence를 확인하세요.");
    assert("필수 항목이 준비되었습니다."@[0] != "실패한 항목의 support_action과 redacted evidence를 확인하세요."@[0]);
    if forall|i: int|
        0 <= i < checks.len() ==> (#[trigger] checks[i]).status == CheckStatus::Installed
            || checks[i].status == CheckStatus::OptionalSkipped {
        if exists|i: int|
            0 <= i < checks.len() && !crate::report::passed_in_log((#[trigger] checks[i]).status) {
            let i = choose|i: int|
                0 <= i < checks.len() && !crate::report::passed_in_log((#[trigger] checks[i]).status);
            assert(checks[i].status == CheckStatus::Installed || checks[i].status
                == CheckStatus::OptionalSkipped);
        }
    }
    if exists|i: int|
        0 <= i < checks.len() && !((#[trigger] checks[i]).status == CheckStatus::Installed
            || checks[i].status == CheckStatus::OptionalSkipped) {
        let i = choose|i: int|
            0 <= i < checks.len() && !((#[trigger] checks[i]).status == CheckStatus::Installed
                || checks[i].status == CheckStatus::OptionalSkipped);
        assert(!crate::report::passed_in_log(checks[i].status));
    }
}

/// An execution-log entry for a check says "passed" exactly when the check is
/// installed or skipped, and "failed" otherwise.
pub proof fn lemma_log_entry_status(e: LogEntry, c: ToolCheck)
    requires
        logs_check(e, c),
    ensures
        (e.status@ == "passed"@) <==> (c.status == CheckStatus::Installed || c.status
            == CheckStatus::OptionalSkipped),
        (e.status@ == "failed"@) <==> !(c.status == CheckStatus::Installed || c.status
            == CheckStatus::OptionalSkipped),
{
    reveal_strlit("passed");
    reveal_strlit("failed");
    assert("passed"@[0] != "failed"@[0]);
}

/// An installation is done only when its verification found the tool
/// installed; any other verification result (missing, in need of repair, or
/// anything else) asks for a restart and a new diagnosis.
pub proof fn lemma_install_done_only_when_verified(
    step: RecipeModel,
    status: CheckStatus,
    version: Option<Seq<char>>,
    stdout: Seq<char>,
    stderr: Seq<char>,
)
    ensures
        (install_result_outcome(step, status, version, stdout, stderr).status
            == ExecutionStatus::Done) <==> status == CheckStatus::Installed,
        status != CheckStatus::Installed ==> {
            &&& install_result_outcome(step, status, version, stdout, stderr).status
                == ExecutionStatus::NeedsReboot
            &&& install_result_outcome(step, status, version, stdout, stderr).message_ko
                == step.label_ko + " 설치는 끝났지만 현재 앱에서 바로 검증하지 못했습니다."@
        },
{
}

/// The masking rules, in the order they apply: GitHub tokens
/// (`ghp_`/`gho_`/`ghu_`/`ghs_`/`ghr_` and twenty or more token characters)
/// and Vercel or long dotted tokens become `[REDACTED_TOKEN]`; a
/// `password`/`passwd`/`pwd` key keeps its name and loses its value; e-mail
/// addresses (address characters, `@`, a domain and a final label of two or
/// more letters, in any case) become `[REDACTED_EMAIL]`; the user name in
/// macOS and Windows home paths becomes `[REDACTED_USER]`; a device code of
/// four or more characters after `code` loses its value.
pub proof fn lemma_redaction_rules()
    ensures
        redaction_rules().len() == 7,
        redaction_rules()[0] == (r"(?i)(ghp|gho|ghu|ghs|ghr)_[A-Za-z0-9_]{20,}"@, "[REDACTED_TOKEN]"@),
        redaction_rules()[1] == (
            r"(?i)(vercel_[A-Za-z0-9]{20,}|[A-Za-z0-9]{24,}\.[A-Za-z0-9._-]{20,})"@,
            "[REDACTED_TOKEN]"@,
        ),
        redaction_rules()[2] == (r"(?i)(password|passwd|pwd)\s*[:=]\s*\S+"@, "$1=[REDACTED_PASSWORD]"@),
        redaction_rules()[3] == (
            r"(?i)[A-Z0-9._%+-]+@[A-Z0-9.-]+\.[A-Z]{2,}"@,
            "[REDACTED_EMAIL]"@,
        ),
        redaction_rules()[4] == (r"/Users/[^/\s]+"@, "/Users/[REDACTED_USER]"@),
        redaction_rules()[5] == (r"C:\\Users\\[^\\\s]+"@, "C:\\Users\\[REDACTED_USER]"@),
        redaction_rules()[6] == (r"(?i)(device code|code)\s*[:=]\s*[A-Z0-9-]{4,}"@, "$1=[REDACTED_CODE]"@),
{
}

/// An installer that exits cleanly, or that says in either output stream,
/// in any letter case, that the package is already installed or that no
/// newer version is available, counts as having installed the tool.
pub proof fn lemma_install_success(exit_code: Option<i32>, stdout: Seq<char>, stderr: Seq<char>)
    ensures
        exit_code == Some(0i32) ==> install_succeeded(exit_code, stdout, stderr),
        contains(to_ascii_lowercase(stdout), "already installed"@) || contains(
            to_ascii_lowercase(stderr),
            "already installed"@,
        ) || contains(to_ascii_lowercase(stdout), "no newer package versions are available"@)
            || contains(to_ascii_lowercase(stderr), "no newer package versions are available"@)
            ==> install_succeeded(exit_code, stdout, stderr),
{
    let lo = to_ascii_lowercase(stdout);
    let le = to_ascii_lowercase(stderr);
    let combined = lo + "\n"@ + le;
    reveal_strlit("\n");
    let ps = seq!["already installed"@, "no newer package versions are available"@];
    assert forall|k: int| 0 <= k < 2 implies (contains(lo, #[trigger] ps[k]) || contains(le, ps[k]))
        ==> contains(combined, ps[k]) by {
        let p = ps[k];
        if contains(lo, p) {
            let i = choose|i: int| occurs_at(lo, p, i);
            assert(combined.subrange(i, i + p.len()) =~= lo.subrange(i, i + p.len()));
            assert(occurs_at(combined, p, i));
        } else if contains(le, p) {
            let i = choose|i: int| occurs_at(le, p, i);
            let j = lo.len() + 1 + i;
            assert(combined.subrange(j, j + p.len()) =~= le.subrange(i, i + p.len()));
            assert(occurs_at(combined, p, j));
        }
    }
    assert(ps[0] == "already installed"@);
    assert(ps[1] == "no newer package versions are available"@);
}

/// An installation whose recipe names another operating system than the
/// host's never starts, and one without a named system, or naming the
/// host's, is not refused for its system.
pub proof fn lemma_install_only_on_its_system(step: RecipeModel, os: Seq<char>)
    ensures
        wrong_host(step, os) <==> (step.target_os is Some && step.target_os->0 != os),
{
}

/// An approval is refused when its id is blank or its action is not on the
/// allowlist; an admitted action is the allowlisted recipe of that id, and it
/// starts with a running, system event for that recipe.
pub proof fn lemma_admission(action_id: Seq<char>, approval_id: Seq<char>)
    ensures
        trim(approval_id).len() == 0 ==> admitted_action(action_id, approval_id) is Err,
        lookup_recipe(action_id) is None ==> admitted_action(action_id, approval_id) is Err,
        admitted_action(action_id, approval_id) matches Ok((r, e)) ==> {
            &&& lookup_recipe(action_id) == Some(r)
            &&& trim(approval_id).len() > 0
            &&& e.action_id == r.id
            &&& e.status == ExecutionStatus::Running
            &&& e.kind == "system"@
        },
{
}

/// A blocked outcome is always reported on the error stream, and so is an
/// installation that needs a restart; every other outcome is reported as a
/// system message.
pub proof fn lemma_outcome_kinds(phase: ActionPhase, status: ExecutionStatus)
    ensures
        status == ExecutionStatus::Blocked ==> outcome_kind(phase, status) == "stderr"@,
        phase == ActionPhase::Install && status == ExecutionStatus::NeedsReboot ==> outcome_kind(
            phase,
            status,
        ) == "stderr"@,
        status != ExecutionStatus::Blocked && !(phase == ActionPhase::Install && status
            == ExecutionStatus::NeedsReboot) ==> outcome_kind(phase, status) == "system"@,
{
}

/// A login whose terminal opened waits for the browser; one whose terminal
/// failed to open is blocked. Either way the outcome belongs to the recipe.
pub proof fn lemma_login_launch(step: RecipeModel, exit_code: Option<i32>, stdout: Seq<char>, stderr: Seq<char>)
    ensures
        login_launch_outcome(step, exit_code, stdout, stderr).status == (if exit_code == Some(0i32) {
            ExecutionStatus::NeedsBrowserAuth
        } else {
            ExecutionStatus::Blocked
        }),
        login_launch_outcome(step, exit_code, stdout, stderr).action_id == step.id,
{
}

/// A GitHub or Vercel CLI installation is verified by the tool's own version
/// query: installed, with the first line it printed, exactly when the query
/// exits cleanly, and in need of repair otherwise.
pub proof fn lemma_cli_install_verdict(os: Seq<char>, exit_code: Option<i32>, stdout: Seq<char>, stderr: Seq<char>)
    ensures
        forall|id: Seq<char>|
            id == "gh.install.windows.winget"@ || id == "vercel.install.windows.npm"@ ==> #[trigger] install_verdict(
                os,
                id,
                exit_code,
                stdout,
                stderr,
            ) == if exit_code == Some(0i32) {
                Ok::<VerifyVerdict, Seq<char>>(
                    VerifyVerdict::Verified(CheckStatus::Installed, non_empty_spec(trim(stdout))),
                )
            } else {
                Ok::<VerifyVerdict, Seq<char>>(VerifyVerdict::Verified(CheckStatus::NeedsRepair, None))
            },
{
}

} // verus!

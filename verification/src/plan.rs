//! The setup plan the interface shows before anything runs.
use vstd::prelude::*;

use crate::catalog::{
    allowed_commands, models, opt_view, recipe_catalog, required_on, ActionPhase, ElevationMethod,
    RecipeModel, RecipeStep, RiskTier,
};
use crate::commands::{command_label, command_text};

verus! {

/// One recipe as the plan shows it on a given host.
pub struct RecipeStepView {
    pub id: &'static str,
    pub target_os: Option<&'static str>,
    pub label_ko: &'static str,
    pub description_ko: &'static str,
    pub verify_command_label: String,
    pub required_for_class: bool,
    pub requires_consent: bool,
    pub may_require_elevation: bool,
    pub requires_browser: bool,
    pub required_version_hint: Option<&'static str>,
    pub docs_url: &'static str,
    pub risk_tier: RiskTier,
    pub action_phase: ActionPhase,
    pub approval_copy_ko: &'static str,
    pub expected_permission_prompt_ko: &'static str,
    pub package_source: Option<&'static str>,
    pub rollback_note_ko: &'static str,
    pub support_handoff_ko: &'static str,
    pub command_preview: &'static str,
    pub requires_elevation_method: ElevationMethod,
}

/// The plan: the host, every allowlisted recipe, what is never run, and the
/// security promises.
pub struct AppPlan {
    pub current_os: &'static str,
    pub steps: Vec<RecipeStepView>,
    pub forbidden_commands: Vec<&'static str>,
    pub security_notes: Vec<&'static str>,
}

/// The view shows the recipe `r` as it stands on the host `os`.
pub open spec fn shows_recipe(v: RecipeStepView, r: RecipeModel, os: Seq<char>) -> bool {
    &&& v.id@ == r.id
    &&& opt_view(v.target_os) == r.target_os
    &&& v.label_ko@ == r.label_ko
    &&& v.description_ko@ == r.description_ko
    &&& v.verify_command_label@ == command_text(r.program, r.args)
    &&& v.required_for_class == required_on(r.required_for_class, os)
    &&& v.requires_consent == r.requires_consent
    &&& v.may_require_elevation == r.may_require_elevation
    &&& v.requires_browser == r.requires_browser
    &&& opt_view(v.required_version_hint) == r.required_version_hint
    &&& v.docs_url@ == r.docs_url
    &&& v.risk_tier == r.risk_tier
    &&& v.action_phase == r.action_phase
    &&& v.approval_copy_ko@ == r.approval_copy_ko
    &&& v.expected_permission_prompt_ko@ == r.expected_permission_prompt_ko
    &&& opt_view(v.package_source) == r.package_source
    &&& v.rollback_note_ko@ == r.rollback_note_ko
    &&& v.support_handoff_ko@ == r.support_handoff_ko
    &&& v.command_preview@ == r.command_preview
    &&& v.requires_elevation_method == r.requires_elevation_method
}

/// Commands the application never runs.
pub open spec fn forbidden_command_list() -> Seq<Seq<char>> {
    seq![
        "vercel login --github"@,
        "vercel login --gitlab"@,
        "vercel login --bitbucket"@,
        "vercel login --oob"@,
        "--token"@,
        "sh -c"@,
        "cmd /C <user-input>"@,
    ]
}

/// What the application promises about credentials and commands.
pub open spec fn security_note_list() -> Seq<Seq<char>> {
    seq![
        "이 프로그램은 비밀번호를 묻지 않습니다."@,
        "GitHub와 Vercel 로그인은 공식 브라우저 흐름만 사용합니다."@,
        "모든 명령은 allowlist와 structured args로만 실행합니다."@,
        "리포트 export 전 민감정보를 가립니다."@,
    ]
}

fn step_view(step: &RecipeStep, host_os: &str) -> (v: RecipeStepView)
    ensures
        shows_recipe(v, step@, host_os@),
{
    RecipeStepView {
        verify_command_label: command_label(step),
        id: step.id,
        target_os: step.target_os,
        label_ko: step.label_ko,
        description_ko: step.description_ko,
        required_for_class: step.required_for_class.is_required_on(host_os),
        requires_consent: step.requires_consent,
        may_require_elevation: step.may_require_elevation,
        requires_browser: step.requires_browser,
        required_version_hint: step.required_version_hint,
        docs_url: step.docs_url,
        risk_tier: step.risk_tier,
        action_phase: step.action_phase,
        approval_copy_ko: step.approval_copy_ko,
        expected_permission_prompt_ko: step.expected_permission_prompt_ko,
        package_source: step.package_source,
        rollback_note_ko: step.rollback_note_ko,
        support_handoff_ko: step.support_handoff_ko,
        command_preview: step.command_preview,
        requires_elevation_method: step.requires_elevation_method,
    }
}

/// The setup plan for the host whose operating system is `current_os`: every
/// allowlisted recipe in order, the forbidden commands and the security
/// notes.
pub fn get_setup_plan(current_os: &'static str) -> (p: AppPlan)
    ensures
        p.current_os == current_os,
        p.steps@.len() == recipe_catalog().len(),
        forall|i: int|
            0 <= i < recipe_catalog().len() ==> shows_recipe(
                #[trigger] p.steps@[i],
                recipe_catalog()[i],
                current_os@,
            ),
        p.forbidden_commands@.map_values(|c: &str| c@) == forbidden_command_list(),
        p.security_notes@.map_values(|c: &str| c@) == security_note_list(),
{
    let all = allowed_commands();
    let n = all.len();
    let mut steps: Vec<RecipeStepView> = Vec::new();
    let mut i: usize = 0;
    while i < n
        invariant
            n == all@.len(),
            i <= n,
            models(all@) == recipe_catalog(),
            steps@.len() == i,
            forall|k: int| 0 <= k < i ==> shows_recipe(#[trigger] steps@[k], recipe_catalog()[k], current_os@),
        decreases n - i,
    {
        assert(all@[i as int]@ == recipe_catalog()[i as int]);
        steps.push(step_view(&all[i], current_os));
        i += 1;
    }
    let forbidden_commands = vec![
        "vercel login --github",
        "vercel login --gitlab",
        "vercel login --bitbucket",
        "vercel login --oob",
        "--token",
        "sh -c",
        "cmd /C <user-input>",
    ];
    let security_notes = vec![
        "이 프로그램은 비밀번호를 묻지 않습니다.",
        "GitHub와 Vercel 로그인은 공식 브라우저 흐름만 사용합니다.",
        "모든 명령은 allowlist와 structured args로만 실행합니다.",
        "리포트 export 전 민감정보를 가립니다.",
    ];
    assert(forbidden_commands@.map_values(|c: &str| c@) =~= forbidden_command_list());
    assert(security_notes@.map_values(|c: &str| c@) =~= security_note_list());
    AppPlan { current_os, steps, forbidden_commands, security_notes }
}

} // verus!

//! The allowlist of commands that the setup checker may run: each recipe's
//! program, structured arguments, risk tier, action phase and the texts shown
//! to the student.
use vstd::prelude::*;

use crate::text::{copy_strs, same_text, views};

verus! {

/// How much a recipe may change the machine.
#[derive(Debug, Clone, Copy, PartialEq, Eq, Structural)]
pub enum RiskTier {
    Safe,
    UserMediated,
    PermissionPrompt,
    Blocked,
}

/// What running a recipe does.
#[derive(Debug, Clone, Copy, PartialEq, Eq, Structural)]
pub enum ActionPhase {
    Detect,
    Install,
    ExternalFlow,
    ManualGuidance,
    NotAutomated,
}

/// How a recipe obtains elevated rights, if it needs them.
#[derive(Debug, Clone, Copy, PartialEq, Eq, Structural)]
pub enum ElevationMethod {
    NoElevation,
    OsascriptAdmin,
    WindowsRunas,
    UserManaged,
}

/// On which host a recipe is required for class.
#[derive(Debug, Clone, Copy, PartialEq, Eq, Structural)]
pub enum ClassRequirement {
    Required,
    Optional,
    RequiredOnMacos,
    RequiredOnWindows,
}

/// Whether a recipe with requirement `req` is required for class on the host
/// whose operating system is named `os` (as `std::env::consts::OS` names it).
pub open spec fn required_on(req: ClassRequirement, os: Seq<char>) -> bool {
    match req {
        ClassRequirement::Required => true,
        ClassRequirement::Optional => false,
        ClassRequirement::RequiredOnMacos => os == "macos"@,
        ClassRequirement::RequiredOnWindows => os == "windows"@,
    }
}

impl ClassRequirement {
    /// Whether the recipe is required for class on the host `os`.
    pub fn is_required_on(&self, os: &str) -> (b: bool)
        ensures
            b == required_on(*self, os@),
    {
        match self {
            ClassRequirement::Required => true,
            ClassRequirement::Optional => false,
            ClassRequirement::RequiredOnMacos => same_text(os, "macos"),
            ClassRequirement::RequiredOnWindows => same_text(os, "windows"),
        }
    }
}

/// One allowlisted command and everything the interface says about it.
#[derive(Debug, Clone)]
pub struct RecipeStep {
    pub id: &'static str,
    pub target_os: Option<&'static str>,
    pub label_ko: &'static str,
    pub description_ko: &'static str,
    pub program: &'static str,
    pub args: Vec<&'static str>,
    pub required_for_class: ClassRequirement,
    pub requires_consent: bool,
    pub may_require_elevation: bool,
    pub requires_browser: bool,
    pub required_version_hint: Option<&'static str>,
    pub docs_url: &'static str,
    pub risk_tier: RiskTier,
    pub action_phase: ActionPhase,
    pub approval_copy_ko: &'static str,
    pub expected_permission_prompt_ko: &'static str,
    pub package_source: Option<&'static str>,
    pub rollback_note_ko: &'static str,
    pub support_handoff_ko: &'static str,
    pub command_preview: &'static str,
    pub requires_elevation_method: ElevationMethod,
}

impl RecipeStep {
    /// A copy of the recipe.
    pub fn clone_step(&self) -> (r: RecipeStep)
        ensures
            r@ == self@,
    {
        RecipeStep {
            id: self.id,
            target_os: self.target_os,
            label_ko: self.label_ko,
            description_ko: self.description_ko,
            program: self.program,
            args: copy_strs(&self.args),
            required_for_class: self.required_for_class,
            requires_consent: self.requires_consent,
            may_require_elevation: self.may_require_elevation,
            requires_browser: self.requires_browser,
            required_version_hint: self.required_version_hint,
            docs_url: self.docs_url,
            risk_tier: self.risk_tier,
            action_phase: self.action_phase,
            approval_copy_ko: self.approval_copy_ko,
            expected_permission_prompt_ko: self.expected_permission_prompt_ko,
            package_source: self.package_source,
            rollback_note_ko: self.rollback_note_ko,
            support_handoff_ko: self.support_handoff_ko,
            command_preview: self.command_preview,
            requires_elevation_method: self.requires_elevation_method,
        }
    }
}

/// The mathematical content of a [`RecipeStep`].
pub struct RecipeModel {
    pub id: Seq<char>,
    pub target_os: Option<Seq<char>>,
    pub label_ko: Seq<char>,
    pub description_ko: Seq<char>,
    pub program: Seq<char>,
    pub args: Seq<Seq<char>>,
    pub required_for_class: ClassRequirement,
    pub requires_consent: bool,
    pub may_require_elevation: bool,
    pub requires_browser: bool,
    pub required_version_hint: Option<Seq<char>>,
    pub docs_url: Seq<char>,
    pub risk_tier: RiskTier,
    pub action_phase: ActionPhase,
    pub approval_copy_ko: Seq<char>,
    pub expected_permission_prompt_ko: Seq<char>,
    pub package_source: Option<Seq<char>>,
    pub rollback_note_ko: Seq<char>,
    pub support_handoff_ko: Seq<char>,
    pub command_preview: Seq<char>,
    pub requires_elevation_method: ElevationMethod,
}

/// The view of an optional string slice.
pub open spec fn opt_view(o: Option<&str>) -> Option<Seq<char>> {
    match o {
        Some(s) => Some(s@),
        None => None,
    }
}

impl View for RecipeStep {
    type V = RecipeModel;

    open spec fn view(&self) -> RecipeModel {
        RecipeModel {
            id: self.id@,
            target_os: opt_view(self.target_os),
            label_ko: self.label_ko@,
            description_ko: self.description_ko@,
            program: self.program@,
            args: views(self.args@),
            required_for_class: self.required_for_class,
            requires_consent: self.requires_consent,
            may_require_elevation: self.may_require_elevation,
            requires_browser: self.requires_browser,
            required_version_hint: opt_view(self.required_version_hint),
            docs_url: self.docs_url@,
            risk_tier: self.risk_tier,
            action_phase: self.action_phase,
            approval_copy_ko: self.approval_copy_ko@,
            expected_permission_prompt_ko: self.expected_permission_prompt_ko@,
            package_source: opt_view(self.package_source),
            rollback_note_ko: self.rollback_note_ko@,
            support_handoff_ko: self.support_handoff_ko@,
            command_preview: self.command_preview@,
            requires_elevation_method: self.requires_elevation_method,
        }
    }
}

/// The views of a sequence of recipe steps.
pub open spec fn models(steps: Seq<RecipeStep>) -> Seq<RecipeModel> {
    steps.map_values(|s: RecipeStep| s@)
}

/// The first recipe of `cat` whose id is `id`.
pub open spec fn lookup_in(cat: Seq<RecipeModel>, id: Seq<char>) -> Option<RecipeModel>
    decreases cat.len(),
{
    if cat.len() == 0 {
        None
    } else if cat[0].id == id {
        Some(cat[0])
    } else {
        lookup_in(cat.drop_first(), id)
    }
}

/// The allowlisted recipe whose id is `id`, if there is one.
pub open spec fn lookup_recipe(id: Seq<char>) -> Option<RecipeModel> {
    lookup_in(recipe_catalog(), id)
}

/// A lookup finds a recipe of the catalog with the requested id, and finds
/// none exactly when no recipe has that id.
pub proof fn lemma_lookup_in(cat: Seq<RecipeModel>, id: Seq<char>)
    ensures
        lookup_in(cat, id) is None <==> forall|i: int| 0 <= i < cat.len() ==> #[trigger] cat[i].id != id,
        lookup_in(cat, id) matches Some(m) ==> exists|i: int|
            0 <= i < cat.len() && #[trigger] cat[i] == m && m.id == id,
    decreases cat.len(),
{
    if cat.len() > 0 && cat[0].id != id {
        lemma_lookup_in(cat.drop_first(), id);
        if lookup_in(cat, id) is None {
            assert forall|i: int| 0 <= i < cat.len() implies #[trigger] cat[i].id != id by {
                if i > 0 {
                    assert(cat[i] == cat.drop_first()[i - 1]);
                }
            }
        } else {
            let m = lookup_in(cat, id)->0;
            let j = choose|j: int| 0 <= j < cat.drop_first().len() && cat.drop_first()[j] == m && m.id == id;
            assert(cat[j + 1] == m);
        }
        if forall|i: int| 0 <= i < cat.len() ==> #[trigger] cat[i].id != id {
            assert forall|i: int| 0 <= i < cat.drop_first().len() implies #[trigger] cat.drop_first()[i].id != id by {
                assert(cat.drop_first()[i] == cat[i + 1]);
            }
        }
    } else if cat.len() > 0 {
        assert(cat[0] == lookup_in(cat, id)->0);
    }
}

/// Every allowlisted recipe, in the order in which the interface lists them.
pub fn allowed_commands() -> (steps: Vec<RecipeStep>)
    ensures
        models(steps@) == recipe_catalog(),
{
    let mut steps: Vec<RecipeStep> = Vec::new();
    steps.push(node_version_step());
    steps.push(node_install_windows_winget_step());
    steps.push(npm_version_step());
    steps.push(pnpm_version_step());
    steps.push(pnpm_install_windows_npm_step());
    steps.push(git_version_step());
    steps.push(git_install_windows_winget_step());
    steps.push(gh_auth_status_step());
    steps.push(gh_install_windows_winget_step());
    steps.push(gh_auth_login_step());
    steps.push(vercel_whoami_step());
    steps.push(vercel_install_windows_npm_step());
    steps.push(vercel_login_step());
    steps.push(macos_version_step());
    steps.push(macos_clt_step());
    steps.push(brew_version_step());
    steps.push(windows_winget_version_step());
    steps.push(wsl_status_step());
    assert(models(steps@) =~= recipe_catalog());
    steps
}

/// The recipe steps looked up by id: `Some` exactly when a recipe with that id
/// is allowlisted, and then the first such recipe.
pub fn find_allowed_command(command_id: &str) -> (found: Option<RecipeStep>)
    ensures
        match found {
            Some(step) => lookup_recipe(command_id@) == Some(step@),
            None => lookup_recipe(command_id@) is None,
        },
{
    let mut steps = allowed_commands();
    let n = steps.len();
    let mut i: usize = 0;
    assert(recipe_catalog().skip(0) =~= recipe_catalog());
    while i < n
        invariant
            n == steps@.len(),
            i <= n,
            models(steps@) == recipe_catalog(),
            lookup_recipe(command_id@) == lookup_in(recipe_catalog().skip(i as int), command_id@),
        decreases n - i,
    {
        let ghost rest = recipe_catalog().skip(i as int);
        assert(rest[0] == steps@[i as int]@);
        if same_text(steps[i].id, command_id) {
            let step = steps.remove(i);
            return Some(step);
        }
        assert(rest.drop_first() =~= recipe_catalog().skip(i + 1));
        i += 1;
    }
    None
}

/// The allowlist, in order.
pub open spec fn recipe_catalog() -> Seq<RecipeModel> {
    seq![
        node_version_recipe(),
        node_install_windows_winget_recipe(),
        npm_version_recipe(),
        pnpm_version_recipe(),
        pnpm_install_windows_npm_recipe(),
        git_version_recipe(),
        git_install_windows_winget_recipe(),
        gh_auth_status_recipe(),
        gh_install_windows_winget_recipe(),
        gh_auth_login_recipe(),
        vercel_whoami_recipe(),
        vercel_install_windows_npm_recipe(),
        vercel_login_recipe(),
        macos_version_recipe(),
        macos_clt_recipe(),
        brew_version_recipe(),
        windows_winget_version_recipe(),
        wsl_status_recipe(),
    ]
}

/// The recipe "node.version".
pub open spec fn node_version_recipe() -> RecipeModel {
    RecipeModel {
        id: "node.version"@,
        target_os: None,
        label_ko: "Node.js 버전 확인"@,
        description_ko: "수업에서 사용할 Node.js v24 LTS가 준비되어 있는지 확인합니다."@,
        program: "node"@,
        args: seq!["-v"@],
        required_for_class: ClassRequirement::Required,
        requires_consent: false,
        may_require_elevation: false,
        requires_browser: false,
        required_version_hint: Some("^v24."@),
        docs_url: "https://nodejs.org/dist/latest-v24.x/"@,
        risk_tier: RiskTier::Safe,
        action_phase: ActionPhase::Detect,
        approval_copy_ko: "현재 상태만 확인하며 컴퓨터 설정을 바꾸지 않습니다."@,
        expected_permission_prompt_ko: "권한 창이 나타나지 않습니다."@,
        package_source: None,
        rollback_note_ko: "변경 사항이 없어 되돌릴 작업이 없습니다."@,
        support_handoff_ko: "진단 결과와 redacted evidence를 강사에게 전달하세요."@,
        command_preview: "node -v"@,
        requires_elevation_method: ElevationMethod::NoElevation,
    }
}

fn node_version_step() -> (s: RecipeStep)
    ensures
        s@ == node_version_recipe(),
{
    let s = RecipeStep {
        id: "node.version",
        target_os: None,
        label_ko: "Node.js 버전 확인",
        description_ko: "수업에서 사용할 Node.js v24 LTS가 준비되어 있는지 확인합니다.",
        program: "node",
        args: vec!["-v"],
        required_for_class: ClassRequirement::Required,
        requires_consent: false,
        may_require_elevation: false,
        requires_browser: false,
        required_version_hint: Some("^v24."),
        docs_url: "https://nodejs.org/dist/latest-v24.x/",
        risk_tier: RiskTier::Safe,
        action_phase: ActionPhase::Detect,
        approval_copy_ko: "현재 상태만 확인하며 컴퓨터 설정을 바꾸지 않습니다.",
        expected_permission_prompt_ko: "권한 창이 나타나지 않습니다.",
        package_source: None,
        rollback_note_ko: "변경 사항이 없어 되돌릴 작업이 없습니다.",
        support_handoff_ko: "진단 결과와 redacted evidence를 강사에게 전달하세요.",
        command_preview: "node -v",
        requires_elevation_method: ElevationMethod::NoElevation,
    };
    assert(views(s.args@) =~= seq!["-v"@]);
    s
}

/// The recipe "node.install.windows.winget".
pub open spec fn node_install_windows_winget_recipe() -> RecipeModel {
    RecipeModel {
        id: "node.install.windows.winget"@,
        target_os: Some("windows"@),
        label_ko: "Node.js LTS 설치"@,
        description_ko: "WinGet으로 수업 기준 Node.js v24 LTS 설치 관리자를 실행합니다. npm도 함께 설치됩니다."@,
        program: "winget"@,
        args: seq!["install"@, "--id"@, "OpenJS.NodeJS.LTS"@, "-e"@, "--accept-package-agreements"@, "--accept-source-agreements"@, "--disable-interactivity"@, "--silent"@],
        required_for_class: ClassRequirement::Optional,
        requires_consent: true,
        may_require_elevation: true,
        requires_browser: false,
        required_version_hint: Some("^v24."@),
        docs_url: "https://nodejs.org/"@,
        risk_tier: RiskTier::PermissionPrompt,
        action_phase: ActionPhase::Install,
        approval_copy_ko: "앱이 WinGet 설치를 시작하고, 사용자는 Windows 권한 창에서 '예'만 눌러 진행합니다."@,
        expected_permission_prompt_ko: "Windows 사용자 계정 컨트롤(UAC)에서 Node.js 설치 권한을 묻습니다. 자동 클릭은 하지 않습니다."@,
        package_source: Some("winget: OpenJS.NodeJS.LTS"@),
        rollback_note_ko: "Windows 설정 > 앱 또는 winget uninstall --id OpenJS.NodeJS.LTS 으로 제거할 수 있습니다."@,
        support_handoff_ko: "UAC에서 예를 눌렀는지, winget 설치 종료 코드와 node -v 검증 결과를 확인하세요."@,
        command_preview: "winget install --id OpenJS.NodeJS.LTS -e --accept-package-agreements --accept-source-agreements --disable-interactivity --silent"@,
        requires_elevation_method: ElevationMethod::WindowsRunas,
    }
}

fn node_install_windows_winget_step() -> (s: RecipeStep)
    ensures
        s@ == node_install_windows_winget_recipe(),
{
    let s = RecipeStep {
        id: "node.install.windows.winget",
        target_os: Some("windows"),
        label_ko: "Node.js LTS 설치",
        description_ko: "WinGet으로 수업 기준 Node.js v24 LTS 설치 관리자를 실행합니다. npm도 함께 설치됩니다.",
        program: "winget",
        args: vec!["install", "--id", "OpenJS.NodeJS.LTS", "-e", "--accept-package-agreements", "--accept-source-agreements", "--disable-interactivity", "--silent"],
        required_for_class: ClassRequirement::Optional,
        requires_consent: true,
        may_require_elevation: true,
        requires_browser: false,
        required_version_hint: Some("^v24."),
        docs_url: "https://nodejs.org/",
        risk_tier: RiskTier::PermissionPrompt,
        action_phase: ActionPhase::Install,
        approval_copy_ko: "앱이 WinGet 설치를 시작하고, 사용자는 Windows 권한 창에서 '예'만 눌러 진행합니다.",
        expected_permission_prompt_ko: "Windows 사용자 계정 컨트롤(UAC)에서 Node.js 설치 권한을 묻습니다. 자동 클릭은 하지 않습니다.",
        package_source: Some("winget: OpenJS.NodeJS.LTS"),
        rollback_note_ko: "Windows 설정 > 앱 또는 winget uninstall --id OpenJS.NodeJS.LTS 으로 제거할 수 있습니다.",
        support_handoff_ko: "UAC에서 예를 눌렀는지, winget 설치 종료 코드와 node -v 검증 결과를 확인하세요.",
        command_preview: "winget install --id OpenJS.NodeJS.LTS -e --accept-package-agreements --accept-source-agreements --disable-interactivity --silent",
        requires_elevation_method: ElevationMethod::WindowsRunas,
    };
    assert(views(s.args@) =~= seq!["install"@, "--id"@, "OpenJS.NodeJS.LTS"@, "-e"@, "--accept-package-agreements"@, "--accept-source-agreements"@, "--disable-interactivity"@, "--silent"@]);
    s
}

/// The recipe "npm.version".
pub open spec fn npm_version_recipe() -> RecipeModel {
    RecipeModel {
        id: "npm.version"@,
        target_os: None,
        label_ko: "npm 확인"@,
        description_ko: "Node.js와 함께 제공되는 npm이 실행되는지 확인합니다."@,
        program: "npm"@,
        args: seq!["-v"@],
        required_for_class: ClassRequirement::Required,
        requires_consent: false,
        may_require_elevation: false,
        requires_browser: false,
        required_version_hint: None,
        docs_url: "https://nodejs.org/"@,
        risk_tier: RiskTier::Safe,
        action_phase: ActionPhase::Detect,
        approval_copy_ko: "현재 상태만 확인하며 컴퓨터 설정을 바꾸지 않습니다."@,
        expected_permission_prompt_ko: "권한 창이 나타나지 않습니다."@,
        package_source: None,
        rollback_note_ko: "변경 사항이 없어 되돌릴 작업이 없습니다."@,
        support_handoff_ko: "진단 결과와 redacted evidence를 강사에게 전달하세요."@,
        command_preview: "npm -v"@,
        requires_elevation_method: ElevationMethod::NoElevation,
    }
}

fn npm_version_step() -> (s: RecipeStep)
    ensures
        s@ == npm_version_recipe(),
{
    let s = RecipeStep {
        id: "npm.version",
        target_os: None,
        label_ko: "npm 확인",
        description_ko: "Node.js와 함께 제공되는 npm이 실행되는지 확인합니다.",
        program: "npm",
        args: vec!["-v"],
        required_for_class: ClassRequirement::Required,
        requires_consent: false,
        may_require_elevation: false,
        requires_browser: false,
        required_version_hint: None,
        docs_url: "https://nodejs.org/",
        risk_tier: RiskTier::Safe,
        action_phase: ActionPhase::Detect,
        approval_copy_ko: "현재 상태만 확인하며 컴퓨터 설정을 바꾸지 않습니다.",
        expected_permission_prompt_ko: "권한 창이 나타나지 않습니다.",
        package_source: None,
        rollback_note_ko: "변경 사항이 없어 되돌릴 작업이 없습니다.",
        support_handoff_ko: "진단 결과와 redacted evidence를 강사에게 전달하세요.",
        command_preview: "npm -v",
        requires_elevation_method: ElevationMethod::NoElevation,
    };
    assert(views(s.args@) =~= seq!["-v"@]);
    s
}

/// The recipe "pnpm.version".
pub open spec fn pnpm_version_recipe() -> RecipeModel {
    RecipeModel {
        id: "pnpm.version"@,
        target_os: None,
        label_ko: "pnpm 확인"@,
        description_ko: "수업 패키지 매니저인 pnpm이 준비되어 있는지 확인합니다."@,
        program: "pnpm"@,
        args: seq!["-v"@],
        required_for_class: ClassRequirement::Required,
        requires_consent: false,
        may_require_elevation: false,
        requires_browser: false,
        required_version_hint: None,
        docs_url: "https://pnpm.io/"@,
        risk_tier: RiskTier::Safe,
        action_phase: ActionPhase::Detect,
        approval_copy_ko: "현재 상태만 확인하며 컴퓨터 설정을 바꾸지 않습니다."@,
        expected_permission_prompt_ko: "권한 창이 나타나지 않습니다."@,
        package_source: None,
        rollback_note_ko: "변경 사항이 없어 되돌릴 작업이 없습니다."@,
        support_handoff_ko: "진단 결과와 redacted evidence를 강사에게 전달하세요."@,
        command_preview: "pnpm -v"@,
        requires_elevation_method: ElevationMethod::NoElevation,
    }
}

fn pnpm_version_step() -> (s: RecipeStep)
    ensures
        s@ == pnpm_version_recipe(),
{
    let s = RecipeStep {
        id: "pnpm.version",
        target_os: None,
        label_ko: "pnpm 확인",
        description_ko: "수업 패키지 매니저인 pnpm이 준비되어 있는지 확인합니다.",
        program: "pnpm",
        args: vec!["-v"],
        required_for_class: ClassRequirement::Required,
        requires_consent: false,
        may_require_elevation: false,
        requires_browser: false,
        required_version_hint: None,
        docs_url: "https://pnpm.io/",
        risk_tier: RiskTier::Safe,
        action_phase: ActionPhase::Detect,
        approval_copy_ko: "현재 상태만 확인하며 컴퓨터 설정을 바꾸지 않습니다.",
        expected_permission_prompt_ko: "권한 창이 나타나지 않습니다.",
        package_source: None,
        rollback_note_ko: "변경 사항이 없어 되돌릴 작업이 없습니다.",
        support_handoff_ko: "진단 결과와 redacted evidence를 강사에게 전달하세요.",
        command_preview: "pnpm -v",
        requires_elevation_method: ElevationMethod::NoElevation,
    };
    assert(views(s.args@) =~= seq!["-v"@]);
    s
}

/// The recipe "pnpm.install.windows.npm".
pub open spec fn pnpm_install_windows_npm_recipe() -> RecipeModel {
    RecipeModel {
        id: "pnpm.install.windows.npm"@,
        target_os: Some("windows"@),
        label_ko: "pnpm 설치"@,
        description_ko: "Node.js 설치 후 npm으로 pnpm을 전역 설치합니다."@,
        program: "npm"@,
        args: seq!["install"@, "-g"@, "pnpm@latest"@],
        required_for_class: ClassRequirement::Optional,
        requires_consent: true,
        may_require_elevation: false,
        requires_browser: false,
        required_version_hint: None,
        docs_url: "https://pnpm.io/installation"@,
        risk_tier: RiskTier::UserMediated,
        action_phase: ActionPhase::Install,
        approval_copy_ko: "Node.js/npm이 준비된 뒤 pnpm을 설치합니다. 일반적으로 Windows 권한 창은 뜨지 않습니다."@,
        expected_permission_prompt_ko: "보통 권한 창이 나타나지 않습니다. Node.js 설치 직후라면 PATH 반영을 위해 재진단이 필요할 수 있습니다."@,
        package_source: Some("npm: pnpm@latest"@),
        rollback_note_ko: "npm uninstall -g pnpm 으로 제거할 수 있습니다."@,
        support_handoff_ko: "npm 실행 가능 여부와 npm 전역 설치 로그, pnpm -v 검증 결과를 확인하세요."@,
        command_preview: "npm install -g pnpm@latest"@,
        requires_elevation_method: ElevationMethod::NoElevation,
    }
}

fn pnpm_install_windows_npm_step() -> (s: RecipeStep)
    ensures
        s@ == pnpm_install_windows_npm_recipe(),
{
    let s = RecipeStep {
        id: "pnpm.install.windows.npm",
        target_os: Some("windows"),
        label_ko: "pnpm 설치",
        description_ko: "Node.js 설치 후 npm으로 pnpm을 전역 설치합니다.",
        program: "npm",
        args: vec!["install", "-g", "pnpm@latest"],
        required_for_class: ClassRequirement::Optional,
        requires_consent: true,
        may_require_elevation: false,
        requires_browser: false,
        required_version_hint: None,
        docs_url: "https://pnpm.io/installation",
        risk_tier: RiskTier::UserMediated,
        action_phase: ActionPhase::Install,
        approval_copy_ko: "Node.js/npm이 준비된 뒤 pnpm을 설치합니다. 일반적으로 Windows 권한 창은 뜨지 않습니다.",
        expected_permission_prompt_ko: "보통 권한 창이 나타나지 않습니다. Node.js 설치 직후라면 PATH 반영을 위해 재진단이 필요할 수 있습니다.",
        package_source: Some("npm: pnpm@latest"),
        rollback_note_ko: "npm uninstall -g pnpm 으로 제거할 수 있습니다.",
        support_handoff_ko: "npm 실행 가능 여부와 npm 전역 설치 로그, pnpm -v 검증 결과를 확인하세요.",
        command_preview: "npm install -g pnpm@latest",
        requires_elevation_method: ElevationMethod::NoElevation,
    };
    assert(views(s.args@) =~= seq!["install"@, "-g"@, "pnpm@latest"@]);
    s
}

/// The recipe "git.version".
pub open spec fn git_version_recipe() -> RecipeModel {
    RecipeModel {
        id: "git.version"@,
        target_os: None,
        label_ko: "Git 확인"@,
        description_ko: "프로젝트 파일을 내려받고 기록하기 위한 Git을 확인합니다."@,
        program: "git"@,
        args: seq!["--version"@],
        required_for_class: ClassRequirement::Required,
        requires_consent: false,
        may_require_elevation: false,
        requires_browser: false,
        required_version_hint: None,
        docs_url: "https://github.com/git-guides/install-git"@,
        risk_tier: RiskTier::Safe,
        action_phase: ActionPhase::Detect,
        approval_copy_ko: "현재 상태만 확인하며 컴퓨터 설정을 바꾸지 않습니다."@,
        expected_permission_prompt_ko: "권한 창이 나타나지 않습니다."@,
        package_source: None,
        rollback_note_ko: "변경 사항이 없어 되돌릴 작업이 없습니다."@,
        support_handoff_ko: "진단 결과와 redacted evidence를 강사에게 전달하세요."@,
        command_preview: "git --version"@,
        requires_elevation_method: ElevationMethod::NoElevation,
    }
}

fn git_version_step() -> (s: RecipeStep)
    ensures
        s@ == git_version_recipe(),
{
    let s = RecipeStep {
        id: "git.version",
        target_os: None,
        label_ko: "Git 확인",
        description_ko: "프로젝트 파일을 내려받고 기록하기 위한 Git을 확인합니다.",
        program: "git",
        args: vec!["--version"],
        required_for_class: ClassRequirement::Required,
        requires_consent: false,
        may_require_elevation: false,
        requires_browser: false,
        required_version_hint: None,
        docs_url: "https://github.com/git-guides/install-git",
        risk_tier: RiskTier::Safe,
        action_phase: ActionPhase::Detect,
        approval_copy_ko: "현재 상태만 확인하며 컴퓨터 설정을 바꾸지 않습니다.",
        expected_permission_prompt_ko: "권한 창이 나타나지 않습니다.",
        package_source: None,
        rollback_note_ko: "변경 사항이 없어 되돌릴 작업이 없습니다.",
        support_handoff_ko: "진단 결과와 redacted evidence를 강사에게 전달하세요.",
        command_preview: "git --version",
        requires_elevation_method: ElevationMethod::NoElevation,
    };
    assert(views(s.args@) =~= seq!["--version"@]);
    s
}

/// The recipe "git.install.windows.winget".
pub open spec fn git_install_windows_winget_recipe() -> RecipeModel {
    RecipeModel {
        id: "git.install.windows.winget"@,
        target_os: Some("windows"@),
        label_ko: "Git for Windows 설치"@,
        description_ko: "WinGet으로 공식 Git for Windows 설치 관리자를 실행합니다. Windows 권한 창이 뜨면 사용자가 직접 '예'를 눌러야 합니다."@,
        program: "winget"@,
        args: seq!["install"@, "--id"@, "Git.Git"@, "-e"@, "--accept-package-agreements"@, "--accept-source-agreements"@, "--disable-interactivity"@, "--silent"@],
        required_for_class: ClassRequirement::Optional,
        requires_consent: true,
        may_require_elevation: true,
        requires_browser: false,
        required_version_hint: None,
        docs_url: "https://git-scm.com/download/win"@,
        risk_tier: RiskTier::PermissionPrompt,
        action_phase: ActionPhase::Install,
        approval_copy_ko: "앱이 WinGet 설치를 시작하고, 사용자는 Windows 권한 창에서 '예'만 눌러 진행합니다."@,
        expected_permission_prompt_ko: "Windows 사용자 계정 컨트롤(UAC)에서 Git for Windows 설치 권한을 묻습니다. 자동 클릭은 하지 않습니다."@,
        package_source: Some("winget: Git.Git"@),
        rollback_note_ko: "Windows 설정 > 앱 또는 winget uninstall --id Git.Git 으로 제거할 수 있습니다."@,
        support_handoff_ko: "UAC에서 예를 눌렀는지, winget 설치 종료 코드와 git --version 검증 결과를 확인하세요."@,
        command_preview: "winget install --id Git.Git -e --accept-package-agreements --accept-source-agreements --disable-interactivity --silent"@,
        requires_elevation_method: ElevationMethod::WindowsRunas,
    }
}

fn git_install_windows_winget_step() -> (s: RecipeStep)
    ensures
        s@ == git_install_windows_winget_recipe(),
{
    let s = RecipeStep {
        id: "git.install.windows.winget",
        target_os: Some("windows"),
        label_ko: "Git for Windows 설치",
        description_ko: "WinGet으로 공식 Git for Windows 설치 관리자를 실행합니다. Windows 권한 창이 뜨면 사용자가 직접 '예'를 눌러야 합니다.",
        program: "winget",
        args: vec!["install", "--id", "Git.Git", "-e", "--accept-package-agreements", "--accept-source-agreements", "--disable-interactivity", "--silent"],
        required_for_class: ClassRequirement::Optional,
        requires_consent: true,
        may_require_elevation: true,
        requires_browser: false,
        required_version_hint: None,
        docs_url: "https://git-scm.com/download/win",
        risk_tier: RiskTier::PermissionPrompt,
        action_phase: ActionPhase::Install,
        approval_copy_ko: "앱이 WinGet 설치를 시작하고, 사용자는 Windows 권한 창에서 '예'만 눌러 진행합니다.",
        expected_permission_prompt_ko: "Windows 사용자 계정 컨트롤(UAC)에서 Git for Windows 설치 권한을 묻습니다. 자동 클릭은 하지 않습니다.",
        package_source: Some("winget: Git.Git"),
        rollback_note_ko: "Windows 설정 > 앱 또는 winget uninstall --id Git.Git 으로 제거할 수 있습니다.",
        support_handoff_ko: "UAC에서 예를 눌렀는지, winget 설치 종료 코드와 git --version 검증 결과를 확인하세요.",
        command_preview: "winget install --id Git.Git -e --accept-package-agreements --accept-source-agreements --disable-interactivity --silent",
        requires_elevation_method: ElevationMethod::WindowsRunas,
    };
    assert(views(s.args@) =~= seq!["install"@, "--id"@, "Git.Git"@, "-e"@, "--accept-package-agreements"@, "--accept-source-agreements"@, "--disable-interactivity"@, "--silent"@]);
    s
}

/// The recipe "gh.auth.status".
pub open spec fn gh_auth_status_recipe() -> RecipeModel {
    RecipeModel {
        id: "gh.auth.status"@,
        target_os: None,
        label_ko: "GitHub 로그인 확인"@,
        description_ko: "GitHub CLI가 브라우저 로그인으로 연결되어 있는지 확인합니다."@,
        program: "gh"@,
        args: seq!["auth"@, "status"@],
        required_for_class: ClassRequirement::Required,
        requires_consent: false,
        may_require_elevation: false,
        requires_browser: false,
        required_version_hint: None,
        docs_url: "https://cli.github.com/manual/gh_auth_login"@,
        risk_tier: RiskTier::Safe,
        action_phase: ActionPhase::Detect,
        approval_copy_ko: "현재 상태만 확인하며 컴퓨터 설정을 바꾸지 않습니다."@,
        expected_permission_prompt_ko: "권한 창이 나타나지 않습니다."@,
        package_source: None,
        rollback_note_ko: "변경 사항이 없어 되돌릴 작업이 없습니다."@,
        support_handoff_ko: "진단 결과와 redacted evidence를 강사에게 전달하세요."@,
        command_preview: "gh auth status"@,
        requires_elevation_method: ElevationMethod::NoElevation,
    }
}

fn gh_auth_status_step() -> (s: RecipeStep)
    ensures
        s@ == gh_auth_status_recipe(),
{
    let s = RecipeStep {
        id: "gh.auth.status",
        target_os: None,
        label_ko: "GitHub 로그인 확인",
        description_ko: "GitHub CLI가 브라우저 로그인으로 연결되어 있는지 확인합니다.",
        program: "gh",
        args: vec!["auth", "status"],
        required_for_class: ClassRequirement::Required,
        requires_consent: false,
        may_require_elevation: false,
        requires_browser: false,
        required_version_hint: None,
        docs_url: "https://cli.github.com/manual/gh_auth_login",
        risk_tier: RiskTier::Safe,
        action_phase: ActionPhase::Detect,
        approval_copy_ko: "현재 상태만 확인하며 컴퓨터 설정을 바꾸지 않습니다.",
        expected_permission_prompt_ko: "권한 창이 나타나지 않습니다.",
        package_source: None,
        rollback_note_ko: "변경 사항이 없어 되돌릴 작업이 없습니다.",
        support_handoff_ko: "진단 결과와 redacted evidence를 강사에게 전달하세요.",
        command_preview: "gh auth status",
        requires_elevation_method: ElevationMethod::NoElevation,
    };
    assert(views(s.args@) =~= seq!["auth"@, "status"@]);
    s
}

/// The recipe "gh.install.windows.winget".
pub open spec fn gh_install_windows_winget_recipe() -> RecipeModel {
    RecipeModel {
        id: "gh.install.windows.winget"@,
        target_os: Some("windows"@),
        label_ko: "GitHub CLI 설치"@,
        description_ko: "WinGet으로 공식 GitHub CLI를 설치합니다. 로그인은 설치 후 별도 브라우저 흐름으로 진행합니다."@,
        program: "winget"@,
        args: seq!["install"@, "--id"@, "GitHub.cli"@, "-e"@, "--accept-package-agreements"@, "--accept-source-agreements"@, "--disable-interactivity"@, "--silent"@],
        required_for_class: ClassRequirement::Optional,
        requires_consent: true,
        may_require_elevation: true,
        requires_browser: false,
        required_version_hint: None,
        docs_url: "https://cli.github.com/"@,
        risk_tier: RiskTier::PermissionPrompt,
        action_phase: ActionPhase::Install,
        approval_copy_ko: "앱이 WinGet 설치를 시작하고, 사용자는 Windows 권한 창에서 '예'만 눌러 진행합니다."@,
        expected_permission_prompt_ko: "Windows 사용자 계정 컨트롤(UAC)에서 GitHub CLI 설치 권한을 묻습니다. 자동 클릭은 하지 않습니다."@,
        package_source: Some("winget: GitHub.cli"@),
        rollback_note_ko: "Windows 설정 > 앱 또는 winget uninstall --id GitHub.cli 으로 제거할 수 있습니다."@,
        support_handoff_ko: "UAC에서 예를 눌렀는지, winget 설치 종료 코드와 gh --version 검증 결과를 확인하세요."@,
        command_preview: "winget install --id GitHub.cli -e --accept-package-agreements --accept-source-agreements --disable-interactivity --silent"@,
        requires_elevation_method: ElevationMethod::WindowsRunas,
    }
}

fn gh_install_windows_winget_step() -> (s: RecipeStep)
    ensures
        s@ == gh_install_windows_winget_recipe(),
{
    let s = RecipeStep {
        id: "gh.install.windows.winget",
        target_os: Some("windows"),
        label_ko: "GitHub CLI 설치",
        description_ko: "WinGet으로 공식 GitHub CLI를 설치합니다. 로그인은 설치 후 별도 브라우저 흐름으로 진행합니다.",
        program: "winget",
        args: vec!["install", "--id", "GitHub.cli", "-e", "--accept-package-agreements", "--accept-source-agreements", "--disable-interactivity", "--silent"],
        required_for_class: ClassRequirement::Optional,
        requires_consent: true,
        may_require_elevation: true,
        requires_browser: false,
        required_version_hint: None,
        docs_url: "https://cli.github.com/",
        risk_tier: RiskTier::PermissionPrompt,
        action_phase: ActionPhase::Install,
        approval_copy_ko: "앱이 WinGet 설치를 시작하고, 사용자는 Windows 권한 창에서 '예'만 눌러 진행합니다.",
        expected_permission_prompt_ko: "Windows 사용자 계정 컨트롤(UAC)에서 GitHub CLI 설치 권한을 묻습니다. 자동 클릭은 하지 않습니다.",
        package_source: Some("winget: GitHub.cli"),
        rollback_note_ko: "Windows 설정 > 앱 또는 winget uninstall --id GitHub.cli 으로 제거할 수 있습니다.",
        support_handoff_ko: "UAC에서 예를 눌렀는지, winget 설치 종료 코드와 gh --version 검증 결과를 확인하세요.",
        command_preview: "winget install --id GitHub.cli -e --accept-package-agreements --accept-source-agreements --disable-interactivity --silent",
        requires_elevation_method: ElevationMethod::WindowsRunas,
    };
    assert(views(s.args@) =~= seq!["install"@, "--id"@, "GitHub.cli"@, "-e"@, "--accept-package-agreements"@, "--accept-source-agreements"@, "--disable-interactivity"@, "--silent"@]);
    s
}

/// The recipe "gh.auth.login".
pub open spec fn gh_auth_login_recipe() -> RecipeModel {
    RecipeModel {
        id: "gh.auth.login"@,
        target_os: None,
        label_ko: "GitHub 브라우저 로그인 시작"@,
        description_ko: "GitHub 로그인은 브라우저에서 진행됩니다. 이 앱은 GitHub 비밀번호를 묻지 않습니다."@,
        program: "gh"@,
        args: seq!["auth"@, "login"@, "--web"@, "--clipboard"@, "--hostname"@, "github.com"@, "--git-protocol"@, "https"@],
        required_for_class: ClassRequirement::Required,
        requires_consent: true,
        may_require_elevation: false,
        requires_browser: true,
        required_version_hint: None,
        docs_url: "https://cli.github.com/manual/gh_auth_login"@,
        risk_tier: RiskTier::UserMediated,
        action_phase: ActionPhase::ExternalFlow,
        approval_copy_ko: "공식 브라우저 로그인 흐름을 엽니다. 앱은 비밀번호나 토큰을 받지 않습니다."@,
        expected_permission_prompt_ko: "브라우저 로그인 또는 device code 확인 화면이 나타날 수 있습니다."@,
        package_source: None,
        rollback_note_ko: "로그인은 해당 서비스의 공식 CLI에서 관리합니다. 필요하면 공식 CLI에서 로그아웃하세요."@,
        support_handoff_ko: "브라우저 로그인 단계에서 막혔는지, CLI 인증 상태가 실패했는지 확인하세요."@,
        command_preview: "gh auth login --web --clipboard --hostname github.com --git-protocol https"@,
        requires_elevation_method: ElevationMethod::UserManaged,
    }
}

fn gh_auth_login_step() -> (s: RecipeStep)
    ensures
        s@ == gh_auth_login_recipe(),
{
    let s = RecipeStep {
        id: "gh.auth.login",
        target_os: None,
        label_ko: "GitHub 브라우저 로그인 시작",
        description_ko: "GitHub 로그인은 브라우저에서 진행됩니다. 이 앱은 GitHub 비밀번호를 묻지 않습니다.",
        program: "gh",
        args: vec!["auth", "login", "--web", "--clipboard", "--hostname", "github.com", "--git-protocol", "https"],
        required_for_class: ClassRequirement::Required,
        requires_consent: true,
        may_require_elevation: false,
        requires_browser: true,
        required_version_hint: None,
        docs_url: "https://cli.github.com/manual/gh_auth_login",
        risk_tier: RiskTier::UserMediated,
        action_phase: ActionPhase::ExternalFlow,
        approval_copy_ko: "공식 브라우저 로그인 흐름을 엽니다. 앱은 비밀번호나 토큰을 받지 않습니다.",
        expected_permission_prompt_ko: "브라우저 로그인 또는 device code 확인 화면이 나타날 수 있습니다.",
        package_source: None,
        rollback_note_ko: "로그인은 해당 서비스의 공식 CLI에서 관리합니다. 필요하면 공식 CLI에서 로그아웃하세요.",
        support_handoff_ko: "브라우저 로그인 단계에서 막혔는지, CLI 인증 상태가 실패했는지 확인하세요.",
        command_preview: "gh auth login --web --clipboard --hostname github.com --git-protocol https",
        requires_elevation_method: ElevationMethod::UserManaged,
    };
    assert(views(s.args@) =~= seq!["auth"@, "login"@, "--web"@, "--clipboard"@, "--hostname"@, "github.com"@, "--git-protocol"@, "https"@]);
    s
}

/// The recipe "vercel.whoami".
pub open spec fn vercel_whoami_recipe() -> RecipeModel {
    RecipeModel {
        id: "vercel.whoami"@,
        target_os: None,
        label_ko: "Vercel 로그인 확인"@,
        description_ko: "Vercel CLI가 로그인되어 있는지 확인합니다."@,
        program: "vercel"@,
        args: seq!["whoami"@],
        required_for_class: ClassRequirement::Required,
        requires_consent: false,
        may_require_elevation: false,
        requires_browser: false,
        required_version_hint: None,
        docs_url: "https://vercel.com/docs/cli"@,
        risk_tier: RiskTier::Safe,
        action_phase: ActionPhase::Detect,
        approval_copy_ko: "현재 상태만 확인하며 컴퓨터 설정을 바꾸지 않습니다."@,
        expected_permission_prompt_ko: "권한 창이 나타나지 않습니다."@,
        package_source: None,
        rollback_note_ko: "변경 사항이 없어 되돌릴 작업이 없습니다."@,
        support_handoff_ko: "진단 결과와 redacted evidence를 강사에게 전달하세요."@,
        command_preview: "vercel whoami"@,
        requires_elevation_method: ElevationMethod::NoElevation,
    }
}

fn vercel_whoami_step() -> (s: RecipeStep)
    ensures
        s@ == vercel_whoami_recipe(),
{
    let s = RecipeStep {
        id: "vercel.whoami",
        target_os: None,
        label_ko: "Vercel 로그인 확인",
        description_ko: "Vercel CLI가 로그인되어 있는지 확인합니다.",
        program: "vercel",
        args: vec!["whoami"],
        required_for_class: ClassRequirement::Required,
        requires_consent: false,
        may_require_elevation: false,
        requires_browser: false,
        required_version_hint: None,
        docs_url: "https://vercel.com/docs/cli",
        risk_tier: RiskTier::Safe,
        action_phase: ActionPhase::Detect,
        approval_copy_ko: "현재 상태만 확인하며 컴퓨터 설정을 바꾸지 않습니다.",
        expected_permission_prompt_ko: "권한 창이 나타나지 않습니다.",
        package_source: None,
        rollback_note_ko: "변경 사항이 없어 되돌릴 작업이 없습니다.",
        support_handoff_ko: "진단 결과와 redacted evidence를 강사에게 전달하세요.",
        command_preview: "vercel whoami",
        requires_elevation_method: ElevationMethod::NoElevation,
    };
    assert(views(s.args@) =~= seq!["whoami"@]);
    s
}

/// The recipe "vercel.install.windows.npm".
pub open spec fn vercel_install_windows_npm_recipe() -> RecipeModel {
    RecipeModel {
        id: "vercel.install.windows.npm"@,
        target_os: Some("windows"@),
        label_ko: "Vercel CLI 설치"@,
        description_ko: "Node.js/npm이 준비된 뒤 Vercel CLI를 설치합니다. 가입/로그인은 설치 후 공식 브라우저 흐름으로 진행합니다."@,
        program: "npm"@,
        args: seq!["install"@, "-g"@, "vercel@latest"@],
        required_for_class: ClassRequirement::Optional,
        requires_consent: true,
        may_require_elevation: false,
        requires_browser: false,
        required_version_hint: None,
        docs_url: "https://vercel.com/docs/cli"@,
        risk_tier: RiskTier::UserMediated,
        action_phase: ActionPhase::Install,
        approval_copy_ko: "npm으로 Vercel CLI를 설치합니다. 계정이 없다면 설치 후 브라우저 가입/로그인을 안내합니다."@,
        expected_permission_prompt_ko: "보통 권한 창이 나타나지 않습니다. Node.js 설치 직후라면 PATH 반영을 위해 재진단이 필요할 수 있습니다."@,
        package_source: Some("npm: vercel@latest"@),
        rollback_note_ko: "npm uninstall -g vercel 으로 제거할 수 있습니다."@,
        support_handoff_ko: "npm 실행 가능 여부와 npm 전역 설치 로그, vercel --version/whoami 검증 결과를 확인하세요."@,
        command_preview: "npm install -g vercel@latest"@,
        requires_elevation_method: ElevationMethod::NoElevation,
    }
}

fn vercel_install_windows_npm_step() -> (s: RecipeStep)
    ensures
        s@ == vercel_install_windows_npm_recipe(),
{
    let s = RecipeStep {
        id: "vercel.install.windows.npm",
        target_os: Some("windows"),
        label_ko: "Vercel CLI 설치",
        description_ko: "Node.js/npm이 준비된 뒤 Vercel CLI를 설치합니다. 가입/로그인은 설치 후 공식 브라우저 흐름으로 진행합니다.",
        program: "npm",
        args: vec!["install", "-g", "vercel@latest"],
        required_for_class: ClassRequirement::Optional,
        requires_consent: true,
        may_require_elevation: false,
        requires_browser: false,
        required_version_hint: None,
        docs_url: "https://vercel.com/docs/cli",
        risk_tier: RiskTier::UserMediated,
        action_phase: ActionPhase::Install,
        approval_copy_ko: "npm으로 Vercel CLI를 설치합니다. 계정이 없다면 설치 후 브라우저 가입/로그인을 안내합니다.",
        expected_permission_prompt_ko: "보통 권한 창이 나타나지 않습니다. Node.js 설치 직후라면 PATH 반영을 위해 재진단이 필요할 수 있습니다.",
        package_source: Some("npm: vercel@latest"),
        rollback_note_ko: "npm uninstall -g vercel 으로 제거할 수 있습니다.",
        support_handoff_ko: "npm 실행 가능 여부와 npm 전역 설치 로그, vercel --version/whoami 검증 결과를 확인하세요.",
        command_preview: "npm install -g vercel@latest",
        requires_elevation_method: ElevationMethod::NoElevation,
    };
    assert(views(s.args@) =~= seq!["install"@, "-g"@, "vercel@latest"@]);
    s
}

/// The recipe "vercel.login".
pub open spec fn vercel_login_recipe() -> RecipeModel {
    RecipeModel {
        id: "vercel.login"@,
        target_os: None,
        label_ko: "Vercel 브라우저 로그인 시작"@,
        description_ko: "Vercel 로그인은 브라우저/코드 확인 흐름으로 진행됩니다. 이 앱은 Vercel 비밀번호를 묻지 않습니다."@,
        program: "vercel"@,
        args: seq!["login"@],
        required_for_class: ClassRequirement::Required,
        requires_consent: true,
        may_require_elevation: false,
        requires_browser: true,
        required_version_hint: None,
        docs_url: "https://vercel.com/docs/cli/login"@,
        risk_tier: RiskTier::UserMediated,
        action_phase: ActionPhase::ExternalFlow,
        approval_copy_ko: "공식 브라우저 로그인 흐름을 엽니다. 앱은 비밀번호나 토큰을 받지 않습니다."@,
        expected_permission_prompt_ko: "브라우저 로그인 또는 device code 확인 화면이 나타날 수 있습니다."@,
        package_source: None,
        rollback_note_ko: "로그인은 해당 서비스의 공식 CLI에서 관리합니다. 필요하면 공식 CLI에서 로그아웃하세요."@,
        support_handoff_ko: "브라우저 로그인 단계에서 막혔는지, CLI 인증 상태가 실패했는지 확인하세요."@,
        command_preview: "vercel login"@,
        requires_elevation_method: ElevationMethod::UserManaged,
    }
}

fn vercel_login_step() -> (s: RecipeStep)
    ensures
        s@ == vercel_login_recipe(),
{
    let s = RecipeStep {
        id: "vercel.login",
        target_os: None,
        label_ko: "Vercel 브라우저 로그인 시작",
        description_ko: "Vercel 로그인은 브라우저/코드 확인 흐름으로 진행됩니다. 이 앱은 Vercel 비밀번호를 묻지 않습니다.",
        program: "vercel",
        args: vec!["login"],
        required_for_class: ClassRequirement::Required,
        requires_consent: true,
        may_require_elevation: false,
        requires_browser: true,
        required_version_hint: None,
        docs_url: "https://vercel.com/docs/cli/login",
        risk_tier: RiskTier::UserMediated,
        action_phase: ActionPhase::ExternalFlow,
        approval_copy_ko: "공식 브라우저 로그인 흐름을 엽니다. 앱은 비밀번호나 토큰을 받지 않습니다.",
        expected_permission_prompt_ko: "브라우저 로그인 또는 device code 확인 화면이 나타날 수 있습니다.",
        package_source: None,
        rollback_note_ko: "로그인은 해당 서비스의 공식 CLI에서 관리합니다. 필요하면 공식 CLI에서 로그아웃하세요.",
        support_handoff_ko: "브라우저 로그인 단계에서 막혔는지, CLI 인증 상태가 실패했는지 확인하세요.",
        command_preview: "vercel login",
        requires_elevation_method: ElevationMethod::UserManaged,
    };
    assert(views(s.args@) =~= seq!["login"@]);
    s
}

/// The recipe "macos.version".
pub open spec fn macos_version_recipe() -> RecipeModel {
    RecipeModel {
        id: "macos.version"@,
        target_os: None,
        label_ko: "macOS 버전 확인"@,
        description_ko: "Homebrew와 수업 도구를 설치할 수 있는 macOS인지 확인합니다."@,
        program: "sw_vers"@,
        args: seq!["-productVersion"@],
        required_for_class: ClassRequirement::RequiredOnMacos,
        requires_consent: false,
        may_require_elevation: false,
        requires_browser: false,
        required_version_hint: Some("14 이상"@),
        docs_url: "https://docs.brew.sh/Installation"@,
        risk_tier: RiskTier::Safe,
        action_phase: ActionPhase::Detect,
        approval_copy_ko: "현재 상태만 확인하며 컴퓨터 설정을 바꾸지 않습니다."@,
        expected_permission_prompt_ko: "권한 창이 나타나지 않습니다."@,
        package_source: None,
        rollback_note_ko: "변경 사항이 없어 되돌릴 작업이 없습니다."@,
        support_handoff_ko: "진단 결과와 redacted evidence를 강사에게 전달하세요."@,
        command_preview: "sw_vers -productVersion"@,
        requires_elevation_method: ElevationMethod::NoElevation,
    }
}

fn macos_version_step() -> (s: RecipeStep)
    ensures
        s@ == macos_version_recipe(),
{
    let s = RecipeStep {
        id: "macos.version",
        target_os: None,
        label_ko: "macOS 버전 확인",
        description_ko: "Homebrew와 수업 도구를 설치할 수 있는 macOS인지 확인합니다.",
        program: "sw_vers",
        args: vec!["-productVersion"],
        required_for_class: ClassRequirement::RequiredOnMacos,
        requires_consent: false,
        may_require_elevation: false,
        requires_browser: false,
        required_version_hint: Some("14 이상"),
        docs_url: "https://docs.brew.sh/Installation",
        risk_tier: RiskTier::Safe,
        action_phase: ActionPhase::Detect,
        approval_copy_ko: "현재 상태만 확인하며 컴퓨터 설정을 바꾸지 않습니다.",
        expected_permission_prompt_ko: "권한 창이 나타나지 않습니다.",
        package_source: None,
        rollback_note_ko: "변경 사항이 없어 되돌릴 작업이 없습니다.",
        support_handoff_ko: "진단 결과와 redacted evidence를 강사에게 전달하세요.",
        command_preview: "sw_vers -productVersion",
        requires_elevation_method: ElevationMethod::NoElevation,
    };
    assert(views(s.args@) =~= seq!["-productVersion"@]);
    s
}

/// The recipe "macos.clt".
pub open spec fn macos_clt_recipe() -> RecipeModel {
    RecipeModel {
        id: "macos.clt"@,
        target_os: None,
        label_ko: "Command Line Tools 확인"@,
        description_ko: "macOS 개발 도구 준비 상태를 확인합니다."@,
        program: "xcode-select"@,
        args: seq!["-p"@],
        required_for_class: ClassRequirement::RequiredOnMacos,
        requires_consent: false,
        may_require_elevation: false,
        requires_browser: false,
        required_version_hint: None,
        docs_url: "https://docs.brew.sh/Installation"@,
        risk_tier: RiskTier::Safe,
        action_phase: ActionPhase::Detect,
        approval_copy_ko: "현재 상태만 확인하며 컴퓨터 설정을 바꾸지 않습니다."@,
        expected_permission_prompt_ko: "권한 창이 나타나지 않습니다."@,
        package_source: None,
        rollback_note_ko: "변경 사항이 없어 되돌릴 작업이 없습니다."@,
        support_handoff_ko: "진단 결과와 redacted evidence를 강사에게 전달하세요."@,
        command_preview: "xcode-select -p"@,
        requires_elevation_method: ElevationMethod::NoElevation,
    }
}

fn macos_clt_step() -> (s: RecipeStep)
    ensures
        s@ == macos_clt_recipe(),
{
    let s = RecipeStep {
        id: "macos.clt",
        target_os: None,
        label_ko: "Command Line Tools 확인",
        description_ko: "macOS 개발 도구 준비 상태를 확인합니다.",
        program: "xcode-select",
        args: vec!["-p"],
        required_for_class: ClassRequirement::RequiredOnMacos,
        requires_consent: false,
        may_require_elevation: false,
        requires_browser: false,
        required_version_hint: None,
        docs_url: "https://docs.brew.sh/Installation",
        risk_tier: RiskTier::Safe,
        action_phase: ActionPhase::Detect,
        approval_copy_ko: "현재 상태만 확인하며 컴퓨터 설정을 바꾸지 않습니다.",
        expected_permission_prompt_ko: "권한 창이 나타나지 않습니다.",
        package_source: None,
        rollback_note_ko: "변경 사항이 없어 되돌릴 작업이 없습니다.",
        support_handoff_ko: "진단 결과와 redacted evidence를 강사에게 전달하세요.",
        command_preview: "xcode-select -p",
        requires_elevation_method: ElevationMethod::NoElevation,
    };
    assert(views(s.args@) =~= seq!["-p"@]);
    s
}

/// The recipe "brew.version".
pub open spec fn brew_version_recipe() -> RecipeModel {
    RecipeModel {
        id: "brew.version"@,
        target_os: None,
        label_ko: "Homebrew 확인"@,
        description_ko: "macOS 패키지 설치 도구인 Homebrew를 확인합니다."@,
        program: "brew"@,
        args: seq!["--version"@],
        required_for_class: ClassRequirement::RequiredOnMacos,
        requires_consent: false,
        may_require_elevation: false,
        requires_browser: false,
        required_version_hint: None,
        docs_url: "https://docs.brew.sh/Installation"@,
        risk_tier: RiskTier::Safe,
        action_phase: ActionPhase::Detect,
        approval_copy_ko: "현재 상태만 확인하며 컴퓨터 설정을 바꾸지 않습니다."@,
        expected_permission_prompt_ko: "권한 창이 나타나지 않습니다."@,
        package_source: None,
        rollback_note_ko: "변경 사항이 없어 되돌릴 작업이 없습니다."@,
        support_handoff_ko: "진단 결과와 redacted evidence를 강사에게 전달하세요."@,
        command_preview: "brew --version"@,
        requires_elevation_method: ElevationMethod::NoElevation,
    }
}

fn brew_version_step() -> (s: RecipeStep)
    ensures
        s@ == brew_version_recipe(),
{
    let s = RecipeStep {
        id: "brew.version",
        target_os: None,
        label_ko: "Homebrew 확인",
        description_ko: "macOS 패키지 설치 도구인 Homebrew를 확인합니다.",
        program: "brew",
        args: vec!["--version"],
        required_for_class: ClassRequirement::RequiredOnMacos,
        requires_consent: false,
        may_require_elevation: false,
        requires_browser: false,
        required_version_hint: None,
        docs_url: "https://docs.brew.sh/Installation",
        risk_tier: RiskTier::Safe,
        action_phase: ActionPhase::Detect,
        approval_copy_ko: "현재 상태만 확인하며 컴퓨터 설정을 바꾸지 않습니다.",
        expected_permission_prompt_ko: "권한 창이 나타나지 않습니다.",
        package_source: None,
        rollback_note_ko: "변경 사항이 없어 되돌릴 작업이 없습니다.",
        support_handoff_ko: "진단 결과와 redacted evidence를 강사에게 전달하세요.",
        command_preview: "brew --version",
        requires_elevation_method: ElevationMethod::NoElevation,
    };
    assert(views(s.args@) =~= seq!["--version"@]);
    s
}

/// The recipe "windows.winget.version".
pub open spec fn windows_winget_version_recipe() -> RecipeModel {
    RecipeModel {
        id: "windows.winget.version"@,
        target_os: None,
        label_ko: "WinGet 확인"@,
        description_ko: "Windows 패키지 설치 도구인 WinGet을 확인합니다."@,
        program: "winget"@,
        args: seq!["--version"@],
        required_for_class: ClassRequirement::RequiredOnWindows,
        requires_consent: false,
        may_require_elevation: false,
        requires_browser: false,
        required_version_hint: None,
        docs_url: "https://learn.microsoft.com/en-us/windows/package-manager/winget/"@,
        risk_tier: RiskTier::Safe,
        action_phase: ActionPhase::Detect,
        approval_copy_ko: "현재 상태만 확인하며 컴퓨터 설정을 바꾸지 않습니다."@,
        expected_permission_prompt_ko: "권한 창이 나타나지 않습니다."@,
        package_source: None,
        rollback_note_ko: "변경 사항이 없어 되돌릴 작업이 없습니다."@,
        support_handoff_ko: "진단 결과와 redacted evidence를 강사에게 전달하세요."@,
        command_preview: "winget --version"@,
        requires_elevation_method: ElevationMethod::NoElevation,
    }
}

fn windows_winget_version_step() -> (s: RecipeStep)
    ensures
        s@ == windows_winget_version_recipe(),
{
    let s = RecipeStep {
        id: "windows.winget.version",
        target_os: None,
        label_ko: "WinGet 확인",
        description_ko: "Windows 패키지 설치 도구인 WinGet을 확인합니다.",
        program: "winget",
        args: vec!["--version"],
        required_for_class: ClassRequirement::RequiredOnWindows,
        requires_consent: false,
        may_require_elevation: false,
        requires_browser: false,
        required_version_hint: None,
        docs_url: "https://learn.microsoft.com/en-us/windows/package-manager/winget/",
        risk_tier: RiskTier::Safe,
        action_phase: ActionPhase::Detect,
        approval_copy_ko: "현재 상태만 확인하며 컴퓨터 설정을 바꾸지 않습니다.",
        expected_permission_prompt_ko: "권한 창이 나타나지 않습니다.",
        package_source: None,
        rollback_note_ko: "변경 사항이 없어 되돌릴 작업이 없습니다.",
        support_handoff_ko: "진단 결과와 redacted evidence를 강사에게 전달하세요.",
        command_preview: "winget --version",
        requires_elevation_method: ElevationMethod::NoElevation,
    };
    assert(views(s.args@) =~= seq!["--version"@]);
    s
}

/// The recipe "wsl.status".
pub open spec fn wsl_status_recipe() -> RecipeModel {
    RecipeModel {
        id: "wsl.status"@,
        target_os: None,
        label_ko: "WSL 확인"@,
        description_ko: "Windows에서 Linux 환경이 필요한 수업을 위한 WSL 상태를 확인합니다. 기본 수업에서는 선택 항목입니다."@,
        program: "wsl"@,
        args: seq!["--status"@],
        required_for_class: ClassRequirement::Optional,
        requires_consent: false,
        may_require_elevation: false,
        requires_browser: false,
        required_version_hint: None,
        docs_url: "https://learn.microsoft.com/en-us/windows/wsl/install"@,
        risk_tier: RiskTier::Safe,
        action_phase: ActionPhase::Detect,
        approval_copy_ko: "현재 상태만 확인하며 컴퓨터 설정을 바꾸지 않습니다."@,
        expected_permission_prompt_ko: "권한 창이 나타나지 않습니다."@,
        package_source: None,
        rollback_note_ko: "변경 사항이 없어 되돌릴 작업이 없습니다."@,
        support_handoff_ko: "진단 결과와 redacted evidence를 강사에게 전달하세요."@,
        command_preview: "wsl --status"@,
        requires_elevation_method: ElevationMethod::NoElevation,
    }
}

fn wsl_status_step() -> (s: RecipeStep)
    ensures
        s@ == wsl_status_recipe(),
{
    let s = RecipeStep {
        id: "wsl.status",
        target_os: None,
        label_ko: "WSL 확인",
        description_ko: "Windows에서 Linux 환경이 필요한 수업을 위한 WSL 상태를 확인합니다. 기본 수업에서는 선택 항목입니다.",
        program: "wsl",
        args: vec!["--status"],
        required_for_class: ClassRequirement::Optional,
        requires_consent: false,
        may_require_elevation: false,
        requires_browser: false,
        required_version_hint: None,
        docs_url: "https://learn.microsoft.com/en-us/windows/wsl/install",
        risk_tier: RiskTier::Safe,
        action_phase: ActionPhase::Detect,
        approval_copy_ko: "현재 상태만 확인하며 컴퓨터 설정을 바꾸지 않습니다.",
        expected_permission_prompt_ko: "권한 창이 나타나지 않습니다.",
        package_source: None,
        rollback_note_ko: "변경 사항이 없어 되돌릴 작업이 없습니다.",
        support_handoff_ko: "진단 결과와 redacted evidence를 강사에게 전달하세요.",
        command_preview: "wsl --status",
        requires_elevation_method: ElevationMethod::NoElevation,
    };
    assert(views(s.args@) =~= seq!["--status"@]);
    s
}
} // verus!

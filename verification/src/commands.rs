//! How recipes are shown and chained: the command line a recipe stands for,
//! the detection recipe that checks an installation, and the launcher of the
//! official login flows.
use vstd::prelude::*;

use crate::catalog::{opt_view, RecipeStep};
use crate::text::{join, join_strs, same_text, views};

verus! {

/// The command line of `program` with `args`, each separated by one space.
pub open spec fn command_text(program: Seq<char>, args: Seq<Seq<char>>) -> Seq<char> {
    if args.len() == 0 {
        program
    } else {
        program + " "@ + join(args, " "@)
    }
}

/// The command line of `program` with `args`.
pub fn command_preview_for(program: &str, args: &Vec<&str>) -> (r: String)
    ensures
        r@ == command_text(program@, views(args@)),
{
    if args.len() == 0 {
        program.to_owned()
    } else {
        let mut r = program.to_owned();
        r.append(" ");
        let rest = join_strs(args, " ");
        r.append(rest.as_str());
        r
    }
}

/// The command line that a recipe runs.
pub fn command_label(step: &RecipeStep) -> (r: String)
    ensures
        r@ == command_text(step@.program, step@.args),
{
    command_preview_for(step.program, &step.args)
}

/// The detection recipe that confirms an installation done by the recipe
/// `action_id`, where the installation is confirmed through the allowlist.
pub open spec fn verify_step_id(action_id: Seq<char>) -> Option<Seq<char>> {
    if action_id == "node.install.windows.winget"@ {
        Some("node.version"@)
    } else if action_id == "pnpm.install.windows.npm"@ {
        Some("pnpm.version"@)
    } else if action_id == "git.install.windows.winget"@ {
        Some("git.version"@)
    } else {
        None
    }
}

/// The detection recipe that confirms the installation done by `action_id`.
pub fn execution_verify_step_id(action_id: &str) -> (r: Option<&'static str>)
    ensures
        opt_view(r) == verify_step_id(action_id@),
{
    if same_text(action_id, "node.install.windows.winget") {
        Some("node.version")
    } else if same_text(action_id, "pnpm.install.windows.npm") {
        Some("pnpm.version")
    } else if same_text(action_id, "git.install.windows.winget") {
        Some("git.version")
    } else {
        None
    }
}

/// The command that opens an official login flow in a terminal, and the
/// command that afterwards shows whether the login took.
#[derive(Debug, Clone)]
pub struct ExternalFlowCommand {
    pub title_ko: &'static str,
    pub program: &'static str,
    pub args: Vec<&'static str>,
    pub verify_program: &'static str,
    pub verify_args: Vec<&'static str>,
}

/// The mathematical content of an [`ExternalFlowCommand`].
pub struct FlowModel {
    pub title_ko: Seq<char>,
    pub program: Seq<char>,
    pub args: Seq<Seq<char>>,
    pub verify_program: Seq<char>,
    pub verify_args: Seq<Seq<char>>,
}

impl View for ExternalFlowCommand {
    type V = FlowModel;

    open spec fn view(&self) -> FlowModel {
        FlowModel {
            title_ko: self.title_ko@,
            program: self.program@,
            args: views(self.args@),
            verify_program: self.verify_program@,
            verify_args: views(self.verify_args@),
        }
    }
}

/// The GitHub browser login and its check.
pub open spec fn github_login_flow() -> FlowModel {
    FlowModel {
        title_ko: "GitHub 브라우저 로그인"@,
        program: "gh"@,
        args: seq![
            "auth"@,
            "login"@,
            "--web"@,
            "--clipboard"@,
            "--hostname"@,
            "github.com"@,
            "--git-protocol"@,
            "https"@,
        ],
        verify_program: "gh"@,
        verify_args: seq!["auth"@, "status"@],
    }
}

/// The Vercel browser login and its check.
pub open spec fn vercel_login_flow() -> FlowModel {
    FlowModel {
        title_ko: "Vercel 브라우저 로그인"@,
        program: "vercel"@,
        args: seq!["login"@],
        verify_program: "vercel"@,
        verify_args: seq!["whoami"@],
    }
}

/// The login flow launched for the recipe `action_id`, if it is one.
pub open spec fn external_flow_for(action_id: Seq<char>) -> Option<FlowModel> {
    if action_id == "gh.auth.login"@ {
        Some(github_login_flow())
    } else if action_id == "vercel.login"@ {
        Some(vercel_login_flow())
    } else {
        None
    }
}

/// The login flow launched for the recipe `action_id`.
pub fn external_flow_command_for(action_id: &str) -> (r: Option<ExternalFlowCommand>)
    ensures
        match r {
            Some(f) => external_flow_for(action_id@) == Some(f@),
            None => external_flow_for(action_id@) is None,
        },
{
    if same_text(action_id, "gh.auth.login") {
        let f = ExternalFlowCommand {
            title_ko: "GitHub 브라우저 로그인",
            program: "gh",
            args: vec![
                "auth",
                "login",
                "--web",
                "--clipboard",
                "--hostname",
                "github.com",
                "--git-protocol",
                "https",
            ],
            verify_program: "gh",
            verify_args: vec!["auth", "status"],
        };
        assert(f@.args =~= github_login_flow().args);
        assert(f@.verify_args =~= github_login_flow().verify_args);
        Some(f)
    } else if same_text(action_id, "vercel.login") {
        let f = ExternalFlowCommand {
            title_ko: "Vercel 브라우저 로그인",
            program: "vercel",
            args: vec!["login"],
            verify_program: "vercel",
            verify_args: vec!["whoami"],
        };
        assert(f@.args =~= vercel_login_flow().args);
        assert(f@.verify_args =~= vercel_login_flow().verify_args);
        Some(f)
    } else {
        None
    }
}

} // verus!

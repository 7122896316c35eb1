//! Which process is started, with which argument vector, to run an allowlisted
//! program or to open a login flow in a terminal on the host system.
use vstd::prelude::*;

use crate::commands::{ExternalFlowCommand, FlowModel};
use crate::scripts::{
    applescript_quoted, applescript_string, macos_external_flow_script, macos_flow_script,
    windows_external_flow_script, windows_flow_script,
};
use crate::text::{same_text, views};

verus! {

/// A program and the argument vector it is started with.
pub struct Invocation {
    pub program: String,
    pub args: Vec<String>,
}

/// The mathematical content of an [`Invocation`].
pub struct InvocationModel {
    pub program: Seq<char>,
    pub args: Seq<Seq<char>>,
}

/// The views of a sequence of owned strings.
pub open spec fn string_views(v: Seq<String>) -> Seq<Seq<char>> {
    v.map_values(|s: String| s@)
}

impl View for Invocation {
    type V = InvocationModel;

    open spec fn view(&self) -> InvocationModel {
        InvocationModel { program: self.program@, args: string_views(self.args@) }
    }
}

/// Package-manager front ends that are batch scripts on Windows and must be
/// started through `cmd /C`.
pub open spec fn is_batch_front_end(program: Seq<char>) -> bool {
    program == "npm"@ || program == "pnpm"@ || program == "vercel"@
}

/// How `program args` is started on `os`.
pub open spec fn program_invocation_model(
    os: Seq<char>,
    program: Seq<char>,
    args: Seq<Seq<char>>,
) -> InvocationModel {
    if os == "windows"@ && is_batch_front_end(program) {
        InvocationModel { program: "cmd"@, args: seq!["/C"@, program] + args }
    } else {
        InvocationModel { program, args }
    }
}

/// How the login flow `f` is opened on `os`: in a new `cmd.exe` window on
/// Windows, in Terminal through AppleScript on macOS, and directly elsewhere.
pub open spec fn launcher_model(os: Seq<char>, f: FlowModel) -> InvocationModel {
    if os == "windows"@ {
        InvocationModel {
            program: "cmd"@,
            args: seq![
                "/C"@,
                "start"@,
                "위드지니 셋업 - "@ + f.title_ko,
                "cmd"@,
                "/K"@,
                windows_flow_script(f),
            ],
        }
    } else if os == "macos"@ {
        InvocationModel {
            program: "osascript"@,
            args: seq![
                "-e"@,
                "tell application \"Terminal\" to activate\ntell application \"Terminal\" to do script "@
                    + applescript_quoted(macos_flow_script(f)),
            ],
        }
    } else {
        InvocationModel { program: f.program, args: f.args }
    }
}

/// Owned copies of `args`, in order.
fn owned_args(args: &Vec<&str>) -> (r: Vec<String>)
    ensures
        string_views(r@) == views(args@),
{
    let mut r: Vec<String> = Vec::new();
    let n = args.len();
    let mut i: usize = 0;
    while i < n
        invariant
            n == args@.len(),
            i <= n,
            string_views(r@) == views(args@).take(i as int),
        decreases n - i,
    {
        let ghost before = r@;
        assert(string_views(before).len() == before.len());
        let a: String = args[i].to_owned();
        r.push(a);
        assert forall|k: int| 0 <= k < i + 1 implies #[trigger] string_views(r@)[k] == views(
            args@,
        ).take(i + 1)[k] by {
            if k < i {
                assert(string_views(before)[k] == views(args@).take(i as int)[k]);
            }
        }
        assert(string_views(r@) =~= views(args@).take(i + 1));
        i += 1;
    }
    assert(views(args@).take(n as int) =~= views(args@));
    r
}

/// The process that runs `program args` on `host_os`.
pub fn program_invocation(host_os: &str, program: &str, args: &Vec<&str>) -> (r: Invocation)
    ensures
        r@ == program_invocation_model(host_os@, program@, views(args@)),
{
    let rest = owned_args(args);
    let batch = same_text(program, "npm") || same_text(program, "pnpm") || same_text(
        program,
        "vercel",
    );
    if same_text(host_os, "windows") && batch {
        let mut all: Vec<String> = vec!["/C".to_owned(), program.to_owned()];
        let ghost head = string_views(all@);
        let mut tail = rest;
        all.append(&mut tail);
        assert(string_views(all@) =~= head + string_views(rest@));
        assert(head =~= seq!["/C"@, program@]);
        Invocation { program: "cmd".to_owned(), args: all }
    } else {
        Invocation { program: program.to_owned(), args: rest }
    }
}

/// The process that opens the login flow `flow` on `host_os`.
pub fn external_flow_launcher(host_os: &str, flow: &ExternalFlowCommand) -> (r: Invocation)
    ensures
        r@ == launcher_model(host_os@, flow@),
{
    if same_text(host_os, "windows") {
        let mut title = "위드지니 셋업 - ".to_owned();
        title.append(flow.title_ko);
        let script = windows_external_flow_script(flow);
        let args: Vec<String> = vec![
            "/C".to_owned(),
            "start".to_owned(),
            title,
            "cmd".to_owned(),
            "/K".to_owned(),
            script,
        ];
        let r = Invocation { program: "cmd".to_owned(), args };
        assert(r@.args =~= launcher_model(host_os@, flow@).args);
        r
    } else if same_text(host_os, "macos") {
        let mut line = "tell application \"Terminal\" to activate\ntell application \"Terminal\" to do script ".to_owned();
        let script = macos_external_flow_script(flow);
        let quoted = applescript_string(script.as_str());
        line.append(quoted.as_str());
        let args: Vec<String> = vec!["-e".to_owned(), line];
        let r = Invocation { program: "osascript".to_owned(), args };
        assert(r@.args =~= launcher_model(host_os@, flow@).args);
        r
    } else {
        let r = Invocation { program: flow.program.to_owned(), args: owned_args(&flow.args) };
        r
    }
}

} // verus!

use withgenie_setup::commands::external_flow_command_for;
use withgenie_setup::launch::{external_flow_launcher, program_invocation};
use withgenie_setup::scripts::{
    applescript_string, macos_external_flow_script, posix_command_line, posix_shell_arg,
    windows_cmd_arg, windows_command_line, windows_external_flow_script,
};

#[test]
fn plain_words_are_not_quoted() {
    assert_eq!(windows_cmd_arg("github.com"), "github.com");
    assert_eq!(windows_cmd_arg("--git-protocol"), "--git-protocol");
    assert_eq!(posix_shell_arg("C:/tmp_dir:1"), "C:/tmp_dir:1");
}

#[test]
fn cmd_quoting_wraps_and_escapes_double_quotes() {
    assert_eq!(windows_cmd_arg("a b"), "\"a b\"");
    assert_eq!(windows_cmd_arg("say \"hi\""), "\"say \\\"hi\\\"\"");
    assert_eq!(windows_cmd_arg(""), "");
    assert_eq!(windows_cmd_arg("위드지니"), "\"위드지니\"");
}

#[test]
fn shell_quoting_survives_single_quotes() {
    assert_eq!(posix_shell_arg("it's"), "'it'\\''s'");
    assert_eq!(posix_shell_arg("a b;rm -rf"), "'a b;rm -rf'");
    assert_eq!(posix_shell_arg("$HOME"), "'$HOME'");
    assert_eq!(posix_shell_arg(""), "");
}

#[test]
fn applescript_strings_escape_backslashes_then_quotes() {
    assert_eq!(applescript_string("a\\b\"c"), "\"a\\\\b\\\"c\"");
    assert_eq!(applescript_string("plain"), "\"plain\"");
}

#[test]
fn command_lines_quote_each_word() {
    assert_eq!(posix_command_line("gh", &vec!["auth", "status"]), "gh auth status");
    assert_eq!(posix_command_line("echo", &vec!["it's here"]), "echo 'it'\\''s here'");
    assert_eq!(windows_command_line("cmd", &vec!["/C", "a b"]), "cmd /C \"a b\"");
    assert_eq!(windows_command_line("vercel", &vec![]), "vercel");
}

#[test]
fn windows_login_script_runs_login_then_check_and_pauses() {
    let flow = external_flow_command_for("vercel.login").expect("vercel flow");
    assert_eq!(
        windows_external_flow_script(&flow),
        "echo 위드지니 셋업 - Vercel 브라우저 로그인 & echo. & echo 브라우저 로그인/코드 확인을 완료해 주세요. & echo 이 창은 자동으로 닫히지 않습니다. & echo. & vercel login & echo. & echo 로그인 명령이 끝났습니다. 검증 결과: & vercel whoami & echo. & echo 완료 후 앱으로 돌아가 '안전 진단 시작'을 다시 눌러 주세요. & pause"
    );
}

#[test]
fn macos_login_script_runs_login_then_check() {
    let flow = external_flow_command_for("gh.auth.login").expect("github flow");
    assert_eq!(
        macos_external_flow_script(&flow),
        "echo '위드지니 셋업 - GitHub 브라우저 로그인'; echo; echo '브라우저 로그인/코드 확인을 완료해 주세요.'; gh auth login --web --clipboard --hostname github.com --git-protocol https; echo; echo '로그인 명령이 끝났습니다. 검증 결과:'; gh auth status; echo; echo \"완료 후 앱으로 돌아가 '안전 진단 시작'을 다시 눌러 주세요.\""
    );
}

#[test]
fn batch_front_ends_run_through_cmd_on_windows_only() {
    let on_windows = program_invocation("windows", "npm", &vec!["install", "-g", "pnpm@latest"]);
    assert_eq!(on_windows.program, "cmd");
    assert_eq!(on_windows.args, ["/C", "npm", "install", "-g", "pnpm@latest"]);

    let vercel = program_invocation("windows", "vercel", &vec!["whoami"]);
    assert_eq!((vercel.program.as_str(), vercel.args.clone()), ("cmd", vec!["/C".to_string(), "vercel".to_string(), "whoami".to_string()]));

    let git = program_invocation("windows", "git", &vec!["--version"]);
    assert_eq!((git.program.as_str(), git.args.clone()), ("git", vec!["--version".to_string()]));

    let on_mac = program_invocation("macos", "npm", &vec!["-v"]);
    assert_eq!((on_mac.program.as_str(), on_mac.args.clone()), ("npm", vec!["-v".to_string()]));
}

#[test]
fn login_flows_open_in_a_terminal_of_the_host() {
    let flow = external_flow_command_for("vercel.login").expect("vercel flow");

    let windows = external_flow_launcher("windows", &flow);
    assert_eq!(windows.program, "cmd");
    assert_eq!(windows.args.len(), 6);
    assert_eq!(windows.args[..5], ["/C", "start", "위드지니 셋업 - Vercel 브라우저 로그인", "cmd", "/K"]);
    assert_eq!(windows.args[5], windows_external_flow_script(&flow));

    let mac = external_flow_launcher("macos", &flow);
    assert_eq!(mac.program, "osascript");
    assert_eq!(mac.args[0], "-e");
    assert_eq!(
        mac.args[1],
        format!(
            "tell application \"Terminal\" to activate\ntell application \"Terminal\" to do script {}",
            applescript_string(&macos_external_flow_script(&flow))
        )
    );
    assert!(mac.args[1].ends_with("다시 눌러 주세요.\\\"\""));

    let linux = external_flow_launcher("linux", &flow);
    assert_eq!(linux.program, "vercel");
    assert_eq!(linux.args, ["login"]);
}

use minishell::builtins::{
    cd_failure_message, cmd_cd, cmd_echo, cmd_exit, cmd_pwd, cmd_type, exec_builtin,
    type_search_report, Builtin, BuiltinEffect,
};
use minishell::command::ShellCommand;
use minishell::os::ShellContext;

fn ctx_with_path(dirs: Vec<&str>) -> ShellContext {
    ShellContext {
        home: None,
        cwd: None,
        path_list: Some(dirs.into_iter().map(String::from).collect()),
    }
}

fn strings(words: Vec<&str>) -> Vec<String> {
    words.into_iter().map(String::from).collect()
}

#[test]
fn builtin_all_holds_the_five_builtins() {
    let all = Builtin::all();
    assert_eq!(all.len(), 5);
    let names: Vec<&str> = all.iter().map(|b| b.as_str()).collect();
    assert_eq!(names, vec!["cd", "echo", "exit", "type", "pwd"]);
}

#[test]
fn builtin_lookup_is_exact_and_case_sensitive() {
    assert_eq!(Builtin::from_name("echo"), Some(Builtin::Echo));
    assert_eq!(Builtin::from_name("Echo"), None);
    assert_eq!(Builtin::from_name("ech"), None);
    assert_eq!(Builtin::from_name(""), None);
}

#[test]
fn echo_joins_arguments_with_spaces() {
    assert_eq!(cmd_echo(&strings(vec!["hi"])), "hi\n");
    assert_eq!(cmd_echo(&strings(vec!["a", "b c", "d"])), "a b c d\n");
    assert_eq!(cmd_echo(&Vec::new()), "\n");
}

#[test]
fn exit_code_parses_first_argument() {
    assert_eq!(cmd_exit(&strings(vec!["3"])), 3);
    assert_eq!(cmd_exit(&strings(vec!["-7", "9"])), -7);
    assert_eq!(cmd_exit(&strings(vec!["+12"])), 12);
    assert_eq!(cmd_exit(&Vec::new()), 0);
}

#[test]
fn exit_code_defaults_to_zero_on_bad_input() {
    assert_eq!(cmd_exit(&strings(vec!["x"])), 0);
    assert_eq!(cmd_exit(&strings(vec![""])), 0);
    assert_eq!(cmd_exit(&strings(vec!["1 2"])), 0);
    assert_eq!(cmd_exit(&strings(vec!["2147483648"])), 0);
    assert_eq!(cmd_exit(&strings(vec!["99999999999999999999"])), 0);
}

#[test]
fn exit_code_accepts_the_extreme_values() {
    assert_eq!(cmd_exit(&strings(vec!["2147483647"])), i32::MAX);
    assert_eq!(cmd_exit(&strings(vec!["-2147483648"])), i32::MIN);
}

#[test]
fn cd_expands_tilde_with_home() {
    let home = Some(String::from("/home/u"));
    match cmd_cd(&strings(vec!["~/work"]), &home) {
        BuiltinEffect::Chdir { path, arg } => {
            assert_eq!(path, "/home/u/work");
            assert_eq!(arg, "~/work");
        },
        _ => panic!("cd should change directory"),
    }
    match cmd_cd(&strings(vec!["~"]), &home) {
        BuiltinEffect::Chdir { path, .. } => assert_eq!(path, "/home/u"),
        _ => panic!("cd should change directory"),
    }
}

#[test]
fn cd_without_home_or_argument_does_nothing() {
    assert!(matches!(cmd_cd(&strings(vec!["~/x"]), &None), BuiltinEffect::Nothing));
    assert!(matches!(cmd_cd(&Vec::new(), &Some(String::from("/h"))), BuiltinEffect::Nothing));
}

#[test]
fn cd_plain_path_is_kept() {
    match cmd_cd(&strings(vec!["/tmp"]), &None) {
        BuiltinEffect::Chdir { path, arg } => {
            assert_eq!(path, "/tmp");
            assert_eq!(arg, "/tmp");
        },
        _ => panic!("cd should change directory"),
    }
}

#[test]
fn cd_failure_report_text() {
    assert_eq!(cd_failure_message("xyz"), "cd: xyz: No such file or directory\n");
}

#[test]
fn pwd_writes_the_working_directory() {
    match cmd_pwd(&Some(String::from("/somewhere"))) {
        BuiltinEffect::Write { text } => assert_eq!(text, "/somewhere\n"),
        _ => panic!("pwd should write"),
    }
    assert!(matches!(cmd_pwd(&None), BuiltinEffect::Nothing));
}

#[test]
fn type_reports_builtins() {
    match cmd_type(&strings(vec!["cd"]), &None) {
        BuiltinEffect::Write { text } => assert_eq!(text, "cd is a shell builtin\n"),
        _ => panic!("type should write"),
    }
}

#[test]
fn type_reports_missing_names() {
    let dirs = Some(strings(vec!["/"]));
    match cmd_type(&strings(vec!["surely_not_a_command_qq"]), &dirs) {
        BuiltinEffect::Write { text } => {
            assert_eq!(text, "surely_not_a_command_qq: not found\n")
        },
        _ => panic!("type should write"),
    }
    match cmd_type(&strings(vec!["anything"]), &None) {
        BuiltinEffect::Write { text } => assert_eq!(text, "anything: not found\n"),
        _ => panic!("type should write"),
    }
    assert!(matches!(cmd_type(&Vec::new(), &None), BuiltinEffect::Nothing));
}

#[test]
fn type_search_report_follows_the_search_result() {
    let empty: Vec<String> = Vec::new();
    assert_eq!(type_search_report("x", &empty), "x: not found\n");
    let found = strings(vec!["/bin/x", "/usr/bin/x"]);
    assert_eq!(type_search_report("x", &found), "x is /bin/x\n");
}

#[test]
fn type_resolves_on_the_path_list() {
    // `/tmp` exists on every Linux system, so the name `tmp` resolves
    // under the directory `/`
    let dirs = Some(strings(vec!["/nonexistent_dir_qq", "/"]));
    match cmd_type(&strings(vec!["tmp"]), &dirs) {
        BuiltinEffect::Write { text } => assert_eq!(text, "tmp is /tmp\n"),
        _ => panic!("type should write"),
    }
}

#[test]
fn exec_builtin_routes_to_the_routines() {
    let cmd = ShellCommand::with_input("type cd").unwrap();
    let ctx = ctx_with_path(vec!["/"]);
    match exec_builtin(Builtin::Type, &cmd, &ctx) {
        BuiltinEffect::Write { text } => assert_eq!(text, "cd is a shell builtin\n"),
        _ => panic!("type should write"),
    }

    let cmd = ShellCommand::with_input("echo hello world").unwrap();
    match exec_builtin(Builtin::Echo, &cmd, &ctx) {
        BuiltinEffect::Write { text } => assert_eq!(text, "hello world\n"),
        _ => panic!("echo should write"),
    }

    let cmd = ShellCommand::with_input("exit 3").unwrap();
    match exec_builtin(Builtin::Exit, &cmd, &ctx) {
        BuiltinEffect::Exit { code } => assert_eq!(code, 3),
        _ => panic!("exit should end the process"),
    }

    let cmd = ShellCommand::with_input("pwd").unwrap();
    let ctx = ShellContext {
        home: None,
        cwd: Some(String::from("/cur/dir")),
        path_list: None,
    };
    match exec_builtin(Builtin::Pwd, &cmd, &ctx) {
        BuiltinEffect::Write { text } => assert_eq!(text, "/cur/dir\n"),
        _ => panic!("pwd should write"),
    }
}

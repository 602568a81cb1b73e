use minishell::builtins::{Builtin, BuiltinEffect};
use minishell::command::ShellCommand;
use minishell::dispatch::{not_found_message, process_input, resolve_external, Dispatch};
use minishell::os::{find_file, join_path_exec, split_search_path, ShellContext, StandardIO};

fn ctx_with_path(dirs: Vec<&str>) -> ShellContext {
    ShellContext {
        home: None,
        cwd: None,
        path_list: Some(dirs.into_iter().map(String::from).collect()),
    }
}

#[test]
fn empty_and_blank_lines_are_no_ops() {
    let ctx = ctx_with_path(vec!["/"]);
    assert!(matches!(process_input("", &ctx), Dispatch::NoOp));
    assert!(matches!(process_input("   ", &ctx), Dispatch::NoOp));
}

#[test]
fn malformed_lines_are_no_ops() {
    let ctx = ctx_with_path(vec!["/"]);
    assert!(matches!(process_input("> f", &ctx), Dispatch::NoOp));
    assert!(matches!(process_input("echo > > f", &ctx), Dispatch::NoOp));
}

#[test]
fn unknown_command_is_reported_and_the_shell_goes_on() {
    let ctx = ctx_with_path(vec!["/"]);
    match process_input("nope_cmd", &ctx) {
        Dispatch::NotFound { message } => {
            assert_eq!(message, "nope_cmd: command not found\n")
        },
        _ => panic!("an unresolved command must be reported"),
    }
    // the decision is a value: making it ends no process, and the caller
    // simply continues its loop
    assert!(matches!(process_input("", &ctx), Dispatch::NoOp));
}

#[test]
fn unknown_command_without_path_is_reported() {
    let ctx = ShellContext { home: None, cwd: None, path_list: None };
    match process_input("whatever", &ctx) {
        Dispatch::NotFound { message } => {
            assert_eq!(message, "whatever: command not found\n")
        },
        _ => panic!("an unresolved command must be reported"),
    }
}

#[test]
fn not_found_report_trims_the_line() {
    assert_eq!(not_found_message("  nope_cmd  "), "nope_cmd: command not found\n");
}

#[test]
fn exit_line_carries_the_exit_code() {
    let ctx = ctx_with_path(vec!["/"]);
    match process_input("exit 3", &ctx) {
        Dispatch::Builtin { builtin, effect, .. } => {
            assert_eq!(builtin, Builtin::Exit);
            match effect {
                BuiltinEffect::Exit { code } => assert_eq!(code, 3),
                _ => panic!("exit must end the process"),
            }
        },
        _ => panic!("exit is a builtin"),
    }
}

#[test]
fn echo_redirected_writes_only_to_the_file_target() {
    let ctx = ctx_with_path(vec!["/"]);
    match process_input("echo hi > /tmp/out", &ctx) {
        Dispatch::Builtin { builtin, effect, command } => {
            assert_eq!(builtin, Builtin::Echo);
            match effect {
                BuiltinEffect::Write { text } => assert_eq!(text, "hi\n"),
                _ => panic!("echo must write"),
            }
            match command.io_out() {
                StandardIO::File { path, append } => {
                    assert_eq!(path, "/tmp/out");
                    assert!(!append);
                },
                StandardIO::Inherit => panic!("stdout must go to the file"),
            }
            assert!(matches!(command.io_err(), StandardIO::Inherit));
        },
        _ => panic!("echo is a builtin"),
    }
}

#[test]
fn resolved_command_is_spawned() {
    // `/tmp` exists under `/`, so the name resolves and is to be spawned
    let ctx = ctx_with_path(vec!["/"]);
    match process_input("tmp", &ctx) {
        Dispatch::Spawn { command } => {
            assert_eq!(command.name(), "tmp");
            assert!(command.args().is_empty());
        },
        _ => panic!("a resolved name must be spawned"),
    }
}

#[test]
fn find_file_returns_existing_joins_in_order() {
    let dirs = vec![String::from("/nonexistent_dir_qq"), String::from("/")];
    let found = find_file("tmp", &dirs);
    assert_eq!(found, vec![String::from("/tmp")]);
    assert!(find_file("surely_not_here_qq", &dirs).is_empty());
}

#[test]
fn resolve_external_follows_the_search_result() {
    let cmd = ShellCommand::with_input("prog a").unwrap();
    let empty: Vec<String> = Vec::new();
    match resolve_external("prog a", cmd, &empty) {
        Dispatch::NotFound { message } => {
            assert_eq!(message, "prog a: command not found\n")
        }
        _ => panic!("an empty search must report not-found"),
    }

    let cmd = ShellCommand::with_input("prog a").unwrap();
    let found = vec![String::from("/bin/prog")];
    match resolve_external("prog a", cmd, &found) {
        Dispatch::Spawn { command } => {
            assert_eq!(command.name(), "prog");
            assert_eq!(command.args(), &vec![String::from("a")]);
        }
        _ => panic!("a non-empty search must spawn"),
    }
}

#[test]
fn search_path_splits_on_colons() {
    assert_eq!(split_search_path("/usr/bin:/bin"), vec!["/usr/bin", "/bin"]);
    assert_eq!(split_search_path("a::b"), vec!["a", "", "b"]);
    assert_eq!(split_search_path("a:"), vec!["a", ""]);
    assert_eq!(split_search_path(""), vec![""]);
    assert_eq!(split_search_path("one"), vec!["one"]);
}

#[test]
fn join_path_inserts_one_separator() {
    assert_eq!(join_path_exec("/usr", "bin"), "/usr/bin");
    assert_eq!(join_path_exec("/usr/", "bin"), "/usr/bin");
    assert_eq!(join_path_exec("", "bin"), "bin");
    assert_eq!(join_path_exec("/usr", "/abs"), "/abs");
}

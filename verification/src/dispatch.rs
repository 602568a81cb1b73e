//! Dispatcher: decides how one raw input line is executed.
//!
//! A line that parses to no command is a no-op. A command whose name is a
//! builtin yields that builtin's effect. Any other name is resolved
//! against the PATH directory list: when some listed directory holds an
//! entry with that name the command is to be spawned as an external
//! process, otherwise the shell reports `<line>: command not found`. The
//! caller carries the decision out: it writes the texts, spawns the
//! process, changes directory or ends the process.

use vstd::prelude::*;

use crate::builtins::{builtin_effect_ok, builtin_of, exec_builtin, Builtin, BuiltinEffect};
use crate::command::{command_spec, CmdModel, ShellCommand};
use crate::os::{find_file, CtxView, ShellContext};
use crate::strutil::{trim, trim_spec};

verus! {

/// How one input line is to be executed.
pub enum Dispatch {
    /// The line held no command; nothing happens.
    NoOp,
    /// The command is the builtin `builtin`; carry out `effect` against
    /// the command's stream targets.
    Builtin { builtin: Builtin, effect: BuiltinEffect, command: ShellCommand },
    /// The command resolved on the PATH list; spawn it as an external
    /// process with its stream targets.
    Spawn { command: ShellCommand },
    /// The command resolved nowhere; write `message` to the shell's own
    /// stdout.
    NotFound { message: String },
}

/// What the shell prints for a line whose command resolves nowhere.
pub open spec fn not_found_text(line: Seq<char>) -> Seq<char> {
    trim_spec(line) + ": command not found\n"@
}

/// The two outcomes a PATH search allows: spawning the command, or the
/// not-found report — which one depends on the file system.
pub open spec fn spawn_or_not_found(line: Seq<char>, m: CmdModel, r: Dispatch) -> bool {
    (r matches Dispatch::NotFound { message } && message@ == not_found_text(line)) || (r
        matches Dispatch::Spawn { command } && command@ == m)
}

/// What dispatching line `line` under environment `ctx` must decide.
pub open spec fn dispatch_ok(line: Seq<char>, ctx: CtxView, r: Dispatch) -> bool {
    match command_spec(line) {
        None => r is NoOp,
        Some(m) => match builtin_of(m.name) {
            Some(b) => r matches Dispatch::Builtin { builtin, effect, command } && builtin == b
                && command@ == m && builtin_effect_ok(b, m, ctx, effect),
            None => match ctx.path_list {
                Some(dirs) => spawn_or_not_found(line, m, r),
                None => r matches Dispatch::NotFound { message } && message@ == not_found_text(
                    line,
                ),
            },
        },
    }
}

/// The not-found report for one input line.
pub fn not_found_message(input: &str) -> (r: String)
    ensures
        r@ == not_found_text(input@),
{
    let t = trim(input);
    let mut r = String::from_str(t);
    r.append(": command not found\n");
    r
}

/// Turns the PATH-search result for one line into the dispatch decision:
/// when some candidate path was found the command is spawned, when none
/// was the not-found report is made. This is exact for every value of the
/// search result, so the decision is tied to what the search returned.
pub fn resolve_external(input: &str, command: ShellCommand, found: &Vec<String>) -> (r: Dispatch)
    ensures
        found@.len() == 0 ==> (r matches Dispatch::NotFound { message } && message@
            == not_found_text(input@)),
        found@.len() > 0 ==> (r matches Dispatch::Spawn { command: c } && c@ == command@),
{
    if found.len() > 0 {
        Dispatch::Spawn { command }
    } else {
        Dispatch::NotFound { message: not_found_message(input) }
    }
}

/// Decides how one raw input line is executed, as `dispatch_ok` describes.
pub fn process_input(input: &str, ctx: &ShellContext) -> (r: Dispatch)
    ensures
        dispatch_ok(input@, ctx@, r),
{
    let command = match ShellCommand::with_input(input) {
        Some(c) => c,
        None => {
            return Dispatch::NoOp;
        },
    };
    match Builtin::from_name(command.name()) {
        Some(b) => {
            let effect = exec_builtin(b, &command, ctx);
            Dispatch::Builtin { builtin: b, effect, command }
        },
        None => {
            match &ctx.path_list {
                Some(list) => {
                    let found = find_file(command.name(), list);
                    resolve_external(input, command, &found)
                },
                None => Dispatch::NotFound { message: not_found_message(input) },
            }
        },
    }
}

} // verus!

//! The builtin commands: `cd`, `echo`, `exit`, `type` and `pwd`.
//!
//! Each routine only computes: it turns a command's arguments and the
//! relevant pieces of the environment into a `BuiltinEffect` — the text to
//! write, the directory to change to, or the exit code. Carrying the
//! effect out (writing to the chosen stream, changing the directory,
//! ending the process) is the caller's job, so every decision made here is
//! verified.

use vstd::prelude::*;

use crate::command::{CmdModel, ShellCommand};
use crate::os::{find_file, is_join_of, CtxView, ShellContext};
use crate::strutil::{parse_i32, parse_i32_spec, str_eq};

verus! {

/// The closed set of builtin commands.
#[derive(Clone, Copy, PartialEq, Eq, Structural, Debug, Hash)]
pub enum Builtin {
    Cd,
    Echo,
    Exit,
    Type,
    Pwd,
}

/// The canonical name of a builtin.
pub open spec fn builtin_name(b: Builtin) -> Seq<char> {
    match b {
        Builtin::Cd => "cd"@,
        Builtin::Echo => "echo"@,
        Builtin::Exit => "exit"@,
        Builtin::Type => "type"@,
        Builtin::Pwd => "pwd"@,
    }
}

/// The builtin a name denotes, by exact, case-sensitive match.
pub open spec fn builtin_of(name: Seq<char>) -> Option<Builtin> {
    if name == "cd"@ {
        Some(Builtin::Cd)
    } else if name == "echo"@ {
        Some(Builtin::Echo)
    } else if name == "exit"@ {
        Some(Builtin::Exit)
    } else if name == "type"@ {
        Some(Builtin::Type)
    } else if name == "pwd"@ {
        Some(Builtin::Pwd)
    } else {
        None
    }
}

impl Builtin {
    /// Every builtin, in canonical order.
    pub fn all() -> (r: Vec<Builtin>)
        ensures
            r@ == seq![Builtin::Cd, Builtin::Echo, Builtin::Exit, Builtin::Type, Builtin::Pwd],
    {
        let mut r: Vec<Builtin> = Vec::new();
        r.push(Builtin::Cd);
        r.push(Builtin::Echo);
        r.push(Builtin::Exit);
        r.push(Builtin::Type);
        r.push(Builtin::Pwd);
        proof {
            assert(r@ =~= seq![
                Builtin::Cd,
                Builtin::Echo,
                Builtin::Exit,
                Builtin::Type,
                Builtin::Pwd,
            ]);
        }
        r
    }

    /// The builtin a name denotes, if any.
    pub fn from_name(value: &str) -> (r: Option<Builtin>)
        ensures
            r == builtin_of(value@),
    {
        if str_eq(value, "cd") {
            Some(Builtin::Cd)
        } else if str_eq(value, "echo") {
            Some(Builtin::Echo)
        } else if str_eq(value, "exit") {
            Some(Builtin::Exit)
        } else if str_eq(value, "type") {
            Some(Builtin::Type)
        } else if str_eq(value, "pwd") {
            Some(Builtin::Pwd)
        } else {
            None
        }
    }

    /// The builtin's canonical name.
    pub fn as_str(&self) -> (r: &'static str)
        ensures
            r@ == builtin_name(*self),
    {
        match self {
            Builtin::Cd => "cd",
            Builtin::Echo => "echo",
            Builtin::Exit => "exit",
            Builtin::Type => "type",
            Builtin::Pwd => "pwd",
        }
    }
}

/// What executing a builtin asks the shell to do: nothing, write `text` to
/// the command's stdout target, change the working directory (reporting
/// failure for `arg`), or end the whole process with `code`.
pub enum BuiltinEffect {
    Nothing,
    Write { text: String },
    Chdir { path: String, arg: String },
    Exit { code: i32 },
}

/// `args` joined with single spaces.
pub open spec fn join_spaces(args: Seq<Seq<char>>) -> Seq<char>
    decreases args.len(),
{
    if args.len() == 0 {
        Seq::empty()
    } else if args.len() == 1 {
        args[0]
    } else {
        join_spaces(args.drop_last()) + " "@ + args.last()
    }
}

/// What `echo` writes: its arguments joined with spaces, then a newline.
pub open spec fn echo_output(args: Seq<Seq<char>>) -> Seq<char> {
    join_spaces(args) + "\n"@
}

/// The exit code `exit` uses: its first argument read as a 32-bit integer,
/// or `0` when absent or unreadable.
pub open spec fn exit_code_spec(args: Seq<Seq<char>>) -> int {
    if args.len() == 0 {
        0
    } else {
        match parse_i32_spec(args[0]) {
            Some(v) => v,
            None => 0,
        }
    }
}

/// What `cd` does: nothing without an argument; with one, change to it,
/// a leading `~` replaced by the `HOME` value (nothing when `HOME` is
/// absent).
pub open spec fn cd_effect(args: Seq<Seq<char>>, home: Option<Seq<char>>, r: BuiltinEffect) -> bool {
    if args.len() == 0 {
        r is Nothing
    } else {
        let a = args[0];
        if a.len() > 0 && a[0] == '~' {
            match home {
                Some(h) => r matches BuiltinEffect::Chdir { path, arg } && path@ == h
                    + a.drop_first() && arg@ == a,
                None => r is Nothing,
            }
        } else {
            r matches BuiltinEffect::Chdir { path, arg } && path@ == a && arg@ == a
        }
    }
}

/// What `type` writes of a builtin name.
pub open spec fn type_builtin_text(name: Seq<char>) -> Seq<char> {
    name + " is a shell builtin\n"@
}

/// What `type` writes of a name resolved on the PATH list.
pub open spec fn type_found_text(name: Seq<char>, path: Seq<char>) -> Seq<char> {
    name + " is "@ + path + "\n"@
}

/// What `type` writes of a name it cannot resolve.
pub open spec fn type_missing_text(name: Seq<char>) -> Seq<char> {
    name + ": not found\n"@
}

/// What `cd` reports when the directory cannot be entered.
pub open spec fn cd_failure_text(arg: Seq<char>) -> Seq<char> {
    "cd: "@ + arg + ": No such file or directory\n"@
}

/// What `type` writes after searching the PATH list for `a`: either that
/// the name was not found, or that it is at the join of some listed
/// directory with the name — which one depends on the file system.
pub open spec fn type_search_effect(a: Seq<char>, dirs: Seq<Seq<char>>, r: BuiltinEffect) -> bool {
    r matches BuiltinEffect::Write { text } && (text@ == type_missing_text(a) || exists|
        p: Seq<char>,
    |
        #[trigger] is_join_of(dirs, a, p) && text@ == type_found_text(a, p))
}

/// What `type` does: nothing without an argument; of a builtin name it
/// says so; otherwise it reports the first PATH resolution, which depends
/// on the file system, or that the name was not found.
pub open spec fn type_effect(
    args: Seq<Seq<char>>,
    path_list: Option<Seq<Seq<char>>>,
    r: BuiltinEffect,
) -> bool {
    if args.len() == 0 {
        r is Nothing
    } else {
        let a = args[0];
        if builtin_of(a) is Some {
            r matches BuiltinEffect::Write { text } && text@ == type_builtin_text(a)
        } else {
            match path_list {
                Some(dirs) => type_search_effect(a, dirs, r),
                None => r matches BuiltinEffect::Write { text } && text@ == type_missing_text(a),
            }
        }
    }
}

/// What `pwd` does: write the working directory, or nothing when it is
/// not available.
pub open spec fn pwd_effect(cwd: Option<Seq<char>>, r: BuiltinEffect) -> bool {
    match cwd {
        Some(d) => r matches BuiltinEffect::Write { text } && text@ == d + "\n"@,
        None => r is Nothing,
    }
}

/// What executing builtin `b` on command `m` under environment `ctx` must
/// yield.
pub open spec fn builtin_effect_ok(b: Builtin, m: CmdModel, ctx: CtxView, r: BuiltinEffect) -> bool {
    match b {
        Builtin::Cd => cd_effect(m.args, ctx.home, r),
        Builtin::Echo => r matches BuiltinEffect::Write { text } && text@ == echo_output(m.args),
        Builtin::Exit => r matches BuiltinEffect::Exit { code } && code as int == exit_code_spec(
            m.args,
        ),
        Builtin::Type => type_effect(m.args, ctx.path_list, r),
        Builtin::Pwd => pwd_effect(ctx.cwd, r),
    }
}

/// The `cd` builtin's decision.
pub fn cmd_cd(args: &Vec<String>, home: &Option<String>) -> (r: BuiltinEffect)
    ensures
        cd_effect(args.deep_view(), home.deep_view(), r),
{
    if args.len() == 0 {
        return BuiltinEffect::Nothing;
    }
    let arg: &String = &args[0];
    proof {
        assert(args.deep_view()[0] == arg@);
    }
    let arg_len: usize = arg.as_str().unicode_len();
    if arg_len > 0 && arg.as_str().get_char(0) == '~' {
        match home {
            Some(h) => {
                let rest = arg.as_str().substring_char(1, arg_len);
                let path = String::from_str(h.as_str()).concat(rest);
                proof {
                    assert(arg@.subrange(1, arg@.len() as int) =~= arg@.drop_first());
                }
                BuiltinEffect::Chdir { path, arg: arg.clone() }
            },
            None => BuiltinEffect::Nothing,
        }
    } else {
        BuiltinEffect::Chdir { path: arg.clone(), arg: arg.clone() }
    }
}

/// The `echo` builtin's output text.
pub fn cmd_echo(args: &Vec<String>) -> (out: String)
    ensures
        out@ == echo_output(args.deep_view()),
{
    let ghost dv = args.deep_view();
    let mut out = String::new();
    let mut i: usize = 0;
    while i < args.len()
        invariant
            0 <= i <= dv.len(),
            dv == args.deep_view(),
            out@ == join_spaces(dv.take(i as int)),
        decreases dv.len() - i,
    {
        if i > 0 {
            out.append(" ");
        }
        out.append(args[i].as_str());
        proof {
            let j = i as int;
            assert(dv.take(j + 1).drop_last() =~= dv.take(j));
            assert(dv.take(j + 1).last() == dv[j]);
            assert(out@ =~= join_spaces(dv.take(j + 1)));
        }
        i += 1;
    }
    proof {
        assert(dv.take(dv.len() as int) =~= dv);
    }
    out.append("\n");
    out
}

/// The `exit` builtin's exit code.
pub fn cmd_exit(args: &Vec<String>) -> (code: i32)
    ensures
        code as int == exit_code_spec(args.deep_view()),
{
    if args.len() == 0 {
        return 0;
    }
    proof {
        assert(args.deep_view()[0] == args@[0]@);
    }
    match parse_i32(args[0].as_str()) {
        Some(c) => c,
        None => 0,
    }
}

/// The line `type` writes after a PATH search: the first found path in
/// directory-list order, or that the name was not found. This is exact for
/// every value of the search result, so the report is tied to what the
/// search returned.
pub fn type_search_report(name: &str, found: &Vec<String>) -> (r: String)
    ensures
        found@.len() == 0 ==> r@ == type_missing_text(name@),
        found@.len() > 0 ==> r@ == type_found_text(name@, found@[0]@),
{
    if found.len() > 0 {
        let mut text = String::from_str(name);
        text.append(" is ");
        text.append(found[0].as_str());
        text.append("\n");
        text
    } else {
        let mut text = String::from_str(name);
        text.append(": not found\n");
        text
    }
}

/// The `type` builtin's decision.
pub fn cmd_type(args: &Vec<String>, path_list: &Option<Vec<String>>) -> (r: BuiltinEffect)
    ensures
        type_effect(args.deep_view(), path_list.deep_view(), r),
{
    if args.len() == 0 {
        return BuiltinEffect::Nothing;
    }
    let name: &String = &args[0];
    proof {
        assert(args.deep_view()[0] == name@);
    }
    if Builtin::from_name(name.as_str()).is_some() {
        let mut text = String::from_str(name.as_str());
        text.append(" is a shell builtin\n");
        return BuiltinEffect::Write { text };
    }
    match path_list {
        Some(dirs) => {
            let found = find_file(name.as_str(), dirs);
            let text = type_search_report(name.as_str(), &found);
            let effect = BuiltinEffect::Write { text };
            proof {
                let ghost a = args.deep_view()[0];
                if found@.len() > 0 {
                    let ghost p = found@[0]@;
                    assert(type_search_effect(a, dirs.deep_view(), effect)) by {
                        assert(is_join_of(dirs.deep_view(), a, p) && effect->text@
                            == type_found_text(a, p));
                    }
                } else {
                    assert(type_search_effect(a, dirs.deep_view(), effect));
                }
                assert(path_list.deep_view() == Some(dirs.deep_view()));
            }
            effect
        },
        None => {
            let mut text = String::from_str(name.as_str());
            text.append(": not found\n");
            BuiltinEffect::Write { text }
        },
    }
}

/// The `pwd` builtin's decision.
pub fn cmd_pwd(cwd: &Option<String>) -> (r: BuiltinEffect)
    ensures
        pwd_effect(cwd.deep_view(), r),
{
    match cwd {
        Some(d) => {
            let mut text = String::from_str(d.as_str());
            text.append("\n");
            BuiltinEffect::Write { text }
        },
        None => BuiltinEffect::Nothing,
    }
}

/// The report `cd` makes when its target does not exist.
pub fn cd_failure_message(arg: &str) -> (r: String)
    ensures
        r@ == cd_failure_text(arg@),
{
    let mut r = String::from_str("cd: ");
    r.append(arg);
    r.append(": No such file or directory\n");
    r
}

/// Executes a builtin: turns the command and the environment into the
/// effect the shell must carry out against the command's stream targets.
pub fn exec_builtin(builtin: Builtin, command: &ShellCommand, ctx: &ShellContext) -> (r:
    BuiltinEffect)
    ensures
        builtin_effect_ok(builtin, command@, ctx@, r),
{
    let args = command.args();
    match builtin {
        Builtin::Cd => cmd_cd(args, &ctx.home),
        Builtin::Echo => BuiltinEffect::Write { text: cmd_echo(args) },
        Builtin::Exit => BuiltinEffect::Exit { code: cmd_exit(args) },
        Builtin::Type => cmd_type(args, &ctx.path_list),
        Builtin::Pwd => cmd_pwd(&ctx.cwd),
    }
}

} // verus!

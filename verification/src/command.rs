//! Command builder: turns the token sequence of one input line into a
//! structured command — a name, its arguments, and where its standard
//! output and standard error go.
//!
//! A token containing `>` is an operator, any other token a literal. The
//! first token must be a literal and names the command; later literals are
//! arguments until an operator starts a redirection, whose target must be
//! the literal right after it. Only this first redirection is honoured and
//! the tokens after its target are discarded. An empty token sequence, an
//! operator in name position, two operators in a row, or an operator with
//! no target yield no command at all.

use vstd::prelude::*;

use crate::os::{IoSpec, StandardIO};
use crate::parser::{parse_input, tokens_of};
use crate::strutil::{contains_char, str_eq, trim, trim_spec};

verus! {

broadcast use vstd::string::group_string_axioms;

/// One token, classified: an `Operator` contains `>`, a `Literal` does not.
pub enum Token {
    Literal(String),
    Operator(String),
}

/// Whether a token's text makes it an operator.
pub open spec fn is_operator_text(t: Seq<char>) -> bool {
    t.contains('>')
}

impl Token {
    /// Classifies one token.
    pub fn from_text(value: String) -> (r: Token)
        ensures
            is_operator_text(value@) ==> r == Token::Operator(value),
            !is_operator_text(value@) ==> r == Token::Literal(value),
    {
        if contains_char(value.as_str(), '>') {
            Token::Operator(value)
        } else {
            Token::Literal(value)
        }
    }
}

/// What one redirection operator does: set the stdout target, set the
/// stderr target, or nothing (an operator text that is not recognized).
pub enum Redirect {
    Ignored,
    Stdout(StandardIO),
    Stderr(StandardIO),
}

/// A structured command: a non-empty name, arguments in order, and the
/// targets of its two standard streams.
pub struct ShellCommand {
    name: String,
    arguments: Vec<String>,
    io_out: StandardIO,
    io_err: StandardIO,
}

/// Mathematical value of a `ShellCommand`.
#[verifier::ext_equal]
pub ghost struct CmdModel {
    pub name: Seq<char>,
    pub args: Seq<Seq<char>>,
    pub io_out: IoSpec,
    pub io_err: IoSpec,
}

impl View for ShellCommand {
    type V = CmdModel;

    closed spec fn view(&self) -> CmdModel {
        CmdModel {
            name: self.name@,
            args: self.arguments.deep_view(),
            io_out: self.io_out@,
            io_err: self.io_err@,
        }
    }
}

/// `m` with one redirection applied: `>` and `1>` set the stdout target,
/// `2>` the stderr target, any other operator text changes nothing.
pub open spec fn apply_redirect(m: CmdModel, op: Seq<char>, target: Seq<char>) -> CmdModel {
    if op == ">"@ || op == "1>"@ {
        CmdModel {
            io_out: IoSpec::File { path: target, append: false },
            name: m.name,
            args: m.args,
            io_err: m.io_err,
        }
    } else if op == "2>"@ {
        CmdModel {
            io_err: IoSpec::File { path: target, append: false },
            name: m.name,
            args: m.args,
            io_out: m.io_out,
        }
    } else {
        m
    }
}

/// Consumes the tokens after the name: literals are arguments until an
/// operator starts a redirection. The redirection target must be a literal;
/// tokens after it are discarded. An operator with no target, or followed
/// by another operator, rejects the whole sequence.
pub open spec fn build_rest(toks: Seq<Seq<char>>, i: int, m: CmdModel) -> Option<CmdModel>
    decreases toks.len() - i,
{
    if i >= toks.len() {
        Some(m)
    } else if !is_operator_text(toks[i]) {
        build_rest(
            toks,
            i + 1,
            CmdModel { args: m.args.push(toks[i]), name: m.name, io_out: m.io_out, io_err: m.io_err },
        )
    } else if i + 1 >= toks.len() {
        None
    } else if is_operator_text(toks[i + 1]) {
        None
    } else {
        Some(apply_redirect(m, toks[i], toks[i + 1]))
    }
}

/// The command a token sequence builds, if any: the first token must be a
/// non-empty literal and names the command; `build_rest` consumes the rest.
pub open spec fn build_spec(toks: Seq<Seq<char>>) -> Option<CmdModel> {
    if toks.len() == 0 {
        None
    } else if is_operator_text(toks[0]) || toks[0].len() == 0 {
        None
    } else {
        build_rest(
            toks,
            1,
            CmdModel {
                name: toks[0],
                args: Seq::empty(),
                io_out: IoSpec::Inherit,
                io_err: IoSpec::Inherit,
            },
        )
    }
}

/// The command one raw input line parses to: the line is trimmed,
/// tokenized, and built.
pub open spec fn command_spec(line: Seq<char>) -> Option<CmdModel> {
    build_spec(tokens_of(trim_spec(line)))
}

/// A successful build takes its name from the first token.
pub proof fn lemma_build_rest_keeps_name(toks: Seq<Seq<char>>, i: int, m: CmdModel)
    ensures
        build_rest(toks, i, m) matches Some(r) ==> r.name == m.name,
    decreases toks.len() - i,
{
    if i < toks.len() && !is_operator_text(toks[i]) {
        lemma_build_rest_keeps_name(
            toks,
            i + 1,
            CmdModel { args: m.args.push(toks[i]), name: m.name, io_out: m.io_out, io_err: m.io_err },
        );
    }
}

/// Of any token sequence that builds a command, the command's name is the
/// first token.
pub proof fn lemma_build_name_is_first_token(toks: Seq<Seq<char>>)
    requires
        build_spec(toks) is Some,
    ensures
        toks.len() > 0,
        build_spec(toks) matches Some(m) ==> m.name == toks[0],
{
    let m0 = CmdModel {
        name: toks[0],
        args: Seq::empty(),
        io_out: IoSpec::Inherit,
        io_err: IoSpec::Inherit,
    };
    lemma_build_rest_keeps_name(toks, 1, m0);
}

/// A built command never has an empty name.
pub proof fn lemma_built_name_nonempty(toks: Seq<Seq<char>>)
    requires
        build_spec(toks) is Some,
    ensures
        build_spec(toks) matches Some(m) ==> m.name.len() > 0,
{
    lemma_build_name_is_first_token(toks);
}

/// Whatever the input line, a command parsed from it never has an empty
/// name: an empty or all-whitespace line yields no command at all.
pub proof fn lemma_command_name_nonempty(line: Seq<char>)
    ensures
        command_spec(line) matches Some(m) ==> m.name.len() > 0,
{
    if command_spec(line) is Some {
        lemma_built_name_nonempty(tokens_of(trim_spec(line)));
    }
}

/// An empty token sequence builds no command: it is rejected, not turned
/// into a command with an empty name.
pub proof fn lemma_build_empty_rejected()
    ensures
        build_spec(Seq::<Seq<char>>::empty()) is None,
{
}

impl ShellCommand {
    /// Reads one redirection operator: `>` and `1>` redirect stdout, `2>`
    /// redirects stderr, anything else is accepted and ignored. The target
    /// file is truncated, not appended to.
    pub fn parse_redirect(operator: &str, value: &str) -> (r: Redirect)
        ensures
            (operator@ == ">"@ || operator@ == "1>"@) ==> (r matches Redirect::Stdout(io) && io@
                == IoSpec::File { path: value@, append: false }),
            operator@ == "2>"@ ==> (r matches Redirect::Stderr(io) && io@ == IoSpec::File {
                path: value@,
                append: false,
            }),
            !(operator@ == ">"@ || operator@ == "1>"@ || operator@ == "2>"@) ==> r
                is Ignored,
    {
        proof {
            reveal_strlit(">");
            reveal_strlit("1>");
            reveal_strlit("2>");
            assert(">"@.len() == 1);
            assert("1>"@[0] == '1' && "2>"@[0] == '2');
            assert(">"@ != "2>"@);
            assert("1>"@ != "2>"@);
        }
        if str_eq(operator, ">") || str_eq(operator, "1>") {
            Redirect::Stdout(StandardIO::File { path: String::from_str(value), append: false })
        } else if str_eq(operator, "2>") {
            Redirect::Stderr(StandardIO::File { path: String::from_str(value), append: false })
        } else {
            Redirect::Ignored
        }
    }

    /// The command of one raw input line, if the line holds one.
    pub fn with_input(input: &str) -> (r: Option<ShellCommand>)
        ensures
            (match command_spec(input@) {
                Some(m) => r matches Some(c) && c@ == m,
                None => r is None,
            }),
    {
        let trimmed = trim(input);
        let tokens = parse_input(trimmed);
        build(tokens)
    }

    /// The command's name.
    pub fn name(&self) -> (r: &str)
        ensures
            r@ == self@.name,
    {
        self.name.as_str()
    }

    /// The command's arguments, in order.
    pub fn args(&self) -> (r: &Vec<String>)
        ensures
            r.deep_view() == self@.args,
    {
        &self.arguments
    }

    /// Where the command's standard output goes.
    pub fn io_out(&self) -> (r: &StandardIO)
        ensures
            r@ == self@.io_out,
    {
        &self.io_out
    }

    /// Where the command's standard error goes.
    pub fn io_err(&self) -> (r: &StandardIO)
        ensures
            r@ == self@.io_err,
    {
        &self.io_err
    }
}

/// Builds a structured command from a token sequence, or rejects it as
/// `build_spec` describes.
pub fn build(tokens: Vec<String>) -> (r: Option<ShellCommand>)
    ensures
        (match build_spec(tokens.deep_view()) {
            Some(m) => r matches Some(c) && c@ == m,
            None => r is None,
        }),
{
    let ghost toks = tokens.deep_view();
    if tokens.len() == 0 {
        return None;
    }
    let name_is_op = contains_char(tokens[0].as_str(), '>');
    if name_is_op || tokens[0].as_str().is_empty() {
        return None;
    }
    let name: String = tokens[0].clone();
    let mut arguments: Vec<String> = Vec::new();
    let mut io_out = StandardIO::Inherit;
    let mut io_err = StandardIO::Inherit;
    let ghost m0 = CmdModel {
        name: name@,
        args: Seq::empty(),
        io_out: IoSpec::Inherit,
        io_err: IoSpec::Inherit,
    };
    proof {
        assert(arguments.deep_view() =~= m0.args);
    }
    let mut i: usize = 1;
    let n = tokens.len();
    while i < n
        invariant_except_break
            1 <= i <= n,
            n == toks.len(),
            toks == tokens.deep_view(),
            io_out@ == IoSpec::Inherit,
            io_err@ == IoSpec::Inherit,
            build_spec(toks) == build_rest(
                toks,
                i as int,
                (CmdModel {
                    name: name@,
                    args: arguments.deep_view(),
                    io_out: io_out@,
                    io_err: io_err@,
                }),
            ),
        ensures
            (match build_spec(toks) {
                Some(m) => m == (CmdModel {
                    name: name@,
                    args: arguments.deep_view(),
                    io_out: io_out@,
                    io_err: io_err@,
                }),
                None => false,
            }),
        decreases n - i,
    {
        let token = Token::from_text(tokens[i].clone());
        match token {
            Token::Literal(value) => {
                let ghost before = arguments.deep_view();
                arguments.push(value);
                proof {
                    assert(arguments.deep_view() =~= before.push(toks[i as int]));
                }
                i += 1;
            },
            Token::Operator(value) => {
                if i + 1 >= n {
                    return None;
                }
                let target = Token::from_text(tokens[i + 1].clone());
                match target {
                    Token::Operator(_) => {
                        return None;
                    },
                    Token::Literal(target_value) => {
                        match ShellCommand::parse_redirect(value.as_str(), target_value.as_str()) {
                            Redirect::Stdout(io) => {
                                io_out = io;
                            },
                            Redirect::Stderr(io) => {
                                io_err = io;
                            },
                            Redirect::Ignored => {},
                        }
                        break;
                    },
                }
            },
        }
    }
    Some(ShellCommand { name, arguments, io_out, io_err })
}

} // verus!

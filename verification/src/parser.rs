//! Tokenizer: splits one raw input line into word tokens.
//!
//! The splitting honours POSIX-like quoting: spaces separate tokens unless
//! quoted; single quotes make everything literal; double quotes make
//! everything literal except a backslash before `$`, `\`, `"` or a newline;
//! an unquoted backslash escapes the next character. Adjacent quoted and
//! unquoted segments of the same word form a single token, and consecutive
//! separators collapse (no empty tokens are produced).
//!
//! Chosen policies for the boundary cases: a quote left open at the end of
//! the line treats the remainder as literal, and a backslash with nothing
//! after it is dropped.

use vstd::prelude::*;

use crate::strutil::chars_to_string;

verus! {

/// Quoting state: inside quotes opened by the held character, or outside.
#[derive(Clone, Copy)]
pub enum Enclose {
    Active(char),
    Inactive,
}

impl Enclose {
    /// Whether no quote is currently open.
    pub fn is_none(&self) -> (r: bool)
        ensures
            r == (*self is Inactive),
    {
        matches!(self, Self::Inactive)
    }

    /// Whether some quote is currently open.
    pub fn is_enclosing(&self) -> (r: bool)
        ensures
            r == !(*self is Inactive),
    {
        !self.is_none()
    }

    /// Whether the currently open quote is exactly `ch`.
    pub fn is_enclosed_with(&self, ch: char) -> (r: bool)
        ensures
            r == (*self == Enclose::Active(ch)),
    {
        match self {
            Self::Active(enc) => ch == *enc,
            Self::Inactive => false,
        }
    }
}

/// The tokenizer state: the word being accumulated, the tokens already
/// produced, the quoting state, and whether a backslash escape is pending.
#[verifier::ext_equal]
pub ghost struct TokState {
    pub acc: Seq<char>,
    pub toks: Seq<Seq<char>>,
    pub enclose: Enclose,
    pub escaping: bool,
}

/// The state before any character has been read.
pub open spec fn tok_init() -> TokState {
    TokState { acc: Seq::empty(), toks: Seq::empty(), enclose: Enclose::Inactive, escaping: false }
}

/// Ends the current word: a non-empty accumulator becomes a token, an empty
/// one is dropped (so separators collapse and quotes around nothing produce
/// no token).
pub open spec fn tok_flush(st: TokState) -> TokState {
    if st.acc.len() == 0 {
        st
    } else {
        TokState {
            acc: Seq::empty(),
            toks: st.toks.push(st.acc),
            enclose: st.enclose,
            escaping: st.escaping,
        }
    }
}

/// Whether a backslash read in quoting state `enc` starts an escape, given
/// the character that follows it. Inside single quotes it never does;
/// inside double quotes only before `$`, `\`, `"` or a newline.
pub open spec fn escape_applies(enc: Enclose, ch: char, next: char, escaping: bool) -> bool {
    if enc == Enclose::Active('\'') || escaping || ch != '\\' {
        false
    } else if enc == Enclose::Active('"') && !(next == '$' || next == '\\' || next == '"' || next
        == '\n') {
        false
    } else {
        true
    }
}

/// One step of the tokenizer on character `ch`, with `next` the character
/// after it (`'\0'` at the end of the line).
pub open spec fn tok_step(st: TokState, ch: char, next: char) -> TokState {
    if st.escaping {
        TokState { acc: st.acc.push(ch), toks: st.toks, enclose: st.enclose, escaping: false }
    } else if (ch == '\'' || ch == '"') && st.enclose is Inactive {
        TokState { acc: st.acc, toks: st.toks, enclose: Enclose::Active(ch), escaping: false }
    } else if (ch == '\'' || ch == '"') && st.enclose == Enclose::Active(ch) {
        TokState { acc: st.acc, toks: st.toks, enclose: Enclose::Inactive, escaping: false }
    } else if escape_applies(st.enclose, ch, next, false) {
        TokState { acc: st.acc, toks: st.toks, enclose: st.enclose, escaping: true }
    } else if (ch == ' ' && st.enclose is Inactive) || ch == '\0' {
        tok_flush(st)
    } else {
        TokState { acc: st.acc.push(ch), toks: st.toks, enclose: st.enclose, escaping: false }
    }
}

/// The character after position `i`, or `'\0'` when `i` is the last one.
pub open spec fn tok_next(s: Seq<char>, i: int) -> char {
    if i + 1 < s.len() {
        s[i + 1]
    } else {
        '\0'
    }
}

/// The tokenizer state after reading the first `i` characters of `s`.
pub open spec fn tok_run(s: Seq<char>, i: int) -> TokState
    decreases i,
{
    if i <= 0 {
        tok_init()
    } else {
        tok_step(tok_run(s, i - 1), s[i - 1], tok_next(s, i - 1))
    }
}

/// The tokens of a whole line: run the machine over every character, with
/// the end of the line acting as a final separator.
pub open spec fn tokens_of(s: Seq<char>) -> Seq<Seq<char>> {
    tok_flush(tok_run(s, s.len() as int)).toks
}

/// Whether every token in `ts` is non-empty.
pub open spec fn all_tokens_nonempty(ts: Seq<Seq<char>>) -> bool {
    forall|j: int| 0 <= j < ts.len() ==> (#[trigger] ts[j]).len() > 0
}

proof fn lemma_flush_tokens_nonempty(st: TokState)
    requires
        all_tokens_nonempty(st.toks),
    ensures
        all_tokens_nonempty(tok_flush(st).toks),
{
    if st.acc.len() > 0 {
        let pushed = st.toks.push(st.acc);
        assert forall|j: int| 0 <= j < pushed.len() implies (#[trigger] pushed[j]).len() > 0 by {
            if j < st.toks.len() {
                assert(pushed[j] == st.toks[j]);
            } else {
                assert(pushed[j] == st.acc);
            }
        }
    }
}

proof fn lemma_run_tokens_nonempty(s: Seq<char>, i: int)
    ensures
        all_tokens_nonempty(tok_run(s, i).toks),
    decreases i,
{
    if i > 0 {
        lemma_run_tokens_nonempty(s, i - 1);
        lemma_flush_tokens_nonempty(tok_run(s, i - 1));
    }
}

/// The tokenizer never produces an empty token: consecutive separators
/// collapse, and quotes around nothing leave nothing behind.
pub proof fn lemma_no_empty_tokens(s: Seq<char>)
    ensures
        all_tokens_nonempty(tokens_of(s)),
{
    lemma_run_tokens_nonempty(s, s.len() as int);
    lemma_flush_tokens_nonempty(tok_run(s, s.len() as int));
}

/// The tokenizer. `new` then `parse` fills `tokens`; `parse_input` wraps
/// the two for callers.
pub struct Parser<'a> {
    acc: Vec<char>,
    tokens: Vec<String>,
    enclose: Enclose,
    is_escaping: bool,
    input: &'a str,
}

impl<'a> View for Parser<'a> {
    type V = TokState;

    closed spec fn view(&self) -> TokState {
        TokState {
            acc: self.acc@,
            toks: self.tokens.deep_view(),
            enclose: self.enclose,
            escaping: self.is_escaping,
        }
    }
}

impl<'a> Parser<'a> {
    /// The characters of the line this parser was given.
    pub closed spec fn input_view(&self) -> Seq<char> {
        self.input@
    }

    /// A parser for `input`, in the initial state.
    pub fn new(input: &'a str) -> (r: Self)
        ensures
            r@ == tok_init(),
            r.input_view() == input@,
    {
        let r = Parser {
            acc: Vec::new(),
            tokens: Vec::new(),
            enclose: Enclose::Inactive,
            is_escaping: false,
            input,
        };
        proof {
            assert(r.tokens.deep_view() =~= Seq::<Seq<char>>::empty());
            assert(r@ =~= tok_init());
        }
        r
    }

    /// Runs the machine over the whole input and leaves the tokens in
    /// `self`: the end of the input acts as a final separator, so nothing
    /// stays behind in the accumulator.
    pub fn parse(&mut self)
        requires
            old(self)@ == tok_init(),
        ensures
            final(self)@.toks == tokens_of(old(self).input_view()),
            final(self)@.acc == Seq::<char>::empty(),
    {
        let s: &str = self.input;
        let n: usize = s.unicode_len();
        let mut i: usize = 0;
        while i < n
            invariant
                0 <= i <= n,
                n == s@.len(),
                self@ == tok_run(s@, i as int),
            decreases n - i,
        {
            let ch = s.get_char(i);
            let next = if i + 1 < n {
                s.get_char(i + 1)
            } else {
                '\0'
            };
            let ghost st0 = self@;
            if self.try_process_escaping(ch) {
            } else if self.try_update_enclose(ch) {
            } else if self.try_escaping(ch, next) {
            } else if self.try_flush_token(ch) {
            } else {
                self.acc.push(ch);
            }
            proof {
                assert(self@ == tok_step(st0, ch, next));
                assert(next == tok_next(s@, i as int));
            }
            i += 1;
            proof {
                assert(self@ == tok_run(s@, i as int));
            }
        }
        self.flush_token();
        proof {
            assert(self@.acc =~= Seq::<char>::empty());
        }
    }

    /// While an escape is pending, the next character is taken literally.
    fn try_process_escaping(&mut self, ch: char) -> (handled: bool)
        ensures
            handled == old(self)@.escaping,
            handled ==> final(self)@ == (TokState {
                acc: old(self)@.acc.push(ch),
                toks: old(self)@.toks,
                enclose: old(self)@.enclose,
                escaping: false,
            }),
            !handled ==> final(self)@ == old(self)@,
    {
        if !self.is_escaping {
            return false;
        }
        self.acc.push(ch);
        self.is_escaping = false;
        true
    }

    /// A backslash may start an escape, depending on the quoting state and
    /// on the character that follows.
    fn try_escaping(&mut self, ch: char, next: char) -> (handled: bool)
        ensures
            handled == escape_applies(old(self)@.enclose, ch, next, old(self)@.escaping),
            handled ==> final(self)@ == (TokState {
                acc: old(self)@.acc,
                toks: old(self)@.toks,
                enclose: old(self)@.enclose,
                escaping: true,
            }),
            !handled ==> final(self)@ == old(self)@,
    {
        if self.enclose.is_enclosed_with('\'') || self.is_escaping || ch != '\\' {
            return false;
        }
        if self.enclose.is_enclosed_with('"') && !(next == '$' || next == '\\' || next == '"'
            || next == '\n') {
            return false;
        }
        self.is_escaping = true;
        true
    }

    /// A quote character may open or close a quoting state.
    fn try_update_enclose(&mut self, ch: char) -> (handled: bool)
        ensures
            handled == ((ch == '\'' || ch == '"') && (old(self)@.enclose is Inactive || old(
                self,
            )@.enclose == Enclose::Active(ch))),
            handled && old(self)@.enclose is Inactive ==> final(self)@ == (TokState {
                acc: old(self)@.acc,
                toks: old(self)@.toks,
                enclose: Enclose::Active(ch),
                escaping: old(self)@.escaping,
            }),
            handled && !(old(self)@.enclose is Inactive) ==> final(self)@ == (TokState {
                acc: old(self)@.acc,
                toks: old(self)@.toks,
                enclose: Enclose::Inactive,
                escaping: old(self)@.escaping,
            }),
            !handled ==> final(self)@ == old(self)@,
    {
        if !(ch == '\'' || ch == '"') {
            return false;
        }
        if self.enclose.is_none() {
            self.enclose = Enclose::Active(ch);
            return true;
        }
        if self.enclose.is_enclosed_with(ch) {
            self.enclose = Enclose::Inactive;
            return true;
        }
        false
    }

    /// A separator (an unquoted space, or the end of the line) ends the
    /// current word.
    fn try_flush_token(&mut self, ch: char) -> (handled: bool)
        ensures
            handled == ((ch == ' ' && old(self)@.enclose is Inactive) || ch == '\0'),
            handled ==> final(self)@ == tok_flush(old(self)@),
            !handled ==> final(self)@ == old(self)@,
    {
        if ch == ' ' && !self.enclose.is_enclosing() || ch == '\0' {
            self.flush_token();
            return true;
        }
        false
    }

    /// Moves a non-empty accumulated word into the token list.
    fn flush_token(&mut self)
        ensures
            final(self)@ == tok_flush(old(self)@),
    {
        if self.acc.is_empty() {
            return;
        }
        let token = chars_to_string(&self.acc);
        self.tokens.push(token);
        self.acc.clear();
        proof {
            assert(self.tokens.deep_view() =~= old(self)@.toks.push(old(self)@.acc));
            assert(self@ =~= tok_flush(old(self)@));
        }
    }
}

/// The token sequence of one raw input line.
pub fn parse_input(input: &str) -> (r: Vec<String>)
    ensures
        r.deep_view() == tokens_of(input@),
{
    let mut parser = Parser::new(input);
    parser.parse();
    parser.tokens
}

} // verus!

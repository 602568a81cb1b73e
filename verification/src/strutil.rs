//! Small verified string utilities shared by the tokenizer, the command
//! builder and the builtin routines.

use vstd::prelude::*;

verus! {

/// Characters treated as whitespace when an input line is trimmed.
pub open spec fn is_space_char(c: char) -> bool {
    c == ' ' || c == '\t' || c == '\n' || c == '\r'
}

/// `s` without leading and trailing whitespace.
pub open spec fn trim_spec(s: Seq<char>) -> Seq<char>
    decreases s.len(),
{
    if s.len() > 0 && is_space_char(s[0]) {
        trim_spec(s.drop_first())
    } else if s.len() > 0 && is_space_char(s.last()) {
        trim_spec(s.drop_last())
    } else {
        s
    }
}

/// Whether `c` is one of the whitespace characters that `trim` removes.
pub fn is_space(c: char) -> (r: bool)
    ensures
        r == is_space_char(c),
{
    c == ' ' || c == '\t' || c == '\n' || c == '\r'
}

proof fn lemma_trim_inner(s: Seq<char>, lo: int, hi: int)
    requires
        0 <= lo <= hi <= s.len(),
        forall|k: int| 0 <= k < lo ==> is_space_char(s[k]),
        forall|k: int| hi <= k < s.len() ==> is_space_char(s[k]),
        lo < hi ==> !is_space_char(s[lo]),
        lo < hi ==> !is_space_char(s[hi - 1]),
    ensures
        trim_spec(s) == s.subrange(lo, hi),
    decreases s.len(),
{
    if lo > 0 {
        assert(s.drop_first() =~= s.subrange(1, s.len() as int));
        lemma_trim_inner(s.drop_first(), lo - 1, hi - 1);
        assert(s.drop_first().subrange(lo - 1, hi - 1) =~= s.subrange(lo, hi));
    } else if hi < s.len() {
        assert(is_space_char(s.last()));
        if s.len() > 0 && is_space_char(s[0]) {
            // then lo < hi is false, so lo == hi == 0 and every character is space
            assert(lo == 0 && hi == 0);
            lemma_trim_inner(s.drop_first(), 0, 0);
            assert(s.drop_first().subrange(0, 0) =~= s.subrange(0, 0));
        } else {
            assert(s.drop_last() =~= s.subrange(0, s.len() - 1));
            lemma_trim_inner(s.drop_last(), lo, hi);
            assert(s.drop_last().subrange(lo, hi) =~= s.subrange(lo, hi));
        }
    } else {
        assert(s.subrange(0, s.len() as int) =~= s);
    }
}

/// `s` without leading and trailing whitespace.
pub fn trim(s: &str) -> (r: &str)
    ensures
        r@ == trim_spec(s@),
{
    let n: usize = s.unicode_len();
    let mut lo: usize = 0;
    while lo < n
        invariant
            0 <= lo <= n,
            n == s@.len(),
            forall|k: int| 0 <= k < lo ==> is_space_char(s@[k]),
        ensures
            0 <= lo <= n,
            forall|k: int| 0 <= k < lo ==> is_space_char(s@[k]),
            lo < n ==> !is_space_char(s@[lo as int]),
        decreases n - lo,
    {
        if is_space(s.get_char(lo)) {
            lo += 1;
        } else {
            break;
        }
    }
    let mut hi: usize = n;
    while hi > lo
        invariant
            lo <= hi <= n,
            n == s@.len(),
            forall|k: int| hi <= k < n ==> is_space_char(s@[k]),
            lo < n ==> !is_space_char(s@[lo as int]),
        ensures
            lo <= hi <= n,
            forall|k: int| hi <= k < n ==> is_space_char(s@[k]),
            lo < hi ==> !is_space_char(s@[hi - 1]),
        decreases hi,
    {
        if is_space(s.get_char(hi - 1)) {
            hi -= 1;
        } else {
            break;
        }
    }
    proof {
        if lo < hi {
            assert(!is_space_char(s@[lo as int]));
        }
        lemma_trim_inner(s@, lo as int, hi as int);
    }
    s.substring_char(lo, hi)
}

/// Whether two string slices hold the same characters.
pub fn str_eq(a: &str, b: &str) -> (r: bool)
    ensures
        r == (a@ == b@),
{
    let na: usize = a.unicode_len();
    let nb: usize = b.unicode_len();
    if na != nb {
        return false;
    }
    let mut i: usize = 0;
    while i < na
        invariant
            0 <= i <= na,
            na == a@.len(),
            na == b@.len(),
            forall|k: int| 0 <= k < i ==> a@[k] == b@[k],
        ensures
            0 <= i <= na,
            forall|k: int| 0 <= k < i ==> a@[k] == b@[k],
            i < na ==> a@[i as int] != b@[i as int],
        decreases na - i,
    {
        if a.get_char(i) != b.get_char(i) {
            break;
        }
        i += 1;
    }
    if i < na {
        proof {
            assert(a@[i as int] != b@[i as int]);
        }
        false
    } else {
        proof {
            assert(a@ =~= b@);
        }
        true
    }
}

/// Whether `s` contains the character `c`.
pub fn contains_char(s: &str, c: char) -> (r: bool)
    ensures
        r == s@.contains(c),
{
    let n: usize = s.unicode_len();
    let mut i: usize = 0;
    while i < n
        invariant
            0 <= i <= n,
            n == s@.len(),
            forall|k: int| 0 <= k < i ==> s@[k] != c,
        decreases n - i,
    {
        if s.get_char(i) == c {
            proof {
                assert(s@[i as int] == c);
            }
            return true;
        }
        i += 1;
    }
    proof {
        assert(forall|k: int| 0 <= k < s@.len() ==> s@[k] != c);
    }
    false
}

/// Whether `c` is a decimal digit.
pub open spec fn is_digit_char(c: char) -> bool {
    48 <= c as u32 && c as u32 <= 57
}

/// The numeric value of a decimal digit.
pub open spec fn digit_val(c: char) -> int {
    c as u32 - 48
}

/// The value of a sequence of decimal digits, most significant first.
pub open spec fn digits_value(s: Seq<char>) -> int
    decreases s.len(),
{
    if s.len() == 0 {
        0
    } else {
        digits_value(s.drop_last()) * 10 + digit_val(s.last())
    }
}

/// Whether every character of `s` is a decimal digit.
pub open spec fn all_digits(s: Seq<char>) -> bool {
    forall|i: int| 0 <= i < s.len() ==> is_digit_char(#[trigger] s[i])
}

/// `s` without its sign character, if it starts with one.
pub open spec fn int_body(s: Seq<char>) -> Seq<char> {
    if s.len() > 0 && (s[0] == '+' || s[0] == '-') {
        s.drop_first()
    } else {
        s
    }
}

/// The sign `s` denotes: `-1` when it starts with `-`, else `1`.
pub open spec fn int_sign(s: Seq<char>) -> int {
    if s.len() > 0 && s[0] == '-' {
        -1
    } else {
        1
    }
}

/// Whether `s` is an optional sign followed by at least one digit.
pub open spec fn valid_int_text(s: Seq<char>) -> bool {
    int_body(s).len() > 0 && all_digits(int_body(s))
}

/// The integer `s` denotes, when `valid_int_text(s)` holds.
pub open spec fn int_value(s: Seq<char>) -> int {
    int_sign(s) * digits_value(int_body(s))
}

/// The 32-bit integer `s` denotes: an optional sign, then digits, and a
/// value within the type's range; anything else is rejected.
pub open spec fn parse_i32_spec(s: Seq<char>) -> Option<int> {
    if valid_int_text(s) && -2147483648 <= int_value(s) <= 2147483647 {
        Some(int_value(s))
    } else {
        None
    }
}

proof fn lemma_digits_value_nonneg(s: Seq<char>)
    requires
        all_digits(s),
    ensures
        digits_value(s) >= 0,
    decreases s.len(),
{
    if s.len() > 0 {
        assert(all_digits(s.drop_last()));
        lemma_digits_value_nonneg(s.drop_last());
    }
}

proof fn lemma_digits_value_prefix_bound(s: Seq<char>, k: int)
    requires
        all_digits(s),
        0 <= k <= s.len(),
    ensures
        digits_value(s.take(k)) <= digits_value(s),
    decreases s.len() - k,
{
    if k == s.len() {
        assert(s.take(k) =~= s);
    } else {
        assert(s.take(k + 1).drop_last() =~= s.take(k));
        assert(all_digits(s.take(k)));
        lemma_digits_value_nonneg(s.take(k));
        assert(digits_value(s.take(k + 1)) == digits_value(s.take(k)) * 10 + digit_val(s[k]));
        lemma_digits_value_prefix_bound(s, k + 1);
    }
}

/// The 32-bit integer `s` denotes, as `parse_i32_spec` describes.
pub fn parse_i32(s: &str) -> (r: Option<i32>)
    ensures
        (match parse_i32_spec(s@) {
            Some(v) => r matches Some(x) && x as int == v,
            None => r is None,
        }),
{
    let n: usize = s.unicode_len();
    if n == 0 {
        return None;
    }
    let c0 = s.get_char(0);
    let negative = c0 == '-';
    let start: usize = if c0 == '-' || c0 == '+' {
        1
    } else {
        0
    };
    let ghost body = int_body(s@);
    proof {
        assert(body =~= s@.subrange(start as int, n as int));
    }
    if start >= n {
        return None;
    }
    let mut acc: u64 = 0;
    let mut i: usize = start;
    while i < n
        invariant
            start <= i <= n,
            n == s@.len(),
            start < n,
            body == int_body(s@),
            body =~= s@.subrange(start as int, n as int),
            acc <= 42949672959,
            acc as int == digits_value(body.take((i - start) as int)),
            forall|k: int| 0 <= k < i - start ==> is_digit_char(#[trigger] body[k]),
        decreases n - i,
    {
        let c = s.get_char(i);
        let v: u32 = c as u32;
        if v < 48 || v > 57 {
            proof {
                assert(body[(i - start) as int] == s@[i as int]);
                assert(!is_digit_char(body[(i - start) as int]));
            }
            return None;
        }
        if acc > 0xFFFF_FFFF {
            proof {
                if valid_int_text(s@) {
                    lemma_digits_value_prefix_bound(body, (i - start) as int);
                    lemma_digits_value_nonneg(body);
                }
            }
            return None;
        }
        acc = acc * 10 + ((v - 48) as u64);
        proof {
            let j = (i - start) as int;
            assert(body.take(j + 1).drop_last() =~= body.take(j));
            assert(body.take(j + 1).last() == body[j]);
            assert(body[j] == s@[i as int]);
            assert(digit_val(s@[i as int]) == v - 48);
        }
        i += 1;
    }
    proof {
        assert(body.take((n - start) as int) =~= body);
        assert(all_digits(body));
    }
    let magnitude: i64 = acc as i64;
    let value: i64 = if negative {
        -magnitude
    } else {
        magnitude
    };
    proof {
        assert(value as int == int_value(s@));
    }
    if value < -2147483648 || value > 2147483647 {
        return None;
    }
    Some(value as i32)
}

/// Relies on `String::push`: appends one character at the end.
#[verifier::external_body]
pub(crate) fn push_char(s: &mut String, c: char)
    ensures
        final(s)@ == old(s)@.push(c),
{
    s.push(c);
}

/// A `String` holding exactly the characters of `v`.
pub fn chars_to_string(v: &Vec<char>) -> (r: String)
    ensures
        r@ == v@,
{
    let mut r = String::new();
    let mut i: usize = 0;
    while i < v.len()
        invariant
            0 <= i <= v@.len(),
            r@ == v@.take(i as int),
        decreases v@.len() - i,
    {
        push_char(&mut r, v[i]);
        proof {
            assert(v@.take(i as int).push(v@[i as int]) =~= v@.take(i + 1));
        }
        i += 1;
    }
    proof {
        assert(v@.take(v@.len() as int) =~= v@);
    }
    r
}

} // verus!

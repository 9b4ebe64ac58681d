//! Text primitives that the generator needs beyond concatenation: the
//! whitespace class, the three trimming operations and decimal numerals.

use vstd::prelude::*;
use vstd::string::*;

verus! {

/// The characters with the Unicode property `White_Space`.
pub open spec fn is_white_space(c: char) -> bool {
    let u = c as u32;
    ||| 0x09 <= u <= 0x0D
    ||| u == 0x20
    ||| u == 0x85
    ||| u == 0xA0
    ||| u == 0x1680
    ||| 0x2000 <= u <= 0x200A
    ||| u == 0x2028
    ||| u == 0x2029
    ||| u == 0x202F
    ||| u == 0x205F
    ||| u == 0x3000
}

/// Tells whether `c` is whitespace.
pub fn is_whitespace(c: char) -> (b: bool)
    ensures
        b == is_white_space(c),
{
    let u = c as u32;
    (0x09 <= u && u <= 0x0D) || u == 0x20 || u == 0x85 || u == 0xA0 || u == 0x1680 || (0x2000 <= u
        && u <= 0x200A) || u == 0x2028 || u == 0x2029 || u == 0x202F || u == 0x205F || u == 0x3000
}

/// `s` without its leading whitespace.
pub open spec fn trim_start_spec(s: Seq<char>) -> Seq<char>
    decreases s.len(),
{
    if s.len() > 0 && is_white_space(s[0]) {
        trim_start_spec(s.drop_first())
    } else {
        s
    }
}

/// `s` without its trailing whitespace.
pub open spec fn trim_end_spec(s: Seq<char>) -> Seq<char>
    decreases s.len(),
{
    if s.len() > 0 && is_white_space(s.last()) {
        trim_end_spec(s.drop_last())
    } else {
        s
    }
}

/// `s` without its leading and trailing whitespace.
pub open spec fn trim_spec(s: Seq<char>) -> Seq<char> {
    trim_end_spec(trim_start_spec(s))
}

/// Trimming by a pair of switches: `lead` removes leading whitespace,
/// `trail` removes trailing whitespace.
pub open spec fn trimmed(lead: bool, trail: bool, s: Seq<char>) -> Seq<char> {
    match (lead, trail) {
        (false, false) => s,
        (false, true) => trim_end_spec(s),
        (true, false) => trim_start_spec(s),
        (true, true) => trim_spec(s),
    }
}

/// If the first `n` characters of `s` are whitespace and the one after them
/// is not, trimming the start drops exactly those `n`.
pub proof fn lemma_trim_start_skips(s: Seq<char>, n: int)
    requires
        0 <= n <= s.len(),
        forall|j: int| 0 <= j < n ==> is_white_space(#[trigger] s[j]),
        n < s.len() ==> !is_white_space(s[n]),
    ensures
        trim_start_spec(s) == s.skip(n),
    decreases n,
{
    if n == 0 {
        assert(s.skip(0) =~= s);
    } else {
        let rest = s.drop_first();
        assert forall|j: int| 0 <= j < n - 1 implies is_white_space(#[trigger] rest[j]) by {
            assert(rest[j] == s[j + 1]);
        }
        lemma_trim_start_skips(rest, n - 1);
        assert(rest.skip(n - 1) =~= s.skip(n));
    }
}

/// If all characters of `s` from `n` on are whitespace and the one before
/// them is not, trimming the end keeps exactly the first `n`.
pub proof fn lemma_trim_end_takes(s: Seq<char>, n: int)
    requires
        0 <= n <= s.len(),
        forall|j: int| n <= j < s.len() ==> is_white_space(#[trigger] s[j]),
        n > 0 ==> !is_white_space(s[n - 1]),
    ensures
        trim_end_spec(s) == s.take(n),
    decreases s.len() - n,
{
    if n == s.len() {
        assert(s.take(n) =~= s);
    } else {
        let rest = s.drop_last();
        lemma_trim_end_takes(rest, n);
        assert(rest.take(n) =~= s.take(n));
    }
}

/// Removes leading whitespace.
pub fn trim_start(s: &str) -> (r: &str)
    ensures
        r@ == trim_start_spec(s@),
{
    let len = s.unicode_len();
    let mut n: usize = 0;
    let mut seen: usize = 0;
    for c in iter: s.chars()
        invariant
            iter.seq() == s@,
            len == s@.len(),
            seen == iter.index(),
            n <= seen,
            forall|j: int| 0 <= j < n ==> is_white_space(#[trigger] s@[j]),
            n < seen ==> !is_white_space(s@[n as int]),
    {
        if n == seen && is_whitespace(c) {
            n = n + 1;
        }
        seen = seen + 1;
    }
    proof {
        lemma_trim_start_skips(s@, n as int);
    }
    s.substring_char(n, len)
}

/// Removes trailing whitespace.
pub fn trim_end(s: &str) -> (r: &str)
    ensures
        r@ == trim_end_spec(s@),
{
    let len = s.unicode_len();
    let mut n: usize = 0;
    let mut seen: usize = 0;
    for c in iter: s.chars()
        invariant
            iter.seq() == s@,
            len == s@.len(),
            seen == iter.index(),
            n <= seen,
            forall|j: int| n <= j < seen ==> is_white_space(#[trigger] s@[j]),
            n > 0 ==> !is_white_space(s@[n - 1]),
    {
        seen = seen + 1;
        if !is_whitespace(c) {
            n = seen;
        }
    }
    proof {
        lemma_trim_end_takes(s@, n as int);
    }
    s.substring_char(0, n)
}

/// Removes leading and trailing whitespace.
pub fn trim(s: &str) -> (r: &str)
    ensures
        r@ == trim_spec(s@),
{
    trim_end(trim_start(s))
}

/// Trims by a pair of switches.
pub fn trim_by(lead: bool, trail: bool, s: &str) -> (r: &str)
    ensures
        r@ == trimmed(lead, trail, s@),
{
    match (lead, trail) {
        (false, false) => s,
        (false, true) => trim_end(s),
        (true, false) => trim_start(s),
        (true, true) => trim(s),
    }
}

/// The character of the decimal digit `d`.
pub open spec fn digit_char(d: nat) -> char
    recommends
        d < 10,
{
    (0x30 + d) as u8 as char
}

/// The decimal numeral of a natural number, without leading zeros.
pub open spec fn decimal_digits(n: nat) -> Seq<char>
    decreases n,
{
    if n < 10 {
        seq![digit_char(n)]
    } else {
        decimal_digits(n / 10).push(digit_char(n % 10))
    }
}

/// The decimal numeral of an integer: a minus sign before the numeral of a
/// negative number's magnitude.
pub open spec fn decimal(i: int) -> Seq<char> {
    if i < 0 {
        seq!['-'] + decimal_digits((-i) as nat)
    } else {
        decimal_digits(i as nat)
    }
}

fn digit_str(d: u8) -> (r: &'static str)
    requires
        d < 10,
    ensures
        r@ == seq![digit_char(d as nat)],
{
    proof {
        reveal_strlit("0");
        reveal_strlit("1");
        reveal_strlit("2");
        reveal_strlit("3");
        reveal_strlit("4");
        reveal_strlit("5");
        reveal_strlit("6");
        reveal_strlit("7");
        reveal_strlit("8");
        reveal_strlit("9");
    }
    let r = match d {
        0 => "0",
        1 => "1",
        2 => "2",
        3 => "3",
        4 => "4",
        5 => "5",
        6 => "6",
        7 => "7",
        8 => "8",
        _ => "9",
    };
    assert(r@ =~= seq![digit_char(d as nat)]);
    r
}

fn append_digits(out: &mut String, n: u64)
    ensures
        final(out)@ == old(out)@ + decimal_digits(n as nat),
    decreases n,
{
    if n >= 10 {
        append_digits(out, n / 10);
    }
    out.append(digit_str((n % 10) as u8));
    assert(out@ =~= old(out)@ + decimal_digits(n as nat));
}

/// Renders an integer as its decimal numeral.
pub fn integer_to_string(i: i64) -> (s: String)
    ensures
        s@ == decimal(i as int),
{
    let mut out = String::new();
    if i < 0 {
        proof {
            reveal_strlit("-");
        }
        out.append("-");
        let magnitude: u64 = (-(i + 1)) as u64 + 1;
        append_digits(&mut out, magnitude);
        assert(out@ =~= decimal(i as int));
    } else {
        append_digits(&mut out, i as u64);
        assert(out@ =~= decimal(i as int));
    }
    out
}

} // verus!

//! Decimal and clock-style text for counters and countdowns.

use vstd::prelude::*;
use vstd::string::StringExecFns;

verus! {

/// The decimal digit character for `d`.
pub open spec fn digit_char(d: int) -> char
    recommends
        0 <= d < 10,
{
    if d == 0 { '0' }
    else if d == 1 { '1' }
    else if d == 2 { '2' }
    else if d == 3 { '3' }
    else if d == 4 { '4' }
    else if d == 5 { '5' }
    else if d == 6 { '6' }
    else if d == 7 { '7' }
    else if d == 8 { '8' }
    else { '9' }
}

/// The decimal numeral of `n`, most significant digit first, without
/// leading zeros (zero itself is a single digit).
pub open spec fn dec_digits(n: int) -> Seq<char>
    recommends
        n >= 0,
    decreases n,
{
    if n < 10 {
        seq![digit_char(n)]
    } else {
        dec_digits(n / 10).push(digit_char(n % 10))
    }
}

/// Exactly two decimal digits, zero-padded.
pub open spec fn two_digits(n: int) -> Seq<char>
    recommends
        0 <= n < 100,
{
    seq![digit_char(n / 10), digit_char(n % 10)]
}

/// A countdown as clock text: minutes, a colon, two digits of seconds.
/// Minutes are zero-padded to two digits and keep their full numeral when
/// wider.
pub open spec fn time_text(secs: int) -> Seq<char>
    recommends
        secs >= 0,
{
    (if secs / 60 < 100 { two_digits(secs / 60) } else { dec_digits(secs / 60) })
        + seq![':'] + two_digits(secs % 60)
}

/// The spelled-out truth values.
pub open spec fn bool_text(b: bool) -> Seq<char> {
    if b { "true"@ } else { "false"@ }
}

/// The one-character string for a single decimal digit.
fn digit_str(d: u64) -> (s: &'static str)
    requires
        d < 10,
    ensures
        s@ == seq![digit_char(d as int)],
{
    proof {
        reveal_strlit("0");
        reveal_strlit("1");
        reveal_strlit("2");
        reveal_strlit("3");
        reveal_strlit("4");
        reveal_strlit("5");
        reveal_strlit("6");
        reveal_strlit("7");
        reveal_strlit("8");
        reveal_strlit("9");
    }
    let s: &'static str = if d == 0 { "0" }
    else if d == 1 { "1" }
    else if d == 2 { "2" }
    else if d == 3 { "3" }
    else if d == 4 { "4" }
    else if d == 5 { "5" }
    else if d == 6 { "6" }
    else if d == 7 { "7" }
    else if d == 8 { "8" }
    else { "9" };
    proof {
        assert(s@ =~= seq![digit_char(d as int)]);
    }
    s
}

/// Appends the decimal numeral of `n`.
pub fn push_dec(s: &mut String, n: u64)
    ensures
        final(s)@ == old(s)@ + dec_digits(n as int),
    decreases n,
{
    if n >= 10 {
        push_dec(s, n / 10);
        s.append(digit_str(n % 10));
        proof {
            assert(s@ =~= old(s)@ + dec_digits(n as int));
        }
    } else {
        s.append(digit_str(n));
        proof {
            assert(s@ =~= old(s)@ + dec_digits(n as int));
        }
    }
}

/// The decimal numeral of `n` as a fresh string.
pub fn u64_to_string(n: u64) -> (s: String)
    ensures
        s@ == dec_digits(n as int),
{
    let mut s = String::new();
    push_dec(&mut s, n);
    proof {
        assert(s@ =~= dec_digits(n as int));
    }
    s
}

/// The spelled-out truth value as a fresh string.
pub fn bool_to_string(b: bool) -> (s: String)
    ensures
        s@ == bool_text(b),
{
    if b {
        String::from_str("true")
    } else {
        String::from_str("false")
    }
}

/// A countdown of `secs` seconds as clock text.
pub fn format_time(secs: u64) -> (s: String)
    ensures
        s@ == time_text(secs as int),
{
    let minutes = secs / 60;
    let seconds = secs % 60;
    let mut s = String::new();
    if minutes < 100 {
        s.append(digit_str(minutes / 10));
        s.append(digit_str(minutes % 10));
    } else {
        push_dec(&mut s, minutes);
    }
    s.append(":");
    s.append(digit_str(seconds / 10));
    s.append(digit_str(seconds % 10));
    proof {
        reveal_strlit(":");
        assert(s@ =~= time_text(secs as int));
    }
    s
}

/// Law: every character of a decimal numeral is an ASCII digit.
pub proof fn lemma_dec_digits_ascii(n: int)
    requires
        n >= 0,
    ensures
        vstd::utf8::is_ascii_chars(dec_digits(n)),
    decreases n,
{
    if n >= 10 {
        lemma_dec_digits_ascii(n / 10);
        assert forall|i: int| 0 <= i < dec_digits(n).len() implies
            '\0' <= #[trigger] dec_digits(n)[i] <= '\u{7f}' by {
            if i < dec_digits(n / 10).len() {
                assert(dec_digits(n)[i] == dec_digits(n / 10)[i]);
            }
        };
    }
}

/// Law: clock text consists of ASCII digits and a colon only, so every
/// countdown the timer renders can travel as one byte per character.
pub proof fn lemma_time_text_ascii(secs: int)
    requires
        secs >= 0,
    ensures
        vstd::utf8::is_ascii_chars(time_text(secs)),
{
    lemma_dec_digits_ascii(secs / 60);
    let head = if secs / 60 < 100 { two_digits(secs / 60) } else { dec_digits(secs / 60) };
    assert forall|i: int| 0 <= i < time_text(secs).len() implies
        '\0' <= #[trigger] time_text(secs)[i] <= '\u{7f}' by {
        if i < head.len() {
            assert(time_text(secs)[i] == head[i]);
        } else if i == head.len() {
            assert(time_text(secs)[i] == ':');
        } else {
            assert(time_text(secs)[i] == two_digits(secs % 60)[i - head.len() - 1]);
        }
    };
}

} // verus!

//! Wall-clock text for on-screen timers.

use vstd::prelude::*;
use vstd::string::StringExecFns;
use crate::number::{digit_char, digit_char_exec};
use crate::text::push_char;

verus! {

/// `n` (below 100) as two decimal digits, zero-padded.
pub open spec fn two_digits(n: nat) -> Seq<char> {
    seq![digit_char(n / 10), digit_char(n % 10)]
}

/// The time of day of `secs` seconds as `HH:MM:SS`: hours modulo 24,
/// minutes and seconds modulo 60.
pub open spec fn clock_text(secs: nat) -> Seq<char> {
    two_digits((secs / 3600) % 24) + ":"@ + two_digits((secs / 60) % 60) + ":"@ + two_digits(
        secs % 60,
    )
}

fn push_two_digits(s: &mut String, n: u64)
    requires
        n < 100,
    ensures
        final(s)@ == old(s)@ + two_digits(n as nat),
{
    let tens = digit_char_exec((n / 10) as u32);
    let ones = digit_char_exec((n % 10) as u32);
    push_char(s, tens);
    push_char(s, ones);
    assert(s@ =~= old(s)@ + two_digits(n as nat));
}

/// Formats a number of seconds as a `HH:MM:SS` clock.
pub fn format_time(secs: u64) -> (t: String)
    ensures
        t@ == clock_text(secs as nat),
{
    let mut t = String::new();
    push_two_digits(&mut t, (secs / 3600) % 24);
    t.append(":");
    push_two_digits(&mut t, (secs / 60) % 60);
    t.append(":");
    push_two_digits(&mut t, secs % 60);
    t
}

/// The number written by the two decimal digits of `t` at `i` and `i + 1`.
pub open spec fn two_digit_value(t: Seq<char>, i: int) -> int {
    ((t[i] as int) - 48) * 10 + ((t[i + 1] as int) - 48)
}

/// Whether `c` is an ASCII decimal digit.
pub open spec fn is_digit_char(c: char) -> bool {
    '0' <= c && c <= '9'
}

proof fn lemma_two_digits(n: nat)
    requires
        n < 100,
    ensures
        two_digits(n).len() == 2,
        is_digit_char(two_digits(n)[0]),
        is_digit_char(two_digits(n)[1]),
        two_digit_value(two_digits(n), 0) == n,
{
    let t = two_digits(n);
    assert(t[0] == digit_char(n / 10));
    assert(t[1] == digit_char(n % 10));
    assert((digit_char(n / 10) as int) == 48 + n / 10);
    assert((digit_char(n % 10) as int) == 48 + n % 10);
}

/// A clock reads back as the time of day it was made from: eight
/// characters `HH:MM:SS`, each field two decimal digits, hours below 24,
/// minutes and seconds below 60, and together the seconds since midnight
/// (the seconds modulo one day).
pub proof fn law_clock_reads_back(secs: nat)
    ensures
        clock_text(secs).len() == 8,
        clock_text(secs)[2] == ':',
        clock_text(secs)[5] == ':',
        forall|i: int|
            0 <= i < 8 && i != 2 && i != 5 ==> is_digit_char(#[trigger] clock_text(secs)[i]),
        two_digit_value(clock_text(secs), 0) < 24,
        two_digit_value(clock_text(secs), 3) < 60,
        two_digit_value(clock_text(secs), 6) < 60,
        3600 * two_digit_value(clock_text(secs), 0) + 60 * two_digit_value(clock_text(secs), 3)
            + two_digit_value(clock_text(secs), 6) == secs % 86400,
{
    let h = (secs / 3600) % 24;
    let m = (secs / 60) % 60;
    let s = secs % 60;
    lemma_two_digits(h);
    lemma_two_digits(m);
    lemma_two_digits(s);
    let t = clock_text(secs);
    let th = two_digits(h);
    let tm = two_digits(m);
    let ts = two_digits(s);
    reveal_strlit(":");
    assert(t =~= seq![th[0], th[1], ':', tm[0], tm[1], ':', ts[0], ts[1]]);
    assert(two_digit_value(t, 0) == two_digit_value(th, 0));
    assert(two_digit_value(t, 3) == two_digit_value(tm, 0));
    assert(two_digit_value(t, 6) == two_digit_value(ts, 0));
    let a = secs / 60;
    let b = a / 60;
    assert(secs / 3600 == b) by {
        vstd::arithmetic::div_mod::lemma_div_denominator(secs as int, 60, 60);
    }
    assert(secs == 60 * a + s);
    assert(a == 60 * b + m);
    assert(b == 24 * (b / 24) + h);
    assert(secs == 86400 * (b / 24) + (3600 * h + 60 * m + s)) by (nonlinear_arith)
        requires
            secs == 60 * a + s,
            a == 60 * b + m,
            b == 24 * (b / 24) + h,
    ;
    assert(secs % 86400 == 3600 * h + 60 * m + s) by {
        vstd::arithmetic::div_mod::lemma_mod_multiples_vanish(
            (b / 24) as int,
            (3600 * h + 60 * m + s) as int,
            86400,
        );
        vstd::arithmetic::div_mod::lemma_small_mod((3600 * h + 60 * m + s) as nat, 86400);
    }
}

} // verus!

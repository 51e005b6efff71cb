//! Unsigned integer literals: reading them in a radix and writing them in
//! decimal.

use vstd::prelude::*;

verus! {

/// The value of `c` as a digit (of any radix up to 36), or 36 when `c` is not
/// a digit.
pub open spec fn digit_value(c: char) -> nat {
    if '0' <= c && c <= '9' {
        (c as u32 - '0' as u32) as nat
    } else if 'a' <= c && c <= 'z' {
        (c as u32 - 'a' as u32 + 10) as nat
    } else if 'A' <= c && c <= 'Z' {
        (c as u32 - 'A' as u32 + 10) as nat
    } else {
        36
    }
}

/// Whether every character of `s` is a digit of `radix`.
pub open spec fn all_digits(s: Seq<char>, radix: nat) -> bool {
    forall|i: int| 0 <= i < s.len() ==> digit_value(#[trigger] s[i]) < radix
}

/// The number that the digits `s` denote in `radix`.
pub open spec fn digits_value(s: Seq<char>, radix: nat) -> nat
    decreases s.len(),
{
    if s.len() == 0 {
        0
    } else {
        digits_value(s.drop_last(), radix) * radix + digit_value(s.last())
    }
}

/// What `u32::from_str_radix(s, radix)` returns: an optional `+` followed by
/// at least one digit of `radix`, denoting a number that fits in a `u32`.
pub open spec fn parse_u32_radix(s: Seq<char>, radix: nat) -> Option<u32> {
    let body = if s.len() > 0 && s[0] == '+' {
        s.drop_first()
    } else {
        s
    };
    if body.len() == 0 || !all_digits(body, radix) || digits_value(body, radix) > u32::MAX {
        None
    } else {
        Some(digits_value(body, radix) as u32)
    }
}

/// Why `u32::from_str_radix` refuses a text.
#[derive(Debug, Clone, Copy, PartialEq, Eq, Structural)]
pub enum IntError {
    /// The text is empty.
    Empty,
    /// A character is not a digit of the radix (a lone `+` included).
    InvalidDigit,
    /// The number does not fit in a `u32`.
    PosOverflow,
}

/// Scanning the digits `body` from index `k`: the first digit that is not
/// one of `radix`, or the first prefix whose value is too large, decides.
pub open spec fn first_failure(body: Seq<char>, radix: nat, k: int) -> IntError
    decreases body.len() - k,
{
    if k < 0 || k >= body.len() {
        IntError::PosOverflow
    } else if digit_value(body[k]) >= radix {
        IntError::InvalidDigit
    } else if digits_value(body.take(k + 1), radix) > u32::MAX {
        IntError::PosOverflow
    } else {
        first_failure(body, radix, k + 1)
    }
}

/// The error `u32::from_str_radix(s, radix)` gives when it refuses `s`.
pub open spec fn int_error(s: Seq<char>, radix: nat) -> IntError {
    if s.len() == 0 {
        IntError::Empty
    } else {
        let body = if s[0] == '+' {
            s.drop_first()
        } else {
            s
        };
        if body.len() == 0 {
            IntError::InvalidDigit
        } else {
            first_failure(body, radix, 0)
        }
    }
}

/// The value of a single character as a digit, as [`digit_value`] says.
pub fn digit_of(c: char) -> (d: u32)
    ensures
        d == digit_value(c),
{
    if '0' <= c && c <= '9' {
        (c as u32) - ('0' as u32)
    } else if 'a' <= c && c <= 'z' {
        (c as u32) - ('a' as u32) + 10
    } else if 'A' <= c && c <= 'Z' {
        (c as u32) - ('A' as u32) + 10
    } else {
        36
    }
}

proof fn lemma_digits_value_grows(s: Seq<char>, radix: nat, k: int)
    requires
        1 <= radix,
        0 <= k <= s.len(),
    ensures
        digits_value(s.take(k), radix) <= digits_value(s, radix),
    decreases s.len() - k,
{
    if k < s.len() {
        lemma_digits_value_grows(s, radix, k + 1);
        let t = s.take(k + 1);
        assert(t.drop_last() =~= s.take(k));
        let a = digits_value(s.take(k), radix);
        assert(a * radix >= a) by (nonlinear_arith)
            requires
                radix >= 1,
        ;
    } else {
        assert(s.take(k) =~= s);
    }
}

/// Reads `s` as `u32::from_str_radix` does: the number, or why `s` is not
/// one.
pub fn parse_u32(s: &Vec<char>, radix: u32) -> (r: Result<u32, IntError>)
    requires
        2 <= radix <= 36,
    ensures
        match r {
            Ok(v) => parse_u32_radix(s@, radix as nat) == Some(v),
            Err(e) => parse_u32_radix(s@, radix as nat) is None && e == int_error(
                s@,
                radix as nat,
            ),
        },
{
    let ghost body = if s@.len() > 0 && s@[0] == '+' {
        s@.drop_first()
    } else {
        s@
    };
    if s.len() == 0 {
        return Err(IntError::Empty);
    }
    let start: usize = if s[0] == '+' {
        1
    } else {
        0
    };
    assert(body =~= s@.skip(start as int));
    if start >= s.len() {
        return Err(IntError::InvalidDigit);
    }
    let mut acc: u64 = 0;
    let mut i: usize = start;
    while i < s.len()
        invariant
            start <= i <= s@.len(),
            0 < s@.len(),
            body == s@.skip(start as int),
            body == (if s@.len() > 0 && s@[0] == '+' {
                s@.drop_first()
            } else {
                s@
            }),
            body.len() > 0,
            2 <= radix <= 36,
            all_digits(body.take(i - start), radix as nat),
            acc == digits_value(body.take(i - start), radix as nat),
            acc <= u32::MAX,
            first_failure(body, radix as nat, 0) == first_failure(body, radix as nat, i - start),
        decreases s.len() - i,
    {
        let d = digit_of(s[i]);
        if d >= radix {
            assert(body[i - start] == s@[i as int]);
            assert(digit_value(body[i - start]) >= radix);
            return Err(IntError::InvalidDigit);
        }
        assert(acc * (radix as u64) <= 0xFFFF_FFFFu64 * 36) by (nonlinear_arith)
            requires
                acc <= 0xFFFF_FFFFu64,
                radix <= 36,
        ;
        let next: u64 = acc * (radix as u64) + (d as u64);
        let ghost t = body.take(i - start + 1);
        assert(t.drop_last() =~= body.take(i - start));
        assert(t.last() == s@[i as int]);
        assert(body[i - start] == s@[i as int]);
        assert(all_digits(t, radix as nat));
        assert(next == digits_value(t, radix as nat));
        if next > 0xFFFF_FFFFu64 {
            proof {
                lemma_digits_value_grows(body, radix as nat, i - start + 1);
            }
            return Err(IntError::PosOverflow);
        }
        acc = next;
        i += 1;
    }
    assert(body.take(body.len() as int) =~= body);
    Ok(acc as u32)
}

/// The character of the decimal digit `d`.
pub open spec fn digit_char(d: nat) -> char {
    (48 + d) as char
}

/// The decimal text of `n`, as `Display` writes it.
pub open spec fn decimal(n: nat) -> Seq<char>
    decreases n,
{
    if n < 10 {
        seq![digit_char(n)]
    } else {
        decimal(n / 10).push(digit_char(n % 10))
    }
}

/// The character of the decimal digit `d`.
pub fn digit_char_exec(d: u32) -> (c: char)
    requires
        d < 10,
    ensures
        c == digit_char(d as nat),
{
    let b: u8 = (d as u8) + 48u8;
    b as char
}

/// Appends the decimal text of `n` to `s`.
pub fn push_decimal(s: &mut String, n: u32)
    ensures
        final(s)@ == old(s)@ + decimal(n as nat),
    decreases n,
{
    if n >= 10 {
        push_decimal(s, n / 10);
    }
    let c = digit_char_exec(n % 10);
    crate::text::push_char(s, c);
    if n < 10 {
        assert(decimal(n as nat) =~= seq![c]);
    }
}

/// The character of the lowercase hexadecimal digit `d`.
pub open spec fn hex_char(d: nat) -> char {
    if d < 10 {
        (48 + d) as char
    } else {
        (87 + d) as char
    }
}

/// The lowercase hexadecimal text of `n`, without leading zeros.
pub open spec fn hex_text(n: nat) -> Seq<char>
    decreases n,
{
    if n < 16 {
        seq![hex_char(n)]
    } else {
        hex_text(n / 16).push(hex_char(n % 16))
    }
}

fn hex_char_exec(d: u32) -> (c: char)
    requires
        d < 16,
    ensures
        c == hex_char(d as nat),
{
    let b: u8 = if d < 10 {
        (d as u8) + 48u8
    } else {
        (d as u8) + 87u8
    };
    b as char
}

/// Appends the lowercase hexadecimal text of `n` to `s`.
pub fn push_hex(s: &mut String, n: u32)
    ensures
        final(s)@ == old(s)@ + hex_text(n as nat),
    decreases n,
{
    if n >= 16 {
        push_hex(s, n / 16);
    }
    let c = hex_char_exec(n % 16);
    crate::text::push_char(s, c);
    if n < 16 {
        assert(hex_text(n as nat) =~= seq![c]);
    }
}

} // verus!

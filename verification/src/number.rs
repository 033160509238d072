//! Numbers as text: reading them in a radix, and writing them in decimal.

use crate::text::chars_of;
use vstd::prelude::*;

verus! {

/// The value of `c` as a digit: `0` to `9` count 0 to 9, and the letters
/// `a` to `z`, in either case, count 10 to 35.
pub open spec fn digit_of(c: char) -> Option<nat> {
    let u = c as u32;
    if 0x30 <= u <= 0x39 {
        Some((u - 0x30) as nat)
    } else if 0x61 <= u <= 0x7A {
        Some((u - 0x61 + 10) as nat)
    } else if 0x41 <= u <= 0x5A {
        Some((u - 0x41 + 10) as nat)
    } else {
        None
    }
}

/// Whether `c` is a digit in the given radix.
pub open spec fn is_digit(c: char, radix: nat) -> bool {
    digit_of(c) matches Some(d) && d < radix
}

/// The number that the digits `s` write in the given radix, most significant
/// digit first. A character that is no digit counts as zero.
pub open spec fn digits_value(s: Seq<char>, radix: nat) -> nat
    decreases s.len(),
{
    if s.len() == 0 {
        0
    } else {
        let low: nat = match digit_of(s.last()) {
            Some(d) => d,
            None => 0,
        };
        digits_value(s.drop_last(), radix) * radix + low
    }
}

/// Whether `s` is one or more digits of the given radix and nothing else.
pub open spec fn is_digits(s: Seq<char>, radix: nat) -> bool {
    s.len() > 0 && forall|i: int| 0 <= i < s.len() ==> is_digit(#[trigger] s[i], radix)
}

/// `s` without a leading plus sign.
pub open spec fn unsigned_body(s: Seq<char>) -> Seq<char> {
    if s.len() > 0 && s[0] == '+' {
        s.skip(1)
    } else {
        s
    }
}

/// The unsigned number that `s` writes in the given radix: an optional plus
/// sign, then one or more digits, with a value of at most `max`. Anything
/// else writes no number.
pub open spec fn radix_value(s: Seq<char>, radix: nat, max: nat) -> Option<nat> {
    let body = unsigned_body(s);
    if is_digits(body, radix) && digits_value(body, radix) <= max {
        Some(digits_value(body, radix))
    } else {
        None
    }
}

/// The value of a prefix of the digits is at most the value of all of them.
proof fn lemma_digits_value_prefix(s: Seq<char>, k: int, radix: nat)
    requires
        0 <= k <= s.len(),
        radix >= 1,
    ensures
        digits_value(s.take(k), radix) <= digits_value(s, radix),
    decreases s.len() - k,
{
    if k == s.len() {
        assert(s.take(k) =~= s);
    } else {
        let t = s.drop_last();
        lemma_digits_value_prefix(t, k, radix);
        assert(t.take(k) =~= s.take(k));
        assert(digits_value(t, radix) <= digits_value(t, radix) * radix) by (nonlinear_arith)
            requires
                radix >= 1,
        ;
    }
}

/// The digit that `c` is in the given radix, if it is one.
fn digit_in_radix(c: char, radix: u32) -> (r: Option<u32>)
    requires
        radix <= 36,
    ensures
        match r {
            Some(d) => is_digit(c, radix as nat) && digit_of(c) == Some(d as nat),
            None => !is_digit(c, radix as nat),
        },
{
    let u: u32 = c as u32;
    let d: u32 = if 0x30 <= u && u <= 0x39 {
        u - 0x30
    } else if 0x61 <= u && u <= 0x7A {
        u - 0x61 + 10
    } else if 0x41 <= u && u <= 0x5A {
        u - 0x41 + 10
    } else {
        return None;
    };
    if d < radix {
        Some(d)
    } else {
        None
    }
}

/// Reads the unsigned number that `v[from..]` writes in the given radix.
pub fn parse_radix_from(v: &Vec<char>, from: usize, radix: u32, max: u64) -> (r: Option<u64>)
    requires
        from <= v.len(),
        2 <= radix <= 36,
    ensures
        match r {
            Some(x) => radix_value(v@.skip(from as int), radix as nat, max as nat) == Some(
                x as nat,
            ),
            None => radix_value(v@.skip(from as int), radix as nat, max as nat) is None,
        },
{
    let n: usize = v.len();
    let ghost s = v@.skip(from as int);
    let mut i: usize = from;
    if i < n && v[i] == '+' {
        i += 1;
    }
    let first: usize = i;
    let ghost body = v@.skip(first as int);
    assert(body =~= unsigned_body(s));
    if i == n {
        return None;
    }
    let mut acc: u64 = 0;
    while i < n
        invariant
            from <= first <= i <= n == v.len(),
            first < n,
            2 <= radix <= 36,
            body == v@.skip(first as int),
            body == unsigned_body(v@.skip(from as int)),
            acc as nat == digits_value(body.take(i - first), radix as nat),
            acc <= max,
            forall|j: int| 0 <= j < i - first ==> is_digit(#[trigger] body[j], radix as nat),
        decreases n - i,
    {
        let ghost head = body.take(i - first + 1);
        proof {
            assert(head.drop_last() =~= body.take(i - first));
            lemma_digits_value_prefix(body, i - first + 1, radix as nat);
        }
        let d: u32 = match digit_in_radix(v[i], radix) {
            Some(d) => d,
            None => {
                return None;
            },
        };
        let shifted: u64 = match acc.checked_mul(radix as u64) {
            Some(t) => t,
            None => {
                return None;
            },
        };
        let next: u64 = match shifted.checked_add(d as u64) {
            Some(t) => t,
            None => {
                return None;
            },
        };
        if next > max {
            return None;
        }
        acc = next;
        i += 1;
    }
    proof {
        assert(body.take(n - first) =~= body);
    }
    Some(acc)
}

/// Reads the unsigned number that `s` writes in the given radix, as
/// `radix_value` defines it.
pub fn parse_radix(s: &str, radix: u32, max: u64) -> (r: Option<u64>)
    requires
        2 <= radix <= 36,
    ensures
        match r {
            Some(x) => radix_value(s@, radix as nat, max as nat) == Some(x as nat),
            None => radix_value(s@, radix as nat, max as nat) is None,
        },
{
    let v = chars_of(s);
    proof {
        assert(v@.skip(0) =~= s@);
    }
    parse_radix_from(&v, 0, radix, max)
}

/// The number that `s` writes in hexadecimal behind the prefix `0x`, which
/// must be there. The value is at most `max`.
pub open spec fn hex_value(s: Seq<char>, max: nat) -> Option<nat> {
    if s.len() >= 2 && s[0] == '0' && s[1] == 'x' {
        radix_value(s.skip(2), 16, max)
    } else {
        None
    }
}

/// Reads a hexadecimal number with its `0x` prefix, as `hex_value` defines it.
pub fn parse_hex(s: &str, max: u64) -> (r: Option<u64>)
    ensures
        match r {
            Some(x) => hex_value(s@, max as nat) == Some(x as nat),
            None => hex_value(s@, max as nat) is None,
        },
{
    let v = chars_of(s);
    if v.len() >= 2 && v[0] == '0' && v[1] == 'x' {
        parse_radix_from(&v, 2, 16, max)
    } else {
        None
    }
}

/// The character that writes the decimal digit `d`.
pub open spec fn decimal_digit(d: nat) -> char {
    (0x30 + d) as char
}

/// The decimal digits of `n`, most significant first, without leading zeros.
pub open spec fn decimal(n: nat) -> Seq<char>
    decreases n,
{
    if n < 10 {
        seq![decimal_digit(n)]
    } else {
        decimal(n / 10).push(decimal_digit(n % 10))
    }
}

/// Appends the decimal digits of `n` to `out`.
pub fn push_decimal(out: &mut String, n: usize)
    ensures
        final(out)@ == old(out)@ + decimal(n as nat),
    decreases n,
{
    if n >= 10 {
        push_decimal(out, n / 10);
    }
    let d: u8 = (n % 10) as u8;
    let c: char = (0x30u8 + d) as char;
    out.push(c);
}

/// The decimal digits of a number are digits, and write that number.
pub proof fn lemma_decimal_is_digits(n: nat)
    ensures
        is_digits(decimal(n), 10),
        digits_value(decimal(n), 10) == n,
    decreases n,
{
    let low = decimal_digit(n % 10);
    if n < 10 {
        assert(digits_value(seq![low].drop_last(), 10) == 0);
    } else {
        lemma_decimal_is_digits(n / 10);
        let high = decimal(n / 10);
        assert(high.push(low).drop_last() =~= high);
    }
}

/// Reading the decimal digits of a number gives the number back.
pub proof fn lemma_decimal_round_trip(n: nat, max: nat)
    requires
        n <= max,
    ensures
        radix_value(decimal(n), 10, max) == Some(n),
{
    lemma_decimal_is_digits(n);
}

} // verus!

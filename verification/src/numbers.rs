//! Numbers as text.
use crate::text::slice;
use vstd::prelude::*;

verus! {

pub open spec fn is_digit(c: char) -> bool {
    '0' <= c && c <= '9'
}

pub open spec fn all_digits(s: Seq<char>) -> bool {
    forall|i: int| 0 <= i < s.len() ==> is_digit(#[trigger] s[i])
}

/// The number that the digits of `s` write.
pub open spec fn value(s: Seq<char>) -> nat
    decreases s.len(),
{
    if s.len() == 0 {
        0
    } else {
        value(s.drop_last()) * 10 + (s.last() as nat - '0' as nat) as nat
    }
}

/// The number in `s` if it is digits alone, at least one of them, and no more
/// than `max`.
pub open spec fn digits(s: Seq<char>, max: nat) -> Option<nat> {
    if s.len() > 0 && all_digits(s) && value(s) <= max {
        Some(value(s))
    } else {
        None
    }
}

/// An unsigned number of at most `max`: digits, with a plus sign in front or
/// not.
pub open spec fn unsigned(s: Seq<char>, max: nat) -> Option<nat> {
    if s.len() > 0 && s[0] == '+' {
        digits(s.skip(1), max)
    } else {
        digits(s, max)
    }
}

/// A signed 32-bit number: digits, with a sign in front or not.
pub open spec fn signed(s: Seq<char>) -> Option<int> {
    if s.len() > 0 && s[0] == '-' {
        match digits(s.skip(1), 0x8000_0000) {
            Some(n) => Some(-n),
            None => None,
        }
    } else {
        match unsigned(s, 0x7FFF_FFFF) {
            Some(n) => Some(n as int),
            None => None,
        }
    }
}

/// More digits write no smaller number.
pub proof fn prefixes_are_smaller(s: Seq<char>, i: int)
    requires
        0 <= i <= s.len(),
        all_digits(s),
    ensures
        value(s.take(i)) <= value(s),
    decreases s.len() - i,
{
    if i < s.len() {
        prefixes_are_smaller(s, i + 1);
        assert(s.take(i + 1).drop_last() =~= s.take(i));
        assert(is_digit(s[i]));
    } else {
        assert(s.take(i) =~= s);
    }
}

/// The number in `v` if it is digits alone and no more than `max`.
pub fn parse_digits(v: &Vec<char>, max: u64) -> (r: Option<u64>)
    ensures
        digits(v@, max as nat) == (match r {
            Some(n) => Some(n as nat),
            None => None,
        }),
{
    if v.len() == 0 {
        return None;
    }
    let mut n: u64 = 0;
    let mut i: usize = 0;
    while i < v.len()
        invariant
            i <= v@.len(),
            n == value(v@.take(i as int)),
            n <= max,
            forall|j: int| 0 <= j < i ==> is_digit(#[trigger] v@[j]),
        decreases v@.len() - i,
    {
        let c = v[i];
        if c < '0' || c > '9' {
            assert(!is_digit(v@[i as int]));
            return None;
        }
        let d: u64 = (c as u32 - '0' as u32) as u64;
        assert(v@.take(i + 1).drop_last() =~= v@.take(i as int));
        let next: u128 = n as u128 * 10 + d as u128;
        assert(next == value(v@.take(i + 1)));
        if next > max as u128 {
            proof {
                if all_digits(v@) {
                    prefixes_are_smaller(v@, i + 1);
                }
            }
            return None;
        }
        n = next as u64;
        i = i + 1;
    }
    assert(v@.take(v@.len() as int) =~= v@);
    Some(n)
}

/// An unsigned number of at most `max`.
pub fn parse_unsigned(v: &Vec<char>, max: u64) -> (r: Option<u64>)
    ensures
        unsigned(v@, max as nat) == (match r {
            Some(n) => Some(n as nat),
            None => None,
        }),
        r matches Some(n) ==> n <= max,
{
    if v.len() > 0 && v[0] == '+' {
        let rest = slice(v, 1, v.len());
        assert(rest@ =~= v@.skip(1));
        parse_digits(&rest, max)
    } else {
        parse_digits(v, max)
    }
}

/// A signed 32-bit number.
pub fn parse_i32(v: &Vec<char>) -> (r: Option<i32>)
    ensures
        signed(v@) == (match r {
            Some(n) => Some(n as int),
            None => None,
        }),
{
    if v.len() > 0 && v[0] == '-' {
        let rest = slice(v, 1, v.len());
        assert(rest@ =~= v@.skip(1));
        match parse_digits(&rest, 0x8000_0000) {
            Some(n) => Some((0 - n as i64) as i32),
            None => None,
        }
    } else {
        match parse_unsigned(v, 0x7FFF_FFFF) {
            Some(n) => Some(n as i32),
            None => None,
        }
    }
}

/// The digit for `d`, up to 15.
pub open spec fn digit(d: nat) -> char {
    if d < 10 {
        ('0' as nat + d) as char
    } else {
        ('a' as nat + d - 10) as char
    }
}

fn digit_of(d: u8) -> (c: char)
    requires
        d < 16,
    ensures
        c == digit(d as nat),
{
    if d < 10 {
        (0x30 + d) as char
    } else {
        (0x57 + d) as char
    }
}

/// `n` in decimal.
pub open spec fn decimal(n: nat) -> Seq<char>
    decreases n,
{
    if n < 10 {
        seq![digit(n)]
    } else {
        decimal(n / 10).push(digit(n % 10))
    }
}

/// `n` in hexadecimal, without leading zeros.
pub open spec fn hexadecimal(n: nat) -> Seq<char>
    decreases n,
{
    if n < 16 {
        seq![digit(n)]
    } else {
        hexadecimal(n / 16).push(digit(n % 16))
    }
}

/// `n` in hexadecimal, its last `width` digits.
pub open spec fn hex_padded(n: nat, width: nat) -> Seq<char>
    decreases width,
{
    if width == 0 {
        Seq::empty()
    } else {
        hex_padded(n / 16, (width - 1) as nat).push(digit(n % 16))
    }
}

/// `s` with spaces in front to make it `width` long.
pub open spec fn padded(s: Seq<char>, width: nat) -> Seq<char> {
    if s.len() >= width {
        s
    } else {
        Seq::new((width - s.len()) as nat, |i: int| ' ') + s
    }
}

/// Append `n` in decimal.
pub fn push_decimal(out: &mut String, n: u64)
    ensures
        final(out)@ == old(out)@ + decimal(n as nat),
    decreases n,
{
    if n < 10 {
        let c = digit_of(n as u8);
        out.push(c);
        assert(out@ =~= old(out)@ + seq![c]);
    } else {
        push_decimal(out, n / 10);
        let ghost mid = out@;
        let c = digit_of((n % 10) as u8);
        out.push(c);
        assert(out@ =~= old(out)@ + decimal((n / 10) as nat).push(c));
    }
}

/// Append `n` in hexadecimal, without leading zeros.
pub fn push_hex(out: &mut String, n: u32)
    ensures
        final(out)@ == old(out)@ + hexadecimal(n as nat),
    decreases n,
{
    if n < 16 {
        let c = digit_of(n as u8);
        out.push(c);
        assert(out@ =~= old(out)@ + seq![c]);
    } else {
        push_hex(out, n / 16);
        let c = digit_of((n % 16) as u8);
        out.push(c);
        assert(out@ =~= old(out)@ + hexadecimal((n / 16) as nat).push(c));
    }
}

/// Append the last `width` hexadecimal digits of `n`.
pub fn push_hex_padded(out: &mut String, n: u32, width: u8)
    ensures
        final(out)@ == old(out)@ + hex_padded(n as nat, width as nat),
    decreases width,
{
    if width == 0 {
        assert(out@ =~= old(out)@ + hex_padded(n as nat, 0));
    } else {
        push_hex_padded(out, n / 16, width - 1);
        let c = digit_of((n % 16) as u8);
        out.push(c);
        assert(out@ =~= old(out)@ + hex_padded((n / 16) as nat, (width - 1) as nat).push(c));
    }
}

/// `n` in decimal.
pub fn decimal_string(n: u64) -> (s: String)
    ensures
        s@ == decimal(n as nat),
{
    let mut s = String::new();
    push_decimal(&mut s, n);
    assert(s@ =~= decimal(n as nat));
    s
}

/// Append `n` in decimal with spaces in front to make it `width` long.
pub fn push_decimal_padded(out: &mut String, n: u64, width: usize)
    ensures
        final(out)@ == old(out)@ + padded(decimal(n as nat), width as nat),
{
    let text = decimal_string(n);
    let chars = crate::text::chars_of(text.as_str());
    let len: usize = chars.len();
    let ghost start = out@;
    let fill: usize = if len >= width {
        0
    } else {
        width - len
    };
    let mut i: usize = 0;
    while i < fill
        invariant
            i <= fill,
            out@ == start + Seq::new(i as nat, |j: int| ' '),
        decreases fill - i,
    {
        let ghost before = out@;
        out.push(' ');
        assert(out@ =~= start + Seq::new((i + 1) as nat, |j: int| ' '));
        i = i + 1;
    }
    out.append(text.as_str());
    assert(out@ =~= start + padded(decimal(n as nat), width as nat));
}

/// Writing a number in decimal and reading it back gives the number.
pub proof fn decimal_reads_back(n: nat)
    ensures
        value(decimal(n)) == n,
        all_digits(decimal(n)),
        decimal(n).len() > 0,
    decreases n,
{
    if n >= 10 {
        decimal_reads_back(n / 10);
        let d = decimal(n / 10);
        assert(d.push(digit(n % 10)).drop_last() =~= d);
        assert forall|i: int| 0 <= i < decimal(n).len() implies is_digit(#[trigger] decimal(n)[i]) by {
            if i < d.len() {
                assert(is_digit(d[i]));
            }
        }
    } else {
        let d = seq![digit(n)];
        assert(d.drop_last() =~= Seq::empty());
        reveal_with_fuel(value, 2);
    }
}

} // verus!

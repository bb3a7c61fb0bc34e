//! Numbers written as text, and text read as numbers.
use vstd::prelude::*;
use vstd::slice::slice_subrange;

use crate::text::begins_char;

verus! {

/// The decimal digit that stands for `d`.
pub open spec fn digit_char(d: nat) -> char {
    ((48 + d) as u8) as char
}

/// `n` in decimal, without leading zeros.
pub open spec fn dec_of(n: nat) -> Seq<char>
    decreases n,
{
    if n < 10 {
        seq![digit_char(n)]
    } else {
        dec_of(n / 10).push(digit_char(n % 10))
    }
}

/// `n` in decimal, with a minus sign where it is negative.
pub open spec fn dec_of_int(n: int) -> Seq<char> {
    if n < 0 {
        seq!['-'] + dec_of((-n) as nat)
    } else {
        dec_of(n as nat)
    }
}

/// The lower-case hexadecimal digit that stands for `d`.
pub open spec fn hex_char(d: nat) -> char {
    if d < 10 {
        digit_char(d)
    } else {
        ((87 + d) as u8) as char
    }
}

/// The lowest `width` hexadecimal digits of `n`, zeros included.
pub open spec fn hex_of(n: nat, width: nat) -> Seq<char>
    decreases width,
{
    if width == 0 {
        Seq::empty()
    } else {
        hex_of(n / 16, (width - 1) as nat).push(hex_char(n % 16))
    }
}

/// `n` in hexadecimal, without leading zeros.
pub open spec fn short_hex_of(n: nat) -> Seq<char>
    decreases n,
{
    if n < 16 {
        seq![hex_char(n)]
    } else {
        short_hex_of(n / 16).push(hex_char(n % 16))
    }
}

/// Appends `n` in hexadecimal, without leading zeros.
pub fn push_short_hex(out: &mut String, n: u64)
    ensures
        final(out)@ == old(out)@ + short_hex_of(n as nat),
    decreases n,
{
    let ghost before = out@;
    if n >= 16 {
        push_short_hex(out, n / 16);
    }
    let d = (n % 16) as u8;
    out.push(if d < 10 {
        (48 + d) as char
    } else {
        (87 + d) as char
    });
    proof {
        assert(n < 16 ==> before.push(hex_char(n as nat)) =~= before + short_hex_of(n as nat));
        assert(n >= 16 ==> (before + short_hex_of((n / 16) as nat)).push(hex_char((n % 16) as nat))
            =~= before + short_hex_of(n as nat));
    }
}

/// Appends `n` in decimal.
pub fn push_dec(out: &mut String, n: u64)
    ensures
        final(out)@ == old(out)@ + dec_of(n as nat),
    decreases n,
{
    let ghost before = out@;
    if n >= 10 {
        push_dec(out, n / 10);
    }
    let d = (n % 10) as u8;
    out.push((48 + d) as char);
    proof {
        assert(n < 10 ==> before.push(digit_char(n as nat)) =~= before + dec_of(n as nat));
        assert(n >= 10 ==> (before + dec_of((n / 10) as nat)).push(digit_char((n % 10) as nat))
            =~= before + dec_of(n as nat));
    }
}

/// `n` in decimal.
pub fn to_dec(n: u64) -> (out: String)
    ensures
        out@ == dec_of(n as nat),
{
    let mut out = String::new();
    push_dec(&mut out, n);
    assert(Seq::<char>::empty() + dec_of(n as nat) =~= dec_of(n as nat));
    out
}

/// `n` in decimal, with its sign where it is negative.
pub fn to_dec_i32(n: i32) -> (out: String)
    ensures
        out@ == dec_of_int(n as int),
{
    let mut out = String::new();
    if n < 0 {
        out.push('-');
        push_dec(&mut out, (-(n as i64)) as u64);
        assert(out@ =~= dec_of_int(n as int));
    } else {
        push_dec(&mut out, n as u64);
        assert(out@ =~= dec_of_int(n as int));
    }
    out
}

/// Appends the lowest `width` hexadecimal digits of `n`.
pub fn push_hex(out: &mut String, n: u64, width: usize)
    ensures
        final(out)@ == old(out)@ + hex_of(n as nat, width as nat),
    decreases width,
{
    let ghost before = out@;
    if width > 0 {
        push_hex(out, n / 16, width - 1);
        let d = (n % 16) as u8;
        out.push(if d < 10 {
            (48 + d) as char
        } else {
            (87 + d) as char
        });
        assert(out@ =~= before + hex_of(n as nat, width as nat));
    } else {
        assert(out@ =~= before + hex_of(n as nat, width as nat));
    }
}

// ---------------------------------------------------------------------------
// Reading
// ---------------------------------------------------------------------------

/// The value of `c` as a digit, up to 35; letters count in either case.
pub open spec fn digit_value(c: char) -> Option<nat> {
    if '0' <= c && c <= '9' {
        Some((c as u32 - 48) as nat)
    } else if 'a' <= c && c <= 'z' {
        Some((c as u32 - 87) as nat)
    } else if 'A' <= c && c <= 'Z' {
        Some((c as u32 - 55) as nat)
    } else {
        None
    }
}

/// The value of a run of digits in base `radix`; no digits are worth 0.
pub open spec fn digits_value(s: Seq<char>, radix: nat) -> Option<nat>
    decreases s.len(),
{
    if s.len() == 0 {
        Some(0)
    } else {
        match (digits_value(s.drop_last(), radix), digit_value(s.last())) {
            (Some(v), Some(d)) => if d < radix {
                Some(v * radix + d)
            } else {
                None
            },
            _ => None,
        }
    }
}

/// A run of at least one digit worth at most `max`.
pub open spec fn natural(s: Seq<char>, radix: nat, max: nat) -> Option<nat> {
    if s.len() == 0 {
        None
    } else {
        match digits_value(s, radix) {
            Some(v) => if v <= max {
                Some(v)
            } else {
                None
            },
            None => None,
        }
    }
}

/// An unsigned number: an optional `+` and digits, worth at most `max`.
pub open spec fn unsigned(s: Seq<char>, radix: nat, max: nat) -> Option<nat> {
    natural(
        if begins_char(s, '+') {
            s.skip(1)
        } else {
            s
        },
        radix,
        max,
    )
}

/// A signed number: an optional sign and decimal digits within 32 bits.
pub open spec fn signed(s: Seq<char>) -> Option<int> {
    if begins_char(s, '-') {
        match natural(s.skip(1), 10, 0x8000_0000) {
            Some(v) => Some(-(v as int)),
            None => None,
        }
    } else {
        match unsigned(s, 10, 0x7fff_ffff) {
            Some(v) => Some(v as int),
            None => None,
        }
    }
}

/// The value of `c` as a digit.
pub fn read_digit(c: char) -> (r: Option<u32>)
    ensures
        r is Some <==> digit_value(c) is Some,
        r matches Some(d) ==> digit_value(c) == Some(d as nat) && d < 36,
{
    if '0' <= c && c <= '9' {
        Some(c as u32 - 48)
    } else if 'a' <= c && c <= 'z' {
        Some(c as u32 - 87)
    } else if 'A' <= c && c <= 'Z' {
        Some(c as u32 - 55)
    } else {
        None
    }
}

proof fn digits_value_invalid(s: Seq<char>, radix: nat, n: int)
    requires
        0 <= n <= s.len(),
        digits_value(s.take(n), radix) is None,
    ensures
        digits_value(s, radix) is None,
    decreases s.len() - n,
{
    if n == s.len() {
        assert(s.take(n) =~= s);
    } else {
        assert(s.take(n + 1).drop_last() =~= s.take(n));
        digits_value_invalid(s, radix, n + 1);
    }
}

/// Reads a run of digits worth at most `max`.
pub fn read_natural(s: &[char], radix: u32, max: u32) -> (r: Option<u32>)
    requires
        2 <= radix <= 36,
    ensures
        r is Some <==> natural(s@, radix as nat, max as nat) is Some,
        r matches Some(v) ==> natural(s@, radix as nat, max as nat) == Some(v as nat),
{
    if s.len() == 0 {
        return None;
    }
    let mut value: u64 = 0;
    let mut over = false;
    assert(s@.take(0) =~= Seq::<char>::empty());
    for i in 0..s.len()
        invariant
            2 <= radix <= 36,
            value <= max,
            digits_value(s@.take(i as int), radix as nat) is Some,
            !over ==> digits_value(s@.take(i as int), radix as nat) == Some(value as nat),
            over ==> digits_value(s@.take(i as int), radix as nat)->0 > max,
    {
        assert(s@.take(i + 1).drop_last() =~= s@.take(i as int));
        assert(s@.take(i + 1).last() == s@[i as int]);
        let ghost before = digits_value(s@.take(i as int), radix as nat)->0;
        let d: u32 = match read_digit(s[i]) {
            Some(d) => if d < radix {
                d
            } else {
                proof {
                    digits_value_invalid(s@, radix as nat, i + 1);
                }
                return None;
            },
            None => {
                proof {
                    digits_value_invalid(s@, radix as nat, i + 1);
                }
                return None;
            },
        };
        proof {
            assert(before * radix >= before) by (nonlinear_arith)
                requires
                    radix >= 2,
                    before >= 0,
            ;
        }
        if !over {
            assert(value * radix <= 0xffff_ffff * 36) by (nonlinear_arith)
                requires
                    value <= max,
                    max <= 0xffff_ffff,
                    radix <= 36,
            ;
            let next: u64 = value * (radix as u64) + d as u64;
            if next > max as u64 {
                over = true;
            } else {
                value = next;
            }
        }
    }
    assert(s@.take(s@.len() as int) =~= s@);
    if over {
        None
    } else {
        Some(value as u32)
    }
}

/// Reads an unsigned number.
pub fn read_unsigned(s: &[char], radix: u32, max: u32) -> (r: Option<u32>)
    requires
        2 <= radix <= 36,
    ensures
        r is Some <==> unsigned(s@, radix as nat, max as nat) is Some,
        r matches Some(v) ==> unsigned(s@, radix as nat, max as nat) == Some(v as nat),
{
    if s.len() > 0 && s[0] == '+' {
        read_natural(slice_subrange(s, 1, s.len()), radix, max)
    } else {
        read_natural(s, radix, max)
    }
}

/// Reads a signed 32-bit number.
pub fn read_i32(s: &[char]) -> (r: Option<i32>)
    ensures
        r is Some <==> signed(s@) is Some,
        r matches Some(v) ==> signed(s@) == Some(v as int),
{
    if s.len() > 0 && s[0] == '-' {
        match read_natural(slice_subrange(s, 1, s.len()), 10, 0x8000_0000) {
            Some(v) => Some((-(v as i64)) as i32),
            None => None,
        }
    } else {
        match read_unsigned(s, 10, 0x7fff_ffff) {
            Some(v) => Some(v as i32),
            None => None,
        }
    }
}

} // verus!

//! UTF-16 code units and the bytes they are stored in.
use vstd::prelude::*;
use vstd::utf8::is_scalar;

verus! {

/// `char::from_u32` makes a character of every Unicode scalar value, and of
/// nothing else.
pub assume_specification[ char::from_u32 ](i: u32) -> (r: Option<char>)
    ensures
        is_scalar(i) ==> r == Some(i as char),
        !is_scalar(i) ==> r is None,
;

/// The one or two code units of a character.
pub open spec fn units_of_char(c: char) -> Seq<u16> {
    let v = c as u32;
    if v < 0x1_0000 {
        seq![v as u16]
    } else {
        seq![
            (0xd800 + (v - 0x1_0000) / 0x400) as u16,
            (0xdc00 + (v - 0x1_0000) % 0x400) as u16,
        ]
    }
}

/// The code units of a text.
pub open spec fn units_of(s: Seq<char>) -> Seq<u16>
    decreases s.len(),
{
    if s.len() == 0 {
        Seq::empty()
    } else {
        units_of_char(s[0]) + units_of(s.skip(1))
    }
}

/// The number of code units of a text.
pub open spec fn unit_count(s: Seq<char>) -> nat
    decreases s.len(),
{
    if s.len() == 0 {
        0
    } else {
        units_of_char(s[0]).len() + unit_count(s.skip(1))
    }
}

/// `unit_count` counts the code units.
pub proof fn unit_count_is_length(s: Seq<char>)
    ensures
        unit_count(s) == units_of(s).len(),
    decreases s.len(),
{
    if s.len() > 0 {
        unit_count_is_length(s.skip(1));
    }
}

/// A unit that opens a surrogate pair.
pub open spec fn is_high(u: u16) -> bool {
    0xd800 <= u < 0xdc00
}

/// A unit that closes a surrogate pair.
pub open spec fn is_low(u: u16) -> bool {
    0xdc00 <= u < 0xe000
}

/// The value that a surrogate pair stands for.
pub open spec fn pair_value(high: u16, low: u16) -> u32 {
    (0x1_0000 + (high - 0xd800) * 0x400 + (low - 0xdc00)) as u32
}

/// `c` in front of a text, where there is one.
pub open spec fn cons(c: char, rest: Option<Seq<char>>) -> Option<Seq<char>> {
    match rest {
        Some(r) => Some(seq![c] + r),
        None => None,
    }
}

/// The text that `units` encode; none where a surrogate stands alone.
pub open spec fn decoded(units: Seq<u16>) -> Option<Seq<char>>
    decreases units.len(),
{
    if units.len() == 0 {
        Some(Seq::empty())
    } else if !is_high(units[0]) && !is_low(units[0]) {
        cons((units[0] as u32) as char, decoded(units.skip(1)))
    } else if is_high(units[0]) && units.len() >= 2 && is_low(units[1]) {
        cons(pair_value(units[0], units[1]) as char, decoded(units.skip(2)))
    } else {
        None
    }
}

/// Decoding gives back every text that was encoded.
pub proof fn decoding_gives_back_the_text(s: Seq<char>)
    ensures
        decoded(units_of(s)) == Some(s),
    decreases s.len(),
{
    if s.len() > 0 {
        let c = s[0];
        let v = c as u32;
        vstd::utf8::char_is_scalar(c);
        vstd::utf8::char_u32_cast(c, v);
        let units = units_of(s);
        let rest = units_of(s.skip(1));
        decoding_gives_back_the_text(s.skip(1));
        assert(seq![c] + s.skip(1) =~= s);
        assert(is_scalar(v));
        if v < 0x1_0000 {
            assert(units.skip(1) =~= rest);
            assert(units[0] as u32 == v);
            assert((v as char) == c);
        } else {
            assert(units.skip(2) =~= rest);
            assert(pair_value(units[0], units[1]) == v);
            assert((v as char) == c);
        }
    }
}

/// Whether a text takes more than `limit` code units.
pub fn exceeds_units(s: &[char], limit: usize) -> (r: bool)
    requires
        limit < 0x1_0000_0000,
    ensures
        r == (unit_count(s@) > limit),
{
    let mut count: u64 = 0;
    assert(s@.skip(0) =~= s@);
    for i in 0..s.len()
        invariant
            limit < 0x1_0000_0000,
            count <= limit,
            unit_count(s@) == count + unit_count(s@.skip(i as int)),
    {
        assert(s@.skip(i as int).skip(1) =~= s@.skip(i + 1));
        count += if (s[i] as u32) < 0x1_0000 {
            1
        } else {
            2
        };
        if count > limit as u64 {
            return true;
        }
    }
    false
}

/// Text in front of a text, where there is one.
pub open spec fn prepend(s: Seq<char>, rest: Option<Seq<char>>) -> Option<Seq<char>> {
    match rest {
        Some(r) => Some(s + r),
        None => None,
    }
}

/// Decodes code units; refuses a surrogate that stands alone.
pub fn decode(units: &[u16]) -> (r: Option<Vec<char>>)
    ensures
        r is Some <==> decoded(units@) is Some,
        r matches Some(s) ==> decoded(units@) == Some(s@),
{
    let mut out: Vec<char> = Vec::new();
    let mut i: usize = 0;
    assert(units@.skip(0) =~= units@);
    assert(decoded(units@) is Some ==> Seq::<char>::empty() + decoded(units@)->0 =~= decoded(
        units@,
    )->0);
    while i < units.len()
        invariant
            i <= units.len(),
            decoded(units@) == prepend(out@, decoded(units@.skip(i as int))),
        decreases units.len() - i,
    {
        let ghost rest = units@.skip(i as int);
        let ghost before = out@;
        let u = units[i];
        assert(rest[0] == u);
        assert(rest.skip(1) =~= units@.skip(i + 1));
        if u < 0xd800 || u >= 0xe000 {
            match char::from_u32(u as u32) {
                Some(c) => {
                    out.push(c);
                    proof {
                        let tail = decoded(units@.skip(i + 1));
                        if tail is Some {
                            assert(before + (seq![c] + tail->0) =~= before.push(c) + tail->0);
                        }
                    }
                },
                None => {
                    return None;
                },
            }
            i += 1;
        } else if u < 0xdc00 && i + 1 < units.len() && 0xdc00 <= units[i + 1] && units[i + 1]
            < 0xe000 {
            let low = units[i + 1];
            assert(rest[1] == low);
            assert(rest.skip(2) =~= units@.skip(i + 2));
            let v: u32 = 0x1_0000 + (u as u32 - 0xd800) * 0x400 + (low as u32 - 0xdc00);
            match char::from_u32(v) {
                Some(c) => {
                    out.push(c);
                    proof {
                        let tail = decoded(units@.skip(i + 2));
                        if tail is Some {
                            assert(before + (seq![c] + tail->0) =~= before.push(c) + tail->0);
                        }
                    }
                },
                None => {
                    return None;
                },
            }
            i += 2;
        } else {
            return None;
        }
    }
    assert(units@.skip(i as int) =~= Seq::<u16>::empty());
    assert(out@ + Seq::<char>::empty() =~= out@);
    Some(out)
}

/// Encodes a text as code units.
pub fn encode(s: &[char]) -> (out: Vec<u16>)
    ensures
        out@ == units_of(s@),
{
    let mut out: Vec<u16> = Vec::new();
    assert(s@.skip(0) =~= s@);
    assert(Seq::<u16>::empty() + units_of(s@) =~= units_of(s@));
    for i in 0..s.len()
        invariant
            units_of(s@) == out@ + units_of(s@.skip(i as int)),
    {
        let ghost before = out@;
        assert(s@.skip(i as int).skip(1) =~= s@.skip(i + 1));
        let v = s[i] as u32;
        proof {
            vstd::utf8::char_is_scalar(s@[i as int]);
        }
        if v < 0x1_0000 {
            out.push(v as u16);
        } else {
            out.push((0xd800 + (v - 0x1_0000) / 0x400) as u16);
            out.push((0xdc00 + (v - 0x1_0000) % 0x400) as u16);
        }
        assert(out@ =~= before + units_of_char(s@[i as int]));
        assert(before + (units_of_char(s@[i as int]) + units_of(s@.skip(i + 1))) =~= out@
            + units_of(s@.skip(i + 1)));
    }
    assert(s@.skip(s@.len() as int) =~= Seq::<char>::empty());
    assert(out@ + Seq::<u16>::empty() =~= out@);
    out
}

// ---------------------------------------------------------------------------
// Bytes
// ---------------------------------------------------------------------------

/// The unit that two bytes hold, the low one first.
pub open spec fn unit_le(low: u8, high: u8) -> u16 {
    (low + 256 * high) as u16
}

/// The units that bytes hold, low byte first; an odd last byte is left out.
pub open spec fn units_le(bytes: Seq<u8>) -> Seq<u16> {
    Seq::new(bytes.len() / 2, |i: int| unit_le(bytes[2 * i], bytes[2 * i + 1]))
}

/// The units that bytes hold, high byte first; an odd last byte is left out.
pub open spec fn units_be(bytes: Seq<u8>) -> Seq<u16> {
    Seq::new(bytes.len() / 2, |i: int| unit_le(bytes[2 * i + 1], bytes[2 * i]))
}

/// The bytes of `units`, low byte first.
pub open spec fn bytes_le(units: Seq<u16>) -> Seq<u8> {
    Seq::new(
        2 * units.len(),
        |i: int|
            if i % 2 == 0 {
                (units[i / 2] % 256) as u8
            } else {
                (units[i / 2] / 256) as u8
            },
    )
}

/// Reading the bytes back gives the units that were written.
pub proof fn bytes_give_back_the_units(units: Seq<u16>)
    ensures
        bytes_le(units).len() % 2 == 0,
        units_le(bytes_le(units)) == units,
{
    let bytes = bytes_le(units);
    assert forall|i: int| 0 <= i < units.len() implies units_le(bytes)[i] == units[i] by {
        assert((2 * i) / 2 == i && (2 * i + 1) / 2 == i);
        assert((2 * i) % 2 == 0 && (2 * i + 1) % 2 == 1);
        assert(bytes[2 * i] == (units[i] % 256) as u8);
        assert(bytes[2 * i + 1] == (units[i] / 256) as u8);
    }
    assert(units_le(bytes) =~= units);
}

/// Reads units with the low byte first.
pub fn read_units_le(bytes: &[u8]) -> (out: Vec<u16>)
    ensures
        out@ == units_le(bytes@),
{
    let mut out: Vec<u16> = Vec::new();
    let n: usize = bytes.len() / 2;
    for i in 0..n
        invariant
            n == bytes.len() / 2,
            out@ =~= units_le(bytes@).take(i as int),
    {
        out.push(bytes[2 * i] as u16 + 256 * bytes[2 * i + 1] as u16);
    }
    out
}

/// Reads units with the high byte first.
pub fn read_units_be(bytes: &[u8]) -> (out: Vec<u16>)
    ensures
        out@ == units_be(bytes@),
{
    let mut out: Vec<u16> = Vec::new();
    let n: usize = bytes.len() / 2;
    for i in 0..n
        invariant
            n == bytes.len() / 2,
            out@ =~= units_be(bytes@).take(i as int),
    {
        out.push(bytes[2 * i + 1] as u16 + 256 * bytes[2 * i] as u16);
    }
    out
}

/// Appends the bytes of `units`, low byte first.
pub fn push_units_le(out: &mut Vec<u8>, units: &[u16])
    ensures
        final(out)@ == old(out)@ + bytes_le(units@),
{
    let ghost before = out@;
    for i in 0..units.len()
        invariant
            out@ =~= before + bytes_le(units@.take(i as int)),
    {
        let ghost so_far = out@;
        out.push((units[i] % 256) as u8);
        out.push((units[i] / 256) as u8);
        proof {
            assert((2 * i) / 2 == i && (2 * i + 1) / 2 == i);
            assert((2 * i) % 2 == 0 && (2 * i + 1) % 2 == 1);
            let next = bytes_le(units@.take(i + 1));
            assert(next =~= bytes_le(units@.take(i as int)).push((units@[i as int] % 256) as u8).push(
                (units@[i as int] / 256) as u8,
            ));
        }
    }
    assert(units@.take(units@.len() as int) =~= units@);
}

} // verus!

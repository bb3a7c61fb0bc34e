//! SHA-256.
use vstd::prelude::*;
use vstd::slice::slice_subrange;

use crate::number::{hex_of, push_hex};

verus! {

/// Addition modulo 2^32.
pub open spec fn plus(a: u32, b: u32) -> u32 {
    ((a + b) % 0x1_0000_0000) as u32
}

/// Rotation to the right.
pub open spec fn rotated(x: u32, n: u32) -> u32 {
    (x >> n) | (x << ((32 - n) as u32))
}

/// The function Ch.
pub open spec fn choice(x: u32, y: u32, z: u32) -> u32 {
    (x & y) ^ (!x & z)
}

/// The function Maj.
pub open spec fn majority(x: u32, y: u32, z: u32) -> u32 {
    (x & y) ^ (x & z) ^ (y & z)
}

/// The function Sigma 0.
pub open spec fn big_sigma0(x: u32) -> u32 {
    rotated(x, 2) ^ rotated(x, 13) ^ rotated(x, 22)
}

/// The function Sigma 1.
pub open spec fn big_sigma1(x: u32) -> u32 {
    rotated(x, 6) ^ rotated(x, 11) ^ rotated(x, 25)
}

/// The function sigma 0.
pub open spec fn small_sigma0(x: u32) -> u32 {
    rotated(x, 7) ^ rotated(x, 18) ^ (x >> 3)
}

/// The function sigma 1.
pub open spec fn small_sigma1(x: u32) -> u32 {
    rotated(x, 17) ^ rotated(x, 19) ^ (x >> 10)
}

/// The round constants: the first 32 bits of the fractional parts of the cube
/// roots of the first 64 primes.
pub open spec fn round_constants() -> Seq<u32> {
    seq![
        0x428a2f98u32, 0x71374491u32, 0xb5c0fbcfu32, 0xe9b5dba5u32, 0x3956c25bu32, 0x59f111f1u32,
        0x923f82a4u32, 0xab1c5ed5u32, 0xd807aa98u32, 0x12835b01u32, 0x243185beu32, 0x550c7dc3u32,
        0x72be5d74u32, 0x80deb1feu32, 0x9bdc06a7u32, 0xc19bf174u32, 0xe49b69c1u32, 0xefbe4786u32,
        0x0fc19dc6u32, 0x240ca1ccu32, 0x2de92c6fu32, 0x4a7484aau32, 0x5cb0a9dcu32, 0x76f988dau32,
        0x983e5152u32, 0xa831c66du32, 0xb00327c8u32, 0xbf597fc7u32, 0xc6e00bf3u32, 0xd5a79147u32,
        0x06ca6351u32, 0x14292967u32, 0x27b70a85u32, 0x2e1b2138u32, 0x4d2c6dfcu32, 0x53380d13u32,
        0x650a7354u32, 0x766a0abbu32, 0x81c2c92eu32, 0x92722c85u32, 0xa2bfe8a1u32, 0xa81a664bu32,
        0xc24b8b70u32, 0xc76c51a3u32, 0xd192e819u32, 0xd6990624u32, 0xf40e3585u32, 0x106aa070u32,
        0x19a4c116u32, 0x1e376c08u32, 0x2748774cu32, 0x34b0bcb5u32, 0x391c0cb3u32, 0x4ed8aa4au32,
        0x5b9cca4fu32, 0x682e6ff3u32, 0x748f82eeu32, 0x78a5636fu32, 0x84c87814u32, 0x8cc70208u32,
        0x90befffau32, 0xa4506cebu32, 0xbef9a3f7u32, 0xc67178f2u32,
    ]
}

/// The eight words that a block is mixed into.
#[derive(Clone, Copy, Debug, PartialEq, Eq, Structural)]
pub struct Words {
    pub a: u32,
    pub b: u32,
    pub c: u32,
    pub d: u32,
    pub e: u32,
    pub f: u32,
    pub g: u32,
    pub h: u32,
}

/// The initial words: the first 32 bits of the fractional parts of the square
/// roots of the first eight primes.
pub open spec fn initial_words() -> Words {
    Words {
        a: 0x6a09e667,
        b: 0xbb67ae85,
        c: 0x3c6ef372,
        d: 0xa54ff53a,
        e: 0x510e527f,
        f: 0x9b05688c,
        g: 0x1f83d9ab,
        h: 0x5be0cd19,
    }
}

/// The word at byte `i`, highest byte first.
pub open spec fn word_at(bytes: Seq<u8>, i: int) -> u32 {
    (bytes[i] * 0x100_0000 + bytes[i + 1] * 0x1_0000 + bytes[i + 2] * 0x100 + bytes[i + 3]) as u32
}

/// The word `t` of the message schedule of a block of 64 bytes.
pub open spec fn schedule(block: Seq<u8>, t: int) -> u32
    decreases t,
{
    if t < 16 {
        word_at(block, 4 * t)
    } else {
        plus(
            plus(
                plus(small_sigma1(schedule(block, t - 2)), schedule(block, t - 7)),
                small_sigma0(schedule(block, t - 15)),
            ),
            schedule(block, t - 16),
        )
    }
}

/// One round.
pub open spec fn mixed(w: Words, k: u32, m: u32) -> Words {
    let t1 = plus(plus(plus(plus(w.h, big_sigma1(w.e)), choice(w.e, w.f, w.g)), k), m);
    let t2 = plus(big_sigma0(w.a), majority(w.a, w.b, w.c));
    Words { a: plus(t1, t2), b: w.a, c: w.b, d: w.c, e: plus(w.d, t1), f: w.e, g: w.f, h: w.g }
}

/// The first `n` rounds on a block.
pub open spec fn rounds(w: Words, block: Seq<u8>, n: int) -> Words
    decreases n,
{
    if n <= 0 {
        w
    } else {
        mixed(rounds(w, block, n - 1), round_constants()[n - 1], schedule(block, n - 1))
    }
}

/// The words after a block.
#[verifier::opaque]
pub open spec fn compressed(w: Words, block: Seq<u8>) -> Words {
    let r = rounds(w, block, 64);
    Words {
        a: plus(w.a, r.a),
        b: plus(w.b, r.b),
        c: plus(w.c, r.c),
        d: plus(w.d, r.d),
        e: plus(w.e, r.e),
        f: plus(w.f, r.f),
        g: plus(w.g, r.g),
        h: plus(w.h, r.h),
    }
}

/// The number of zero bytes between a message of `len` bytes with its end mark
/// and the eight bytes of its length.
pub open spec fn zeros_needed(len: nat) -> nat {
    ((119 - len % 64) % 64) as nat
}

/// The length of a message in bits, modulo 2^64, as eight bytes.
pub open spec fn length_bytes(len: nat) -> Seq<u8> {
    let n = (8 * len) % 0x1_0000_0000_0000_0000;
    seq![
        (n / 0x100_0000_0000_0000 % 256) as u8,
        (n / 0x1_0000_0000_0000 % 256) as u8,
        (n / 0x100_0000_0000 % 256) as u8,
        (n / 0x1_0000_0000 % 256) as u8,
        (n / 0x100_0000 % 256) as u8,
        (n / 0x1_0000 % 256) as u8,
        (n / 0x100 % 256) as u8,
        (n % 256) as u8,
    ]
}

/// A message with its end mark, zeros and length; whole blocks.
pub open spec fn padded(message: Seq<u8>) -> Seq<u8> {
    message + seq![0x80u8] + Seq::new(zeros_needed(message.len()), |i: int| 0u8) + length_bytes(
        message.len(),
    )
}

/// The words after the first `n` blocks of `bytes`.
pub open spec fn digested(bytes: Seq<u8>, n: int) -> Words
    decreases n,
{
    if n <= 0 {
        initial_words()
    } else {
        compressed(digested(bytes, n - 1), bytes.subrange(64 * (n - 1), 64 * n))
    }
}

/// The digest words of a message.
pub open spec fn digest_of(message: Seq<u8>) -> Words {
    digested(padded(message), (padded(message).len() / 64) as int)
}

/// The digest of a message in hexadecimal.
pub open spec fn hash_of(message: Seq<u8>) -> Seq<char> {
    let w = digest_of(message);
    hex_of(w.a as nat, 8) + hex_of(w.b as nat, 8) + hex_of(w.c as nat, 8) + hex_of(w.d as nat, 8)
        + hex_of(w.e as nat, 8) + hex_of(w.f as nat, 8) + hex_of(w.g as nat, 8) + hex_of(
        w.h as nat,
        8,
    )
}

proof fn hex_has_its_width(n: nat, width: nat)
    ensures
        hex_of(n, width).len() == width,
    decreases width,
{
    if width > 0 {
        hex_has_its_width(n / 16, (width - 1) as nat);
    }
}

/// A digest is always 64 digits long.
pub proof fn digests_have_64_digits(message: Seq<u8>)
    ensures
        hash_of(message).len() == 64,
{
    let w = digest_of(message);
    hex_has_its_width(w.a as nat, 8);
    hex_has_its_width(w.b as nat, 8);
    hex_has_its_width(w.c as nat, 8);
    hex_has_its_width(w.d as nat, 8);
    hex_has_its_width(w.e as nat, 8);
    hex_has_its_width(w.f as nat, 8);
    hex_has_its_width(w.g as nat, 8);
    hex_has_its_width(w.h as nat, 8);
}

fn add32(a: u32, b: u32) -> (r: u32)
    ensures
        r == plus(a, b),
{
    ((a as u64 + b as u64) % 0x1_0000_0000) as u32
}

fn rotate(x: u32, n: u32) -> (r: u32)
    requires
        0 < n < 32,
    ensures
        r == rotated(x, n),
{
    (x >> n) | (x << (32 - n))
}

fn round(w: Words, k: u32, m: u32) -> (r: Words)
    ensures
        r == mixed(w, k, m),
{
    let s1 = rotate(w.e, 6) ^ rotate(w.e, 11) ^ rotate(w.e, 25);
    let ch = (w.e & w.f) ^ (!w.e & w.g);
    let t1 = add32(add32(add32(add32(w.h, s1), ch), k), m);
    let s0 = rotate(w.a, 2) ^ rotate(w.a, 13) ^ rotate(w.a, 22);
    let maj = (w.a & w.b) ^ (w.a & w.c) ^ (w.b & w.c);
    let t2 = add32(s0, maj);
    Words { a: add32(t1, t2), b: w.a, c: w.b, d: w.c, e: add32(w.d, t1), f: w.e, g: w.f, h: w.g }
}

fn constants() -> (k: [u32; 64])
    ensures
        k@ == round_constants(),
{
    let k: [u32; 64] = [
        0x428a2f98, 0x71374491, 0xb5c0fbcf, 0xe9b5dba5, 0x3956c25b, 0x59f111f1, 0x923f82a4,
        0xab1c5ed5, 0xd807aa98, 0x12835b01, 0x243185be, 0x550c7dc3, 0x72be5d74, 0x80deb1fe,
        0x9bdc06a7, 0xc19bf174, 0xe49b69c1, 0xefbe4786, 0x0fc19dc6, 0x240ca1cc, 0x2de92c6f,
        0x4a7484aa, 0x5cb0a9dc, 0x76f988da, 0x983e5152, 0xa831c66d, 0xb00327c8, 0xbf597fc7,
        0xc6e00bf3, 0xd5a79147, 0x06ca6351, 0x14292967, 0x27b70a85, 0x2e1b2138, 0x4d2c6dfc,
        0x53380d13, 0x650a7354, 0x766a0abb, 0x81c2c92e, 0x92722c85, 0xa2bfe8a1, 0xa81a664b,
        0xc24b8b70, 0xc76c51a3, 0xd192e819, 0xd6990624, 0xf40e3585, 0x106aa070, 0x19a4c116,
        0x1e376c08, 0x2748774c, 0x34b0bcb5, 0x391c0cb3, 0x4ed8aa4a, 0x5b9cca4f, 0x682e6ff3,
        0x748f82ee, 0x78a5636f, 0x84c87814, 0x8cc70208, 0x90befffa, 0xa4506ceb, 0xbef9a3f7,
        0xc67178f2,
    ];
    assert(k@ =~= round_constants());
    k
}

fn read_word(bytes: &[u8], i: usize) -> (r: u32)
    requires
        i + 4 <= bytes@.len(),
    ensures
        r == word_at(bytes@, i as int),
{
    bytes[i] as u32 * 0x100_0000 + bytes[i + 1] as u32 * 0x1_0000 + bytes[i + 2] as u32 * 0x100
        + bytes[i + 3] as u32
}

fn make_schedule(block: &[u8]) -> (out: Vec<u32>)
    requires
        block@.len() == 64,
    ensures
        out@.len() == 64,
        forall|t: int| 0 <= t < 64 ==> (#[trigger] out@[t]) == schedule(block@, t),
{
    let mut out: Vec<u32> = Vec::new();
    for t in 0..16
        invariant
            block@.len() == 64,
            out@.len() == t,
            forall|j: int| 0 <= j < t ==> (#[trigger] out@[j]) == schedule(block@, j),
    {
        out.push(read_word(block, 4 * t));
    }
    for t in 16..64
        invariant
            out@.len() == t,
            forall|j: int| 0 <= j < t ==> (#[trigger] out@[j]) == schedule(block@, j),
    {
        let x = out[t - 2];
        let y = out[t - 15];
        let s1 = rotate(x, 17) ^ rotate(x, 19) ^ (x >> 10);
        let s0 = rotate(y, 7) ^ rotate(y, 18) ^ (y >> 3);
        let next = add32(add32(add32(s1, out[t - 7]), s0), out[t - 16]);
        out.push(next);
    }
    out
}

fn compress(w: Words, block: &[u8]) -> (r: Words)
    requires
        block@.len() == 64,
    ensures
        r == compressed(w, block@),
{
    reveal(compressed);
    let m = make_schedule(block);
    let k = constants();
    let mut x = w;
    for t in 0..64
        invariant
            block@.len() == 64,
            m@.len() == 64,
            forall|j: int| 0 <= j < 64 ==> (#[trigger] m@[j]) == schedule(block@, j),
            k@ == round_constants(),
            x == rounds(w, block@, t as int),
    {
        assert(m@[t as int] == schedule(block@, t as int));
        x = round(x, k[t], m[t]);
    }
    Words {
        a: add32(w.a, x.a),
        b: add32(w.b, x.b),
        c: add32(w.c, x.c),
        d: add32(w.d, x.d),
        e: add32(w.e, x.e),
        f: add32(w.f, x.f),
        g: add32(w.g, x.g),
        h: add32(w.h, x.h),
    }
}

fn push_length(out: &mut Vec<u8>, len: usize)
    ensures
        final(out)@ == old(out)@ + length_bytes(len as nat),
{
    let ghost before = out@;
    let wide: u128 = 8 * (len as u128);
    let n: u64 = (wide % 0x1_0000_0000_0000_0000) as u64;
    out.push((n / 0x100_0000_0000_0000 % 256) as u8);
    out.push((n / 0x1_0000_0000_0000 % 256) as u8);
    out.push((n / 0x100_0000_0000 % 256) as u8);
    out.push((n / 0x1_0000_0000 % 256) as u8);
    out.push((n / 0x100_0000 % 256) as u8);
    out.push((n / 0x1_0000 % 256) as u8);
    out.push((n / 0x100 % 256) as u8);
    out.push((n % 256) as u8);
    assert(out@ =~= before + length_bytes(len as nat));
}

fn pad(message: &[u8]) -> (out: Vec<u8>)
    ensures
        out@ == padded(message@),
{
    let len = message.len();
    let zeros: usize = (119 - len % 64) % 64;
    let mut out = vstd::slice::slice_to_vec(message);
    out.push(0x80);
    let ghost marked = out@;
    assert(marked =~= message@ + seq![0x80u8]);
    for i in 0..zeros
        invariant
            out@ =~= marked + Seq::new(i as nat, |j: int| 0u8),
    {
        out.push(0);
    }
    push_length(&mut out, len);
    out
}

/// The digest of bytes in lower-case hexadecimal.
pub fn hash_hex(bytes: &[u8]) -> (out: String)
    ensures
        out@ == hash_of(bytes@),
{
    let all = pad(bytes);
    let total: usize = all.len();
    let n: usize = total / 64;
    let mut w = Words {
        a: 0x6a09e667,
        b: 0xbb67ae85,
        c: 0x3c6ef372,
        d: 0xa54ff53a,
        e: 0x510e527f,
        f: 0x9b05688c,
        g: 0x1f83d9ab,
        h: 0x5be0cd19,
    };
    for i in 0..n
        invariant
            total == all@.len(),
            n == total / 64,
            w == digested(all@, i as int),
    {
        assert(64 * (i as int) + 64 <= total);
        let block = slice_subrange(all.as_slice(), 64 * i, 64 * i + 64);
        w = compress(w, block);
    }
    let mut out = String::new();
    push_hex(&mut out, w.a as u64, 8);
    push_hex(&mut out, w.b as u64, 8);
    push_hex(&mut out, w.c as u64, 8);
    push_hex(&mut out, w.d as u64, 8);
    push_hex(&mut out, w.e as u64, 8);
    push_hex(&mut out, w.f as u64, 8);
    push_hex(&mut out, w.g as u64, 8);
    push_hex(&mut out, w.h as u64, 8);
    assert(out@ =~= hash_of(bytes@));
    out
}

} // verus!

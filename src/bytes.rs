//! Big-endian integers read from fixed positions of a byte sequence, and a
//! most-significant-bit-first view of the same bytes as a bit string.

use vstd::arithmetic::power2::{lemma2_to64, lemma2_to64_rest, lemma_pow2_strictly_increases, pow2};
use vstd::prelude::*;

verus! {

/// The unsigned integer held by the two bytes at `p`, most significant first.
pub open spec fn be_u16(s: Seq<u8>, p: int) -> int {
    s[p] * 256 + s[p + 1]
}

/// The unsigned integer held by the four bytes at `p`, most significant first.
pub open spec fn be_u32(s: Seq<u8>, p: int) -> int {
    be_u16(s, p) * 65536 + be_u16(s, p + 2)
}

/// The unsigned integer held by the eight bytes at `p`, most significant first.
pub open spec fn be_u64(s: Seq<u8>, p: int) -> int {
    be_u32(s, p) * 4294967296 + be_u32(s, p + 4)
}

/// Reinterprets an unsigned value of `width` bits as two's complement.
pub open spec fn signed(u: int, width: nat) -> int {
    if u >= pow2((width - 1) as nat) {
        u - pow2(width)
    } else {
        u
    }
}

/// Bit `k` of the sequence, counting from the most significant bit of byte 0.
pub open spec fn bit_at(s: Seq<u8>, k: int) -> bool {
    (s[k / 8] >> ((7 - k % 8) as u8)) & 1u8 == 1u8
}

/// The unsigned integer held by the `n` bits starting at bit `k`, most
/// significant first.
pub open spec fn bits_value(s: Seq<u8>, k: int, n: nat) -> int
    decreases n,
{
    if n == 0 {
        0
    } else {
        2 * bits_value(s, k, (n - 1) as nat) + if bit_at(s, k + n - 1) {
            1int
        } else {
            0int
        }
    }
}

pub proof fn lemma_bits_value_bound(s: Seq<u8>, k: int, n: nat)
    ensures
        0 <= bits_value(s, k, n) < pow2(n),
    decreases n,
{
    if n > 0 {
        lemma_bits_value_bound(s, k, (n - 1) as nat);
        vstd::arithmetic::power2::lemma_pow2_unfold(n);
    } else {
        lemma2_to64();
    }
}

pub fn read_u16(data: &[u8], p: usize) -> (r: u16)
    requires
        p + 2 <= data@.len(),
    ensures
        r == be_u16(data@, p as int),
{
    let _len = data.len();
    (data[p] as u16) * 256 + data[p + 1] as u16
}

pub fn read_u32(data: &[u8], p: usize) -> (r: u32)
    requires
        p + 4 <= data@.len(),
    ensures
        r == be_u32(data@, p as int),
{
    let _len = data.len();
    let hi = read_u16(data, p);
    let lo = read_u16(data, p + 2);
    (hi as u32) * 65536 + lo as u32
}

pub fn read_u64(data: &[u8], p: usize) -> (r: u64)
    requires
        p + 8 <= data@.len(),
    ensures
        r == be_u64(data@, p as int),
{
    let _len = data.len();
    let hi = read_u32(data, p);
    let lo = read_u32(data, p + 4);
    (hi as u64) * 4294967296 + lo as u64
}

pub fn read_i8(data: &[u8], p: usize) -> (r: i8)
    requires
        p < data@.len(),
    ensures
        r == signed(data@[p as int] as int, 8),
{
    proof {
        lemma2_to64();
    }
    let u = data[p];
    if u >= 128 {
        (u as i16 - 256) as i8
    } else {
        u as i8
    }
}

pub fn read_i16(data: &[u8], p: usize) -> (r: i16)
    requires
        p + 2 <= data@.len(),
    ensures
        r == signed(be_u16(data@, p as int), 16),
{
    proof {
        lemma2_to64();
    }
    let u = read_u16(data, p);
    if u >= 32768 {
        (u as i32 - 65536) as i16
    } else {
        u as i16
    }
}

pub fn read_i32(data: &[u8], p: usize) -> (r: i32)
    requires
        p + 4 <= data@.len(),
    ensures
        r == signed(be_u32(data@, p as int), 32),
{
    proof {
        lemma2_to64();
    }
    let u = read_u32(data, p);
    if u >= 0x8000_0000 {
        (u as i64 - 0x1_0000_0000) as i32
    } else {
        u as i32
    }
}

pub fn read_i64(data: &[u8], p: usize) -> (r: i64)
    requires
        p + 8 <= data@.len(),
    ensures
        r == signed(be_u64(data@, p as int), 64),
{
    proof {
        lemma2_to64();
        lemma2_to64_rest();
    }
    let u = read_u64(data, p);
    if u >= 0x8000_0000_0000_0000 {
        ((u - 0x8000_0000_0000_0000) as i64) + i64::MIN
    } else {
        u as i64
    }
}

/// Reads bit `8 * byte + off`.
pub fn read_bit(data: &[u8], byte: usize, off: u8) -> (r: bool)
    requires
        byte < data@.len(),
        off < 8,
    ensures
        r == bit_at(data@, byte * 8 + off),
{
    assert((byte * 8 + off) / 8 == byte && (byte * 8 + off) % 8 == off) by (nonlinear_arith)
        requires
            off < 8,
    ;
    (data[byte] >> (7 - off)) & 1 == 1
}

/// Reads `n` bits starting at bit `8 * byte + off`; returns the value and the
/// position just past them.
pub fn read_bits(data: &[u8], byte: usize, off: u8, n: u8) -> (r: (u64, usize, u8))
    requires
        off < 8,
        n <= 64,
        byte * 8 + off + n <= data@.len() * 8,
    ensures
        r.0 == bits_value(data@, byte * 8 + off, n as nat),
        r.2 < 8,
        r.1 * 8 + r.2 == byte * 8 + off + n,
{
    let len = data.len();
    let mut acc: u64 = 0;
    let mut b: usize = byte;
    let mut o: u8 = off;
    let mut j: u8 = 0;
    proof {
        lemma2_to64();
    }
    while j < n
        invariant
            j <= n,
            n <= 64,
            len == data@.len(),
            o < 8,
            b * 8 + o == byte * 8 + off + j,
            byte * 8 + off + n <= data@.len() * 8,
            acc == bits_value(data@, byte * 8 + off, j as nat),
        decreases n - j,
    {
        proof {
            lemma_bits_value_bound(data@, byte * 8 + off, j as nat);
            lemma2_to64();
            lemma2_to64_rest();
            if j < 63 {
                lemma_pow2_strictly_increases(j as nat, 63);
            }
        }
        let bit = read_bit(data, b, o);
        acc = acc * 2 + if bit { 1 } else { 0 };
        j = j + 1;
        if o == 7 {
            o = 0;
            b = b + 1;
        } else {
            o = o + 1;
        }
    }
    (acc, b, o)
}

} // verus!

//! The compact-tree format, stated as a parser over byte sequences.
//!
//! Every function here reads from position `p` of the whole input `s` and
//! returns what it read together with the position just past it.

use crate::bytes::{be_u16, be_u32, be_u64, bit_at, bits_value, signed};
use crate::text::java_cesu8_decoded;
use crate::value::{Number, SpecValue};
use vstd::prelude::*;

verus! {

/// The framing convention that a document declares in its first two bytes.
#[derive(Clone, Copy, Debug, PartialEq, Eq, Structural)]
pub enum Version {
    Ver0,
    Ver1,
}

/// The kind of payload that follows a tag byte.
#[derive(Clone, Copy, Debug, PartialEq, Eq, Structural)]
pub enum TypeTag {
    Object,
    Str,
    Int32,
    Float32,
    Bool,
    Int64,
    Float64,
    List,
    Int8,
    Int16,
    NumberList,
}

/// Why a document could not be decoded.
#[derive(Clone, Copy, Debug, PartialEq, Eq, Structural)]
pub enum DecodeError {
    /// A read went past the end of the input.
    Truncated,
    /// The version field held neither 0 nor 1.
    UnknownVersion(u16),
    /// A tag byte named no payload kind.
    UnknownTypeTag(u8),
    /// A zero tag byte where a value must follow.
    MisplacedTerminator,
    /// A string or a homogeneous array declared a negative length.
    NegativeLength,
    /// String bytes were not valid modified UTF-8.
    InvalidStringEncoding,
    /// A floating-point payload was an infinity or a NaN.
    NonFiniteFloat,
    /// A number list appeared in a version 0 document.
    UnsupportedInVersion,
}

pub type Parsed<T> = Result<(T, int), DecodeError>;

pub type Entries = Seq<(Seq<char>, SpecValue)>;

/// The payload kind that a nonzero tag byte names.
pub open spec fn tag_of(b: u8) -> Option<TypeTag> {
    match b {
        1 => Some(TypeTag::Object),
        2 => Some(TypeTag::Str),
        3 => Some(TypeTag::Int32),
        4 => Some(TypeTag::Float32),
        5 => Some(TypeTag::Bool),
        6 => Some(TypeTag::Int64),
        7 => Some(TypeTag::Float64),
        9 => Some(TypeTag::List),
        10 => Some(TypeTag::Int8),
        11 => Some(TypeTag::Int16),
        12 => Some(TypeTag::NumberList),
        _ => None,
    }
}

/// A binary32 bit pattern is finite unless its exponent field is all ones.
pub open spec fn f32_finite(bits: u32) -> bool {
    (bits >> 23u32) & 0xffu32 != 0xffu32
}

/// A binary64 bit pattern is finite unless its exponent field is all ones.
pub open spec fn f64_finite(bits: u64) -> bool {
    (bits >> 52u64) & 0x7ffu64 != 0x7ffu64
}

/// Keys are pairwise distinct.
pub open spec fn keys_distinct(es: Entries) -> bool {
    forall|i: int, j: int| 0 <= i < j < es.len() ==> es[i].0 != es[j].0
}

/// Adds an entry to an object: a key already present keeps its place and
/// takes the new value; a new key goes last.
pub open spec fn insert_entry(es: Entries, k: Seq<char>, v: SpecValue) -> Entries {
    if exists|i: int| 0 <= i < es.len() && es[i].0 == k {
        es.update(choose|i: int| 0 <= i < es.len() && es[i].0 == k, (k, v))
    } else {
        es.push((k, v))
    }
}

/// Whether a nested read that started at `p` ended inside the input, past `p`.
pub open spec fn advanced(s: Seq<u8>, p: int, e: int) -> bool {
    p < e <= s.len()
}

/// A string: a signed 16-bit length, then that many bytes of modified UTF-8.
#[verifier::opaque]
pub open spec fn parse_string(s: Seq<u8>, p: int) -> Parsed<Seq<char>> {
    if p + 2 > s.len() {
        Err(DecodeError::Truncated)
    } else {
        let n = signed(be_u16(s, p), 16);
        if n < 0 {
            Err(DecodeError::NegativeLength)
        } else if p + 2 + n > s.len() {
            Err(DecodeError::Truncated)
        } else {
            match java_cesu8_decoded(s.subrange(p + 2, p + 2 + n)) {
                Some(t) => Ok((t, p + 2 + n)),
                None => Err(DecodeError::InvalidStringEncoding),
            }
        }
    }
}

/// A fixed-width scalar payload.
#[verifier::opaque]
pub open spec fn parse_scalar(s: Seq<u8>, p: int, tag: TypeTag) -> Parsed<SpecValue> {
    let width: int = match tag {
        TypeTag::Bool | TypeTag::Int8 => 1,
        TypeTag::Int16 => 2,
        TypeTag::Int32 | TypeTag::Float32 => 4,
        _ => 8,
    };
    if p + width > s.len() {
        Err(DecodeError::Truncated)
    } else {
        let e = p + width;
        match tag {
            TypeTag::Bool => Ok((SpecValue::Bool(s[p] != 0), e)),
            TypeTag::Int8 => Ok((SpecValue::Num(Number::Int(signed(s[p] as int, 8) as i64)), e)),
            TypeTag::Int16 => Ok(
                (SpecValue::Num(Number::Int(signed(be_u16(s, p), 16) as i64)), e),
            ),
            TypeTag::Int32 => Ok(
                (SpecValue::Num(Number::Int(signed(be_u32(s, p), 32) as i64)), e),
            ),
            TypeTag::Int64 => Ok(
                (SpecValue::Num(Number::Int(signed(be_u64(s, p), 64) as i64)), e),
            ),
            TypeTag::Float32 => if f32_finite(be_u32(s, p) as u32) {
                Ok((SpecValue::Num(Number::Float32(be_u32(s, p) as u32)), e))
            } else {
                Err(DecodeError::NonFiniteFloat)
            },
            _ => if f64_finite(be_u64(s, p) as u64) {
                Ok((SpecValue::Num(Number::Float64(be_u64(s, p) as u64)), e))
            } else {
                Err(DecodeError::NonFiniteFloat)
            },
        }
    }
}

/// The element count that opens a number list, in one of four size classes
/// chosen by the top two bits of its first byte.
pub open spec fn parse_count(s: Seq<u8>, p: int) -> Parsed<nat> {
    if p >= s.len() {
        Err(DecodeError::Truncated)
    } else {
        let class = s[p] / 64;
        if class == 0 {
            Ok(((s[p] % 64) as nat, p + 1))
        } else if class == 1 {
            if p + 2 > s.len() {
                Err(DecodeError::Truncated)
            } else {
                Ok(((be_u16(s, p) % 0x4000) as nat, p + 2))
            }
        } else if class == 2 {
            if p + 4 > s.len() {
                Err(DecodeError::Truncated)
            } else {
                Ok(((be_u32(s, p) % 0x4000_0000) as nat, p + 4))
            }
        } else if p + 5 > s.len() {
            Err(DecodeError::Truncated)
        } else {
            Ok((be_u32(s, p + 1) as nat, p + 5))
        }
    }
}

/// Element `i` of a bit-packed number list whose elements start at bit `k`
/// and take `width` bits each: a sign bit where `neg`, then the magnitude.
pub open spec fn packed_element(s: Seq<u8>, k: int, neg: bool, digits: nat) -> int {
    if neg {
        let m = bits_value(s, k + 1, digits);
        if bit_at(s, k) {
            -m
        } else {
            m
        }
    } else {
        bits_value(s, k, digits)
    }
}

/// The number of bytes that `bits` bits take, the last one perhaps in part.
pub open spec fn bytes_for_bits(bits: int) -> int {
    (bits + 7) / 8
}

/// A number list: a count, a flags byte, then the elements, either as full
/// 64-bit integers or bit-packed.
#[verifier::opaque]
pub open spec fn parse_number_list(s: Seq<u8>, p: int, ver: Version) -> Parsed<SpecValue> {
    if ver == Version::Ver0 {
        Err(DecodeError::UnsupportedInVersion)
    } else {
        match parse_count(s, p) {
            Err(x) => Err(x),
            Ok((count, q)) => if q >= s.len() {
                Err(DecodeError::Truncated)
            } else {
                let flags = s[q];
                let start = q + 1;
                if flags >= 0x80 {
                    if start + 8 * count > s.len() {
                        Err(DecodeError::Truncated)
                    } else {
                        Ok((SpecValue::Array(raw_elements(s, start, count)), start + 8 * count))
                    }
                } else {
                    let neg = flags >= 0x40;
                    let digits = (flags % 0x40) as nat;
                    let width: int = if neg {
                        digits + 1int
                    } else {
                        digits as int
                    };
                    if digits == 0 {
                        Ok((SpecValue::Array(Seq::new(count, |i: int| SpecValue::Num(Number::Int(0)))), start))
                    } else if start + bytes_for_bits(count * width) > s.len() {
                        Err(DecodeError::Truncated)
                    } else {
                        Ok(
                            (
                                SpecValue::Array(packed_elements(s, start * 8, count, neg, digits)),
                                start + bytes_for_bits(count * width),
                            ),
                        )
                    }
                }
            },
        }
    }
}

/// `count` full 64-bit integers from byte `start` on.
pub open spec fn raw_elements(s: Seq<u8>, start: int, count: nat) -> Seq<SpecValue> {
    Seq::new(
        count,
        |i: int| SpecValue::Num(Number::Int(signed(be_u64(s, start + 8 * i), 64) as i64)),
    )
}

/// `count` bit-packed integers from bit `k` on, each a sign bit where `neg`,
/// then `digits` bits of magnitude.
pub open spec fn packed_elements(s: Seq<u8>, k: int, count: nat, neg: bool, digits: nat) -> Seq<
    SpecValue,
> {
    let width: int = if neg {
        digits + 1int
    } else {
        digits as int
    };
    Seq::new(
        count,
        |i: int| SpecValue::Num(Number::Int(packed_element(s, k + i * width, neg, digits) as i64)),
    )
}

/// The payload of one value of kind `tag`.
pub open spec fn parse_value(s: Seq<u8>, p: int, tag: TypeTag, ver: Version) -> Parsed<SpecValue>
    decreases s.len() - p, 2int,
{
    match tag {
        TypeTag::Object => match parse_entries(s, p, ver, Seq::empty()) {
            Ok((es, e)) => Ok((SpecValue::Object(es), e)),
            Err(x) => Err(x),
        },
        TypeTag::Str => match parse_string(s, p) {
            Ok((t, e)) => Ok((SpecValue::Str(t), e)),
            Err(x) => Err(x),
        },
        TypeTag::List => parse_list(s, p, ver),
        TypeTag::NumberList => parse_number_list(s, p, ver),
        _ => parse_scalar(s, p, tag),
    }
}

/// The entries of an object up to its zero terminator, added to `acc`.
/// Version 0 writes each entry as tag, key, value; version 1 as tag, value, key.
pub open spec fn parse_entries(s: Seq<u8>, p: int, ver: Version, acc: Entries) -> Parsed<Entries>
    decreases s.len() - p, 0int,
{
    if p >= s.len() {
        Err(DecodeError::Truncated)
    } else if s[p] == 0 {
        Ok((acc, p + 1))
    } else {
        match tag_of(s[p]) {
            None => Err(DecodeError::UnknownTypeTag(s[p])),
            Some(tag) => if ver == Version::Ver0 {
                match parse_string(s, p + 1) {
                    Err(x) => Err(x),
                    Ok((k, e1)) => if advanced(s, p, e1) {
                        match parse_value(s, e1, tag, ver) {
                            Err(x) => Err(x),
                            Ok((v, e2)) => if advanced(s, p, e2) {
                                parse_entries(s, e2, ver, insert_entry(acc, k, v))
                            } else {
                                Err(DecodeError::Truncated)
                            },
                        }
                    } else {
                        Err(DecodeError::Truncated)
                    },
                }
            } else {
                match parse_value(s, p + 1, tag, ver) {
                    Err(x) => Err(x),
                    Ok((v, e1)) => if advanced(s, p, e1) {
                        match parse_string(s, e1) {
                            Err(x) => Err(x),
                            Ok((k, e2)) => if advanced(s, p, e2) {
                                parse_entries(s, e2, ver, insert_entry(acc, k, v))
                            } else {
                                Err(DecodeError::Truncated)
                            },
                        }
                    } else {
                        Err(DecodeError::Truncated)
                    },
                }
            },
        }
    }
}

/// A list. Version 0 always writes the tagged form; version 1 first writes a
/// selector: 0 for empty, 1 for a counted list of one kind, else the tagged form.
pub open spec fn parse_list(s: Seq<u8>, p: int, ver: Version) -> Parsed<SpecValue>
    decreases s.len() - p, 1int,
{
    if ver == Version::Ver0 {
        parse_tagged_items(s, p, ver, Seq::empty())
    } else if p >= s.len() {
        Err(DecodeError::Truncated)
    } else if s[p] == 0 {
        Ok((SpecValue::Array(Seq::empty()), p + 1))
    } else if s[p] == 1 {
        if p + 5 > s.len() {
            Err(DecodeError::Truncated)
        } else if signed(be_u32(s, p + 1), 32) < 0 {
            Err(DecodeError::NegativeLength)
        } else if p + 5 >= s.len() {
            Err(DecodeError::Truncated)
        } else if s[p + 5] == 0 {
            Err(DecodeError::MisplacedTerminator)
        } else {
            match tag_of(s[p + 5]) {
                None => Err(DecodeError::UnknownTypeTag(s[p + 5])),
                Some(tag) => parse_counted_items(
                    s,
                    p + 6,
                    tag,
                    ver,
                    signed(be_u32(s, p + 1), 32) as nat,
                    Seq::empty(),
                ),
            }
        }
    } else {
        parse_tagged_items(s, p + 1, ver, Seq::empty())
    }
}

/// `n` more values of one kind, appended to `acc`.
pub open spec fn parse_counted_items(
    s: Seq<u8>,
    p: int,
    tag: TypeTag,
    ver: Version,
    n: nat,
    acc: Seq<SpecValue>,
) -> Parsed<SpecValue>
    decreases s.len() - p, 3int,
{
    if n == 0 {
        Ok((SpecValue::Array(acc), p))
    } else {
        match parse_value(s, p, tag, ver) {
            Err(x) => Err(x),
            Ok((v, e)) => if advanced(s, p, e) {
                parse_counted_items(s, e, tag, ver, (n - 1) as nat, acc.push(v))
            } else {
                Err(DecodeError::Truncated)
            },
        }
    }
}

/// Tagged values up to a zero tag, appended to `acc`.
pub open spec fn parse_tagged_items(s: Seq<u8>, p: int, ver: Version, acc: Seq<SpecValue>) -> Parsed<
    SpecValue,
>
    decreases s.len() - p, 0int,
{
    if p >= s.len() {
        Err(DecodeError::Truncated)
    } else if s[p] == 0 {
        Ok((SpecValue::Array(acc), p + 1))
    } else {
        match tag_of(s[p]) {
            None => Err(DecodeError::UnknownTypeTag(s[p])),
            Some(tag) => match parse_value(s, p + 1, tag, ver) {
                Err(x) => Err(x),
                Ok((v, e)) => if advanced(s, p, e) {
                    parse_tagged_items(s, e, ver, acc.push(v))
                } else {
                    Err(DecodeError::Truncated)
                },
            },
        }
    }
}

/// A whole document: a 16-bit version, then the root object's entries.
pub open spec fn parse_document(s: Seq<u8>) -> Parsed<SpecValue> {
    if s.len() < 2 {
        Err(DecodeError::Truncated)
    } else if be_u16(s, 0) > 1 {
        Err(DecodeError::UnknownVersion(be_u16(s, 0) as u16))
    } else {
        let ver = if be_u16(s, 0) == 0 {
            Version::Ver0
        } else {
            Version::Ver1
        };
        match parse_entries(s, 2, ver, Seq::empty()) {
            Ok((es, e)) => Ok((SpecValue::Object(es), e)),
            Err(x) => Err(x),
        }
    }
}

/// A string whose declared length is negative is refused as such, whatever
/// follows the length field, and even when nothing follows it.
pub proof fn lemma_negative_string_length(s: Seq<u8>, p: int)
    requires
        0 <= p,
        p + 2 <= s.len(),
        signed(be_u16(s, p), 16) < 0,
    ensures
        parse_string(s, p) == Err::<(Seq<char>, int), DecodeError>(DecodeError::NegativeLength),
{
    reveal(parse_string);
}

/// A counted list whose declared count is negative is refused as such,
/// whatever follows the count, and even when nothing follows it.
pub proof fn lemma_negative_list_length(s: Seq<u8>, p: int)
    requires
        0 <= p,
        p + 5 <= s.len(),
        s[p] == 1,
        signed(be_u32(s, p + 1), 32) < 0,
    ensures
        parse_list(s, p, Version::Ver1) == Err::<(SpecValue, int), DecodeError>(
            DecodeError::NegativeLength,
        ),
{
}

} // verus!

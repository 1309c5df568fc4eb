//! Decoding of documents, proved to follow the parser stated in `wire`.

use crate::bytes::{
    bits_value,
    lemma_bits_value_bound,
    read_bits,
    read_i16,
    read_i32,
    read_i64,
    read_i8,
    read_u16,
    read_u32,
    read_u64,
};
use crate::text::decode_java_cesu8;
use crate::value::{
    entries_view,
    lemma_array_view,
    lemma_object_view,
    views,
    Number,
    SpecValue,
    Value,
};
use crate::wire::{
    advanced,
    insert_entry,
    keys_distinct,
    parse_count,
    parse_counted_items,
    parse_document,
    parse_entries,
    parse_list,
    parse_number_list,
    parse_scalar,
    parse_string,
    parse_tagged_items,
    parse_value,
    packed_element,
    packed_elements,
    raw_elements,
    tag_of,
    DecodeError,
    Parsed,
    TypeTag,
    Version,
};
use vstd::arithmetic::power2::{lemma2_to64, lemma2_to64_rest, lemma_pow2_strictly_increases};
use vstd::prelude::*;

verus! {

/// `r` is what the parser `sp` gives: the same value, ending at the same place,
/// or the same error.
pub open spec fn agrees(r: Result<(Value, usize), DecodeError>, sp: Parsed<SpecValue>) -> bool {
    match r {
        Ok((v, e)) => sp == Ok::<_, DecodeError>((v@, e as int)),
        Err(x) => sp == Err::<(SpecValue, int), DecodeError>(x),
    }
}

/// A successful read that started at `p` ended past `p` and inside `s`.
pub open spec fn progressed<T>(s: Seq<u8>, p: int, r: Result<(T, usize), DecodeError>) -> bool {
    r is Ok ==> advanced(s, p, r->Ok_0.1 as int)
}

/// The payload kind that a nonzero tag byte names.
pub fn tag_from_byte(b: u8) -> (r: Option<TypeTag>)
    ensures
        r == tag_of(b),
{
    match b {
        1 => Some(TypeTag::Object),
        2 => Some(TypeTag::Str),
        3 => Some(TypeTag::Int32),
        4 => Some(TypeTag::Float32),
        5 => Some(TypeTag::Bool),
        6 => Some(TypeTag::Int64),
        7 => Some(TypeTag::Float64),
        9 => Some(TypeTag::List),
        10 => Some(TypeTag::Int8),
        11 => Some(TypeTag::Int16),
        12 => Some(TypeTag::NumberList),
        _ => None,
    }
}

/// Reads a length-prefixed modified UTF-8 string at `p`.
pub fn read_string(data: &[u8], p: usize) -> (r: Result<(String, usize), DecodeError>)
    ensures
        match r {
            Ok((t, e)) => parse_string(data@, p as int) == Ok::<_, DecodeError>((t@, e as int)),
            Err(x) => parse_string(data@, p as int) == Err::<(Seq<char>, int), DecodeError>(x),
        },
        progressed(data@, p as int, r),
{
    proof {
        reveal(parse_string);
    }
    let len = data.len();
    if p > len || len - p < 2 {
        return Err(DecodeError::Truncated);
    }
    let n = read_i16(data, p);
    if n < 0 {
        return Err(DecodeError::NegativeLength);
    }
    let n = n as usize;
    if len - p - 2 < n {
        return Err(DecodeError::Truncated);
    }
    let bytes = &data[p + 2..p + 2 + n];
    match decode_java_cesu8(bytes) {
        Some(t) => Ok((t, p + 2 + n)),
        None => Err(DecodeError::InvalidStringEncoding),
    }
}

/// Reads a fixed-width scalar payload at `p`.
fn decode_scalar(data: &[u8], p: usize, tag: TypeTag) -> (r: Result<(Value, usize), DecodeError>)
    requires
        !(tag is Object || tag is Str || tag is List || tag is NumberList),
    ensures
        agrees(r, parse_scalar(data@, p as int, tag)),
        progressed(data@, p as int, r),
{
    proof {
        reveal(parse_scalar);
    }
    let len = data.len();
    let width: usize = match tag {
        TypeTag::Bool | TypeTag::Int8 => 1,
        TypeTag::Int16 => 2,
        TypeTag::Int32 | TypeTag::Float32 => 4,
        _ => 8,
    };
    if p > len || len - p < width {
        return Err(DecodeError::Truncated);
    }
    let e = p + width;
    match tag {
        TypeTag::Bool => Ok((Value::Bool(data[p] != 0), e)),
        TypeTag::Int8 => Ok((Value::Num(Number::Int(read_i8(data, p) as i64)), e)),
        TypeTag::Int16 => Ok((Value::Num(Number::Int(read_i16(data, p) as i64)), e)),
        TypeTag::Int32 => Ok((Value::Num(Number::Int(read_i32(data, p) as i64)), e)),
        TypeTag::Int64 => Ok((Value::Num(Number::Int(read_i64(data, p))), e)),
        TypeTag::Float32 => {
            let bits = read_u32(data, p);
            if (bits >> 23u32) & 0xffu32 != 0xffu32 {
                Ok((Value::Num(Number::Float32(bits)), e))
            } else {
                Err(DecodeError::NonFiniteFloat)
            }
        },
        _ => {
            let bits = read_u64(data, p);
            if (bits >> 52u64) & 0x7ffu64 != 0x7ffu64 {
                Ok((Value::Num(Number::Float64(bits)), e))
            } else {
                Err(DecodeError::NonFiniteFloat)
            }
        },
    }
}

/// Reads the size-classed element count of a number list at `p`.
fn decode_count(data: &[u8], p: usize) -> (r: Result<(u64, usize), DecodeError>)
    ensures
        match r {
            Ok((c, e)) => parse_count(data@, p as int) == Ok::<_, DecodeError>((c as nat, e as int)),
            Err(x) => parse_count(data@, p as int) == Err::<(nat, int), DecodeError>(x),
        },
        progressed(data@, p as int, r),
        r is Ok ==> r->Ok_0.0 <= u32::MAX,
{
    let len = data.len();
    if p >= len {
        return Err(DecodeError::Truncated);
    }
    let b = data[p];
    let class = b / 64;
    if class == 0 {
        Ok(((b % 64) as u64, p + 1))
    } else if class == 1 {
        if len - p < 2 {
            Err(DecodeError::Truncated)
        } else {
            Ok(((read_u16(data, p) % 0x4000) as u64, p + 2))
        }
    } else if class == 2 {
        if len - p < 4 {
            Err(DecodeError::Truncated)
        } else {
            Ok(((read_u32(data, p) % 0x4000_0000) as u64, p + 4))
        }
    } else if len - p < 5 {
        Err(DecodeError::Truncated)
    } else {
        Ok((read_u32(data, p + 1) as u64, p + 5))
    }
}

/// Reads a number list at `p`.
fn decode_number_list(data: &[u8], p: usize, ver: Version) -> (r: Result<(Value, usize), DecodeError>)
    ensures
        agrees(r, parse_number_list(data@, p as int, ver)),
        progressed(data@, p as int, r),
{
    proof {
        reveal(parse_number_list);
    }
    if ver == Version::Ver0 {
        return Err(DecodeError::UnsupportedInVersion);
    }
    let len = data.len();
    let (count, q) = match decode_count(data, p) {
        Ok(c) => c,
        Err(x) => {
            return Err(x);
        },
    };
    if q >= len {
        return Err(DecodeError::Truncated);
    }
    let flags = data[q];
    let start = q + 1;
    let ghost s = data@;
    let mut items: Vec<Value> = Vec::new();
    if flags >= 0x80 {
        let room = (len - start) / 8;
        assert(count > room <==> start + 8 * count > len) by (nonlinear_arith)
            requires
                room == (len - start) / 8,
                start <= len,
        ;
        if count > room as u64 {
            return Err(DecodeError::Truncated);
        }
        let ghost f = raw_elements(s, start as int, count as nat);
        let mut i: u64 = 0;
        let mut at: usize = start;
        while i < count
            invariant
                s == data@,
                len == s.len(),
                i <= count,
                start + 8 * count <= len,
                at == start + 8 * i,
                items@.len() == i,
                f == raw_elements(s, start as int, count as nat),
                forall|j: int| 0 <= j < i ==> #[trigger] items@[j]@ == f[j],
            decreases count - i,
        {
            let ghost before = items@;
            let x = read_i64(data, at);
            items.push(Value::Num(Number::Int(x)));
            assert(items@[i as int]@ == SpecValue::Num(Number::Int(x)));
            assert forall|j: int| 0 <= j < i + 1 implies #[trigger] items@[j]@ == f[j] by {
                if j < i {
                    assert(items@[j] == before[j]);
                } else {
                    assert(f[j] == SpecValue::Num(Number::Int(x)));
                }
            }
            at = at + 8;
            i = i + 1;
        }
        proof {
            lemma_array_view(items);
            assert(views(items@) =~= f);
        }
        return Ok((Value::Array(items), at));
    }
    let neg = flags >= 0x40;
    let digits: u8 = flags % 0x40;
    if digits == 0 {
        let mut i: u64 = 0;
        while i < count
            invariant
                i <= count,
                items@.len() == i,
                forall|j: int| 0 <= j < i ==> #[trigger] items@[j]@ == SpecValue::Num(Number::Int(0)),
            decreases count - i,
        {
            items.push(Value::Num(Number::Int(0)));
            i = i + 1;
        }
        proof {
            lemma_array_view(items);
            assert(views(items@) =~= Seq::new(
                count as nat,
                |i: int| SpecValue::Num(Number::Int(0)),
            ));
        }
        return Ok((Value::Array(items), start));
    }
    let width: u64 = if neg {
        digits as u64 + 1
    } else {
        digits as u64
    };
    assert(count * width <= 0xffff_ffff * 64) by (nonlinear_arith)
        requires
            count <= 0xffff_ffff,
            width <= 64,
    ;
    let total = count * width;
    let need = (total + 7) / 8;
    if need > (len - start) as u64 {
        return Err(DecodeError::Truncated);
    }
    assert(total <= 8 * need) by (nonlinear_arith)
        requires
            need == (total + 7) / 8,
    ;
    let ghost f = packed_elements(s, start * 8, count as nat, neg, digits as nat);
    let mut b: usize = start;
    let mut o: u8 = 0;
    let mut i: u64 = 0;
    while i < count
        invariant
            s == data@,
            len == s.len(),
            1 <= digits < 64,
            width == if neg { digits + 1 } else { digits as int },
            i <= count,
            o < 8,
            b * 8 + o == start * 8 + i * width,
            start * 8 + count * width <= len * 8,
            items@.len() == i,
            f == packed_elements(s, start * 8, count as nat, neg, digits as nat),
            forall|j: int| 0 <= j < i ==> #[trigger] items@[j]@ == f[j],
        decreases count - i,
    {
        assert(i * width + width <= count * width) by (nonlinear_arith)
            requires
                i < count,
        ;
        let ghost k = b * 8 + o;
        let mut sign = false;
        if neg {
            let (v, b2, o2) = read_bits(data, b, o, 1);
            proof {
                reveal_with_fuel(bits_value, 2);
            }
            sign = v == 1;
            b = b2;
            o = o2;
        }
        let (m, b2, o2) = read_bits(data, b, o, digits);
        b = b2;
        o = o2;
        proof {
            lemma_bits_value_bound(s, k + if neg { 1int } else { 0int }, digits as nat);
            lemma2_to64();
            lemma2_to64_rest();
            if digits < 63 {
                lemma_pow2_strictly_increases(digits as nat, 63);
            }
        }
        let x: i64 = if sign {
            -(m as i64)
        } else {
            m as i64
        };
        let ghost before = items@;
        items.push(Value::Num(Number::Int(x)));
        assert(items@[i as int]@ == SpecValue::Num(Number::Int(x)));
        assert(x == packed_element(s, k, neg, digits as nat));
        assert forall|j: int| 0 <= j < i + 1 implies #[trigger] items@[j]@ == f[j] by {
            if j < i {
                assert(items@[j] == before[j]);
            } else {
                assert(f[j] == SpecValue::Num(Number::Int(x)));
            }
        }
        assert((i + 1) * width == i * width + width) by (nonlinear_arith);
        i = i + 1;
    }
    proof {
        lemma_array_view(items);
        assert(views(items@) =~= f);
    }
    let e = if o == 0 {
        b
    } else {
        b + 1
    };
    assert(e == start + (count * width + 7) / 8) by (nonlinear_arith)
        requires
            b * 8 + o == start * 8 + count * width,
            o < 8,
            e == if o == 0 { b as int } else { b + 1 },
    ;
    Ok((Value::Array(items), e))
}

/// Adds an entry to an object's entries: a key already present keeps its
/// place and takes the new value; a new key goes last.
pub fn put_entry(es: &mut Vec<(String, Value)>, k: String, v: Value)
    requires
        keys_distinct(entries_view(old(es)@)),
    ensures
        entries_view(final(es)@) == insert_entry(entries_view(old(es)@), k@, v@),
        keys_distinct(entries_view(final(es)@)),
{
    let ghost ov = entries_view(es@);
    let n = es.len();
    let mut i: usize = 0;
    while i < n
        invariant
            n == es@.len(),
            i <= n,
            es@ == old(es)@,
            ov == entries_view(es@),
            keys_distinct(ov),
            forall|j: int| 0 <= j < i ==> (#[trigger] ov[j]).0 != k@,
        decreases n - i,
    {
        if es[i].0 == k {
            proof {
                assert(ov[i as int].0 == k@);
                let c = choose|c: int| 0 <= c < ov.len() && ov[c].0 == k@;
                assert(c == i);
            }
            let ghost kv = k@;
            let ghost vv = v@;
            es[i] = (k, v);
            proof {
                assert(entries_view(es@) =~= ov.update(i as int, (kv, vv)));
            }
            return;
        }
        i = i + 1;
    }
    let ghost kv = k@;
    let ghost vv = v@;
    es.push((k, v));
    proof {
        assert(entries_view(es@) =~= ov.push((kv, vv)));
    }
}

/// Reads the payload of one value of kind `tag` at `p`.
fn decode_value(data: &[u8], p: usize, tag: TypeTag, ver: Version) -> (r: Result<(Value, usize), DecodeError>)
    ensures
        agrees(r, parse_value(data@, p as int, tag, ver)),
        progressed(data@, p as int, r),
    decreases data@.len() - p, 2int,
{
    match tag {
        TypeTag::Object => match decode_entries(data, p, ver) {
            Ok((es, e)) => {
                proof {
                    lemma_object_view(es);
                }
                Ok((Value::Object(es), e))
            },
            Err(x) => Err(x),
        },
        TypeTag::Str => match read_string(data, p) {
            Ok((t, e)) => Ok((Value::Str(t), e)),
            Err(x) => Err(x),
        },
        TypeTag::List => decode_list(data, p, ver),
        TypeTag::NumberList => decode_number_list(data, p, ver),
        _ => decode_scalar(data, p, tag),
    }
}

/// Reads an object's entries at `p`, up to and including the zero tag.
fn decode_entries(data: &[u8], p: usize, ver: Version) -> (r: Result<
    (Vec<(String, Value)>, usize),
    DecodeError,
>)
    ensures
        match r {
            Ok((es, e)) => parse_entries(data@, p as int, ver, Seq::empty()) == Ok::<_, DecodeError>(
                (entries_view(es@), e as int),
            ),
            Err(x) => parse_entries(data@, p as int, ver, Seq::empty()) == Err::<
                (Seq<(Seq<char>, SpecValue)>, int),
                DecodeError,
            >(x),
        },
        progressed(data@, p as int, r),
    decreases data@.len() - p, 0int,
{
    let len = data.len();
    let mut es: Vec<(String, Value)> = Vec::new();
    if p >= len {
        return Err(DecodeError::Truncated);
    }
    let mut q = p;
    proof {
        assert(entries_view(es@) =~= Seq::empty());
    }
    loop
        invariant
            len == data@.len(),
            p <= q <= len,
            keys_distinct(entries_view(es@)),
            parse_entries(data@, p as int, ver, Seq::empty()) == parse_entries(
                data@,
                q as int,
                ver,
                entries_view(es@),
            ),
        decreases len - q,
    {
        if q >= len {
            return Err(DecodeError::Truncated);
        }
        let b = data[q];
        if b == 0 {
            return Ok((es, q + 1));
        }
        let tag = match tag_from_byte(b) {
            Some(t) => t,
            None => {
                return Err(DecodeError::UnknownTypeTag(b));
            },
        };
        if ver == Version::Ver0 {
            let (k, e1) = match read_string(data, q + 1) {
                Ok(x) => x,
                Err(x) => {
                    return Err(x);
                },
            };
            let (v, e2) = match decode_value(data, e1, tag, ver) {
                Ok(x) => x,
                Err(x) => {
                    return Err(x);
                },
            };
            put_entry(&mut es, k, v);
            q = e2;
        } else {
            let (v, e1) = match decode_value(data, q + 1, tag, ver) {
                Ok(x) => x,
                Err(x) => {
                    return Err(x);
                },
            };
            let (k, e2) = match read_string(data, e1) {
                Ok(x) => x,
                Err(x) => {
                    return Err(x);
                },
            };
            put_entry(&mut es, k, v);
            q = e2;
        }
    }
}

/// Reads a list at `p`.
fn decode_list(data: &[u8], p: usize, ver: Version) -> (r: Result<(Value, usize), DecodeError>)
    ensures
        agrees(r, parse_list(data@, p as int, ver)),
        progressed(data@, p as int, r),
    decreases data@.len() - p, 1int,
{
    if ver == Version::Ver0 {
        return decode_tagged_items(data, p, ver);
    }
    let len = data.len();
    if p >= len {
        return Err(DecodeError::Truncated);
    }
    let selector = data[p];
    if selector == 0 {
        let items: Vec<Value> = Vec::new();
        proof {
            lemma_array_view(items);
            assert(views(items@) =~= Seq::empty());
        }
        return Ok((Value::Array(items), p + 1));
    }
    if selector != 1 {
        return decode_tagged_items(data, p + 1, ver);
    }
    if len - p < 5 {
        return Err(DecodeError::Truncated);
    }
    let n = read_i32(data, p + 1);
    if n < 0 {
        return Err(DecodeError::NegativeLength);
    }
    if len - p <= 5 {
        return Err(DecodeError::Truncated);
    }
    let b = data[p + 5];
    if b == 0 {
        return Err(DecodeError::MisplacedTerminator);
    }
    let tag = match tag_from_byte(b) {
        Some(t) => t,
        None => {
            return Err(DecodeError::UnknownTypeTag(b));
        },
    };
    let n = n as u32;
    let mut items: Vec<Value> = Vec::new();
    let mut q = p + 6;
    let mut i: u32 = 0;
    proof {
        assert(views(items@) =~= Seq::empty());
    }
    while i < n
        invariant
            len == data@.len(),
            p + 6 <= q <= len,
            i <= n,
            parse_list(data@, p as int, ver) == parse_counted_items(
                data@,
                q as int,
                tag,
                ver,
                (n - i) as nat,
                views(items@),
            ),
        decreases n - i,
    {
        let (v, e) = match decode_value(data, q, tag, ver) {
            Ok(x) => x,
            Err(x) => {
                return Err(x);
            },
        };
        let ghost before = items@;
        items.push(v);
        proof {
            assert(views(items@) =~= views(before).push(items@[before.len() as int]@));
        }
        q = e;
        i = i + 1;
    }
    proof {
        lemma_array_view(items);
    }
    Ok((Value::Array(items), q))
}

/// Reads tagged values at `p`, up to and including the zero tag.
fn decode_tagged_items(data: &[u8], p: usize, ver: Version) -> (r: Result<(Value, usize), DecodeError>)
    ensures
        agrees(r, parse_tagged_items(data@, p as int, ver, Seq::empty())),
        progressed(data@, p as int, r),
    decreases data@.len() - p, 0int,
{
    let len = data.len();
    let mut items: Vec<Value> = Vec::new();
    if p >= len {
        return Err(DecodeError::Truncated);
    }
    let mut q = p;
    proof {
        assert(views(items@) =~= Seq::empty());
    }
    loop
        invariant
            len == data@.len(),
            p <= q <= len,
            parse_tagged_items(data@, p as int, ver, Seq::empty()) == parse_tagged_items(
                data@,
                q as int,
                ver,
                views(items@),
            ),
        decreases len - q,
    {
        if q >= len {
            return Err(DecodeError::Truncated);
        }
        let b = data[q];
        if b == 0 {
            proof {
                lemma_array_view(items);
            }
            return Ok((Value::Array(items), q + 1));
        }
        let tag = match tag_from_byte(b) {
            Some(t) => t,
            None => {
                return Err(DecodeError::UnknownTypeTag(b));
            },
        };
        let (v, e) = match decode_value(data, q + 1, tag, ver) {
            Ok(x) => x,
            Err(x) => {
                return Err(x);
            },
        };
        let ghost before = items@;
        items.push(v);
        proof {
            assert(views(items@) =~= views(before).push(items@[before.len() as int]@));
        }
        q = e;
    }
}

/// Decodes one document from the front of `data`, returning its root object
/// and the bytes that follow the document.
pub fn decode(data: &[u8]) -> (r: Result<(Value, &[u8]), DecodeError>)
    ensures
        match r {
            Ok((v, rest)) => parse_document(data@) == Ok::<_, DecodeError>(
                (v@, data@.len() - rest@.len()),
            ) && rest@ == data@.subrange(data@.len() - rest@.len(), data@.len() as int),
            Err(x) => parse_document(data@) == Err::<(SpecValue, int), DecodeError>(x),
        },
{
    let len = data.len();
    if len < 2 {
        return Err(DecodeError::Truncated);
    }
    let tag = read_u16(data, 0);
    let ver = if tag == 0 {
        Version::Ver0
    } else if tag == 1 {
        Version::Ver1
    } else {
        return Err(DecodeError::UnknownVersion(tag));
    };
    match decode_entries(data, 2, ver) {
        Ok((es, e)) => {
            proof {
                lemma_object_view(es);
            }
            Ok((Value::Object(es), &data[e..len]))
        },
        Err(x) => Err(x),
    }
}

} // verus!

//! Decoding a document reads only the document's own bytes: whatever follows
//! it in the buffer does not change what it decodes to.

use crate::bytes::{bit_at, bits_value};
use crate::value::SpecValue;
use crate::wire::{
    packed_element,
    packed_elements,
    parse_count,
    parse_counted_items,
    parse_document,
    parse_entries,
    parse_list,
    parse_number_list,
    parse_scalar,
    parse_string,
    parse_tagged_items,
    parse_value,
    raw_elements,
    insert_entry,
    tag_of,
    Entries,
    TypeTag,
    Version,
};
use vstd::prelude::*;

verus! {

proof fn lemma_bits_extend(s: Seq<u8>, t: Seq<u8>, k: int, n: nat)
    requires
        0 <= k,
        k + n <= s.len() * 8,
    ensures
        bits_value(s + t, k, n) == bits_value(s, k, n),
    decreases n,
{
    if n > 0 {
        lemma_bits_extend(s, t, k, (n - 1) as nat);
        let j = k + n - 1;
        assert(0 <= j / 8 < s.len()) by (nonlinear_arith)
            requires
                0 <= j < s.len() * 8,
        ;
        assert((s + t)[j / 8] == s[j / 8]);
        assert(bit_at(s + t, j) == bit_at(s, j));
    }
}

proof fn lemma_element_extend(s: Seq<u8>, t: Seq<u8>, k: int, neg: bool, digits: nat)
    requires
        0 <= k,
        k + digits + (if neg { 1int } else { 0int }) <= s.len() * 8,
    ensures
        packed_element(s + t, k, neg, digits) == packed_element(s, k, neg, digits),
{
    if neg {
        lemma_bits_extend(s, t, k + 1, digits);
        assert(0 <= k / 8 < s.len()) by (nonlinear_arith)
            requires
                0 <= k < s.len() * 8,
        ;
        assert((s + t)[k / 8] == s[k / 8]);
    } else {
        lemma_bits_extend(s, t, k, digits);
    }
}

proof fn lemma_string_extend(s: Seq<u8>, t: Seq<u8>, p: int)
    requires
        0 <= p,
        parse_string(s, p) is Ok,
    ensures
        parse_string(s + t, p) == parse_string(s, p),
{
    reveal(parse_string);
    let n = parse_string(s, p)->Ok_0.1 - p - 2;
    assert((s + t).subrange(p + 2, p + 2 + n) =~= s.subrange(p + 2, p + 2 + n));
}

proof fn lemma_number_list_extend(s: Seq<u8>, t: Seq<u8>, p: int, ver: Version)
    requires
        0 <= p,
        parse_number_list(s, p, ver) is Ok,
    ensures
        parse_number_list(s + t, p, ver) == parse_number_list(s, p, ver),
{
    reveal(parse_number_list);
    let u = s + t;
    assert(parse_count(u, p) == parse_count(s, p));
    let (count, q) = parse_count(s, p)->Ok_0;
    let flags = s[q];
    let start = q + 1;
    if flags >= 0x80 {
        assert(raw_elements(u, start, count) =~= raw_elements(s, start, count));
    } else {
        let neg = flags >= 0x40;
        let digits = (flags % 0x40) as nat;
        let width: int = if neg {
            digits + 1int
        } else {
            digits as int
        };
        if digits != 0 {
            let total = count * width;
            assert(total <= 8 * ((total + 7) / 8)) by (nonlinear_arith);
            assert forall|i: int| 0 <= i < count implies #[trigger] packed_element(
                u,
                start * 8 + i * width,
                neg,
                digits,
            ) == packed_element(s, start * 8 + i * width, neg, digits) by {
                assert(0 <= i * width && i * width + width <= count * width) by (nonlinear_arith)
                    requires
                        0 <= i < count,
                        width >= 1,
                ;
                lemma_element_extend(s, t, start * 8 + i * width, neg, digits);
            }
            assert(packed_elements(u, start * 8, count, neg, digits) =~= packed_elements(
                s,
                start * 8,
                count,
                neg,
                digits,
            ));
        }
    }
}

proof fn lemma_value_extend(s: Seq<u8>, t: Seq<u8>, p: int, tag: TypeTag, ver: Version)
    requires
        0 <= p,
        parse_value(s, p, tag, ver) is Ok,
    ensures
        parse_value(s + t, p, tag, ver) == parse_value(s, p, tag, ver),
    decreases s.len() - p, 2int,
{
    match tag {
        TypeTag::Object => lemma_entries_extend(s, t, p, ver, Seq::empty()),
        TypeTag::Str => lemma_string_extend(s, t, p),
        TypeTag::List => lemma_list_extend(s, t, p, ver),
        TypeTag::NumberList => lemma_number_list_extend(s, t, p, ver),
        _ => {
            reveal(parse_scalar);
            assert(parse_scalar(s + t, p, tag) == parse_scalar(s, p, tag));
        },
    }
}

proof fn lemma_entries_extend(s: Seq<u8>, t: Seq<u8>, p: int, ver: Version, acc: Entries)
    requires
        0 <= p,
        parse_entries(s, p, ver, acc) is Ok,
    ensures
        parse_entries(s + t, p, ver, acc) == parse_entries(s, p, ver, acc),
    decreases s.len() - p, 0int,
{
    assert((s + t)[p] == s[p]);
    if s[p] != 0 {
        let tag = tag_of(s[p])->Some_0;
        if ver == Version::Ver0 {
            lemma_string_extend(s, t, p + 1);
            let (k, e1) = parse_string(s, p + 1)->Ok_0;
            lemma_value_extend(s, t, e1, tag, ver);
            let (v, e2) = parse_value(s, e1, tag, ver)->Ok_0;
            lemma_entries_extend(s, t, e2, ver, insert_entry(acc, k, v));
        } else {
            lemma_value_extend(s, t, p + 1, tag, ver);
            let (v, e1) = parse_value(s, p + 1, tag, ver)->Ok_0;
            lemma_string_extend(s, t, e1);
            let (k, e2) = parse_string(s, e1)->Ok_0;
            lemma_entries_extend(s, t, e2, ver, insert_entry(acc, k, v));
        }
    }
}

proof fn lemma_list_extend(s: Seq<u8>, t: Seq<u8>, p: int, ver: Version)
    requires
        0 <= p,
        parse_list(s, p, ver) is Ok,
    ensures
        parse_list(s + t, p, ver) == parse_list(s, p, ver),
    decreases s.len() - p, 1int,
{
    if ver == Version::Ver0 {
        lemma_tagged_items_extend(s, t, p, ver, Seq::empty());
    } else if s[p] == 1 {
        let tag = crate::wire::tag_of(s[p + 5])->Some_0;
        let n = crate::bytes::signed(crate::bytes::be_u32(s, p + 1), 32) as nat;
        lemma_counted_items_extend(s, t, p + 6, tag, ver, n, Seq::empty());
    } else if s[p] != 0 {
        lemma_tagged_items_extend(s, t, p + 1, ver, Seq::empty());
    }
}

proof fn lemma_counted_items_extend(
    s: Seq<u8>,
    t: Seq<u8>,
    p: int,
    tag: TypeTag,
    ver: Version,
    n: nat,
    acc: Seq<SpecValue>,
)
    requires
        0 <= p,
        parse_counted_items(s, p, tag, ver, n, acc) is Ok,
    ensures
        parse_counted_items(s + t, p, tag, ver, n, acc) == parse_counted_items(s, p, tag, ver, n, acc),
    decreases s.len() - p, 3int,
{
    if n > 0 {
        lemma_value_extend(s, t, p, tag, ver);
        let (v, e) = parse_value(s, p, tag, ver)->Ok_0;
        lemma_counted_items_extend(s, t, e, tag, ver, (n - 1) as nat, acc.push(v));
    }
}

proof fn lemma_tagged_items_extend(s: Seq<u8>, t: Seq<u8>, p: int, ver: Version, acc: Seq<SpecValue>)
    requires
        0 <= p,
        parse_tagged_items(s, p, ver, acc) is Ok,
    ensures
        parse_tagged_items(s + t, p, ver, acc) == parse_tagged_items(s, p, ver, acc),
    decreases s.len() - p, 0int,
{
    if s[p] != 0 {
        let tag = crate::wire::tag_of(s[p])->Some_0;
        lemma_value_extend(s, t, p + 1, tag, ver);
        let (v, e) = parse_value(s, p + 1, tag, ver)->Ok_0;
        lemma_tagged_items_extend(s, t, e, ver, acc.push(v));
    }
}

/// A document that decodes from `a` decodes to the same value, ending at the
/// same place, from `a` followed by any bytes.
pub proof fn lemma_document_extend(a: Seq<u8>, b: Seq<u8>)
    requires
        parse_document(a) is Ok,
    ensures
        parse_document(a + b) == parse_document(a),
{
    let ver = if crate::bytes::be_u16(a, 0) == 0 {
        Version::Ver0
    } else {
        Version::Ver1
    };
    lemma_entries_extend(a, b, 2, ver, Seq::empty());
}

/// Two documents written back to back decode one after the other: the first
/// decode gives the first document's value and ends where the second document
/// begins, so the remainder that it hands back is the second document, which
/// then decodes to what it decodes to alone.
pub proof fn lemma_back_to_back_documents(a: Seq<u8>, b: Seq<u8>)
    requires
        parse_document(a) is Ok,
        parse_document(a)->Ok_0.1 == a.len(),
    ensures
        parse_document(a + b) == parse_document(a),
        (a + b).subrange(a.len() as int, (a + b).len() as int) == b,
{
    lemma_document_extend(a, b);
    assert((a + b).subrange(a.len() as int, (a + b).len() as int) =~= b);
}

} // verus!

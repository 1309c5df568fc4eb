use ncpf::decode::decode;
use ncpf::value::{Number, Value};
use ncpf::wire::DecodeError;

fn key(s: &str) -> Vec<u8> {
    let mut out = (s.len() as u16).to_be_bytes().to_vec();
    out.extend_from_slice(s.as_bytes());
    out
}

fn entries(v: &Value) -> &Vec<(String, Value)> {
    match v {
        Value::Object(es) => es,
        _ => panic!("not an object"),
    }
}

fn get<'a>(v: &'a Value, k: &str) -> &'a Value {
    &entries(v).iter().find(|(key, _)| key == k).expect("missing key").1
}

fn ints(v: &Value) -> Vec<i64> {
    match v {
        Value::Array(items) => items
            .iter()
            .map(|i| match i {
                Value::Num(Number::Int(x)) => *x,
                _ => panic!("not an integer"),
            })
            .collect(),
        _ => panic!("not an array"),
    }
}

fn int_of(v: &Value) -> i64 {
    match v {
        Value::Num(Number::Int(x)) => *x,
        _ => panic!("not an integer"),
    }
}

/// A version 1 document whose root holds one number list under "n".
fn number_list_doc(payload: &[u8]) -> Vec<u8> {
    let mut d = vec![0, 1, 12];
    d.extend_from_slice(payload);
    d.extend(key("n"));
    d.push(0);
    d
}

#[test]
fn version1_entry_is_value_then_key() {
    let mut d = vec![0, 1, 3, 0, 0, 0, 42];
    d.extend(key("a"));
    d.push(0);
    let (v, rest) = decode(&d).unwrap();
    assert!(rest.is_empty());
    assert_eq!(entries(&v).len(), 1);
    assert_eq!(entries(&v)[0].0, "a");
    assert_eq!(int_of(get(&v, "a")), 42);
}

#[test]
fn version0_entry_is_key_then_value() {
    let mut d = vec![0, 0, 3];
    d.extend(key("a"));
    d.extend_from_slice(&[0, 0, 0, 42, 0]);
    let (v, rest) = decode(&d).unwrap();
    assert!(rest.is_empty());
    assert_eq!(int_of(get(&v, "a")), 42);
}

#[test]
fn version0_lists_are_always_tagged() {
    // No selector byte: the list starts directly with its first tag.
    let mut d = vec![0, 0, 9];
    d.extend(key("l"));
    d.extend_from_slice(&[10, 5, 10, 0xFB, 0, 0]);
    let (v, rest) = decode(&d).unwrap();
    assert!(rest.is_empty());
    assert_eq!(ints(get(&v, "l")), vec![5, -5]);
}

#[test]
fn version1_list_selectors() {
    let mut d = vec![0, 1];
    d.extend_from_slice(&[9, 0]);
    d.extend(key("empty"));
    d.extend_from_slice(&[9, 1, 0, 0, 0, 2, 11, 0x01, 0x00, 0xFF, 0xFF]);
    d.extend(key("counted"));
    d.extend_from_slice(&[9, 2, 5, 1, 6, 0, 0, 0, 0, 0, 0, 0, 7, 0]);
    d.extend(key("tagged"));
    d.push(0);
    let (v, rest) = decode(&d).unwrap();
    assert!(rest.is_empty());
    assert_eq!(ints(get(&v, "empty")), Vec::<i64>::new());
    assert_eq!(ints(get(&v, "counted")), vec![256, -1]);
    match get(&v, "tagged") {
        Value::Array(items) => {
            assert_eq!(items.len(), 2);
            assert!(matches!(items[0], Value::Bool(true)));
            assert!(matches!(items[1], Value::Num(Number::Int(7))));
        }
        _ => panic!("not an array"),
    }
}

#[test]
fn negative_string_length_is_refused() {
    // Nothing follows the length field.
    let d = vec![0, 1, 2, 0xFF, 0xFF];
    assert_eq!(decode(&d).err(), Some(DecodeError::NegativeLength));
    let mut d = vec![0, 0, 2];
    d.extend_from_slice(&[0xFF, 0xFF, b'x', b'y']);
    assert_eq!(decode(&d).err(), Some(DecodeError::NegativeLength));
}

#[test]
fn negative_list_count_is_refused() {
    let d = vec![0, 1, 9, 1, 0xFF, 0xFF, 0xFF, 0xFF];
    assert_eq!(decode(&d).err(), Some(DecodeError::NegativeLength));
}

#[test]
fn number_list_size_class_0_four_bit_elements() {
    let d = number_list_doc(&[0x0A, 0x04, 0x12, 0x34, 0x56, 0x78, 0x9A]);
    let (v, rest) = decode(&d).unwrap();
    assert!(rest.is_empty());
    assert_eq!(ints(get(&v, "n")), vec![1, 2, 3, 4, 5, 6, 7, 8, 9, 10]);
}

#[test]
fn number_list_size_class_1() {
    let d = number_list_doc(&[0x40, 0x03, 0x08, 7, 8, 9]);
    let (v, _) = decode(&d).unwrap();
    assert_eq!(ints(get(&v, "n")), vec![7, 8, 9]);
}

#[test]
fn number_list_size_class_2_with_signs() {
    let d = number_list_doc(&[0x80, 0, 0, 2, 0x48, 0x80, 0x80, 0xC0]);
    let (v, _) = decode(&d).unwrap();
    assert_eq!(ints(get(&v, "n")), vec![-1, 3]);
}

#[test]
fn number_list_size_class_3_zero_width() {
    let d = number_list_doc(&[0xC0, 0, 0, 0, 3, 0x00]);
    let (v, _) = decode(&d).unwrap();
    assert_eq!(ints(get(&v, "n")), vec![0, 0, 0]);
}

#[test]
fn number_list_raw_int64() {
    let mut payload = vec![0x02, 0x80];
    payload.extend_from_slice(&(-2i64).to_be_bytes());
    payload.extend_from_slice(&5i64.to_be_bytes());
    let (v, _) = decode(&number_list_doc(&payload)).unwrap();
    assert_eq!(ints(get(&v, "n")), vec![-2, 5]);
}

#[test]
fn number_list_truncated_bits() {
    let d = number_list_doc(&[0x0A, 0x04, 0x12, 0x34]);
    assert_eq!(decode(&d).err(), Some(DecodeError::Truncated));
}

#[test]
fn number_list_refused_in_version0() {
    let mut d = vec![0, 0, 12];
    d.extend(key("n"));
    d.extend_from_slice(&[0x01, 0x00, 0]);
    assert_eq!(decode(&d).err(), Some(DecodeError::UnsupportedInVersion));
}

#[test]
fn float32_infinity_is_refused() {
    let d = vec![0, 1, 4, 0x7F, 0x80, 0x00, 0x00];
    assert_eq!(decode(&d).err(), Some(DecodeError::NonFiniteFloat));
}

#[test]
fn float64_nan_is_refused() {
    let mut d = vec![0, 1, 7];
    d.extend_from_slice(&f64::NAN.to_bits().to_be_bytes());
    assert_eq!(decode(&d).err(), Some(DecodeError::NonFiniteFloat));
}

#[test]
fn finite_floats_keep_their_bits() {
    let mut d = vec![0, 1, 4];
    d.extend_from_slice(&1.5f32.to_bits().to_be_bytes());
    d.extend(key("f"));
    d.push(7);
    d.extend_from_slice(&(-0.25f64).to_bits().to_be_bytes());
    d.extend(key("d"));
    d.push(0);
    let (v, _) = decode(&d).unwrap();
    assert!(matches!(get(&v, "f"), Value::Num(Number::Float32(b)) if *b == 1.5f32.to_bits()));
    assert!(matches!(get(&v, "d"), Value::Num(Number::Float64(b)) if *b == (-0.25f64).to_bits()));
}

#[test]
fn back_to_back_documents() {
    let mut a = vec![0, 1, 5, 1];
    a.extend(key("x"));
    a.push(0);
    let mut b = vec![0, 0, 10];
    b.extend(key("y"));
    b.extend_from_slice(&[9, 0]);
    let mut both = a.clone();
    both.extend_from_slice(&b);
    let (v1, rest) = decode(&both).unwrap();
    assert_eq!(rest, &b[..]);
    let (v2, rest2) = decode(rest).unwrap();
    assert!(rest2.is_empty());
    assert!(matches!(get(&v1, "x"), Value::Bool(true)));
    assert_eq!(int_of(get(&v2, "y")), 9);
    let (alone, _) = decode(&b).unwrap();
    assert_eq!(int_of(get(&alone, "y")), 9);
}

#[test]
fn duplicate_keys_overwrite() {
    let mut d = vec![0, 1];
    for (k, x) in [("a", 1u8), ("b", 2), ("a", 3)] {
        d.extend_from_slice(&[10, x]);
        d.extend(key(k));
    }
    d.push(0);
    let (v, _) = decode(&d).unwrap();
    let es = entries(&v);
    assert_eq!(es.len(), 2);
    assert_eq!(es[0].0, "a");
    assert_eq!(int_of(&es[0].1), 3);
    assert_eq!(es[1].0, "b");
}

#[test]
fn modified_utf8_surrogate_pairs_are_joined() {
    let mut d = vec![0, 1, 2, 0, 6, 0xED, 0xA0, 0x81, 0xED, 0xB0, 0x81];
    d.extend(key("s"));
    d.push(0);
    let (v, _) = decode(&d).unwrap();
    assert!(matches!(get(&v, "s"), Value::Str(s) if s == "\u{10401}"));
}

#[test]
fn invalid_string_bytes_are_refused() {
    let d = vec![0, 1, 2, 0, 1, 0xFF];
    assert_eq!(decode(&d).err(), Some(DecodeError::InvalidStringEncoding));
}

#[test]
fn other_errors() {
    assert_eq!(decode(&[0]).err(), Some(DecodeError::Truncated));
    assert_eq!(decode(&[0, 2, 0]).err(), Some(DecodeError::UnknownVersion(2)));
    assert_eq!(decode(&[0, 1, 8, 0]).err(), Some(DecodeError::UnknownTypeTag(8)));
    assert_eq!(decode(&[0, 1, 9, 1, 0, 0, 0, 1, 0]).err(), Some(DecodeError::MisplacedTerminator));
    assert_eq!(decode(&[0, 1, 3, 0, 0]).err(), Some(DecodeError::Truncated));
    assert_eq!(decode(&[0, 1]).err(), Some(DecodeError::Truncated));
}

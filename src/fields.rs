//! Reading typed fields out of a decoded object: lookup by key, kind checks,
//! defaults for optional fields.

use crate::value::{entries_view, lemma_array_view, lemma_object_view, views, Number, SpecValue, Value};
use vstd::prelude::*;

verus! {

/// The kind of a decoded value, as reported in a mismatch.
#[derive(Clone, Copy, Debug, PartialEq, Eq, Structural)]
pub enum Kind {
    Object,
    Array,
    Str,
    Int,
    Float,
    Bool,
}

pub open spec fn kind_of(v: SpecValue) -> Kind {
    match v {
        SpecValue::Object(_) => Kind::Object,
        SpecValue::Array(_) => Kind::Array,
        SpecValue::Str(_) => Kind::Str,
        SpecValue::Num(Number::Int(_)) => Kind::Int,
        SpecValue::Num(_) => Kind::Float,
        SpecValue::Bool(_) => Kind::Bool,
    }
}

/// The kind of a value.
pub fn kind(v: &Value) -> (r: Kind)
    ensures
        r == kind_of(v@),
{
    match v {
        Value::Object(_) => Kind::Object,
        Value::Array(_) => Kind::Array,
        Value::Str(_) => Kind::Str,
        Value::Num(Number::Int(_)) => Kind::Int,
        Value::Num(_) => Kind::Float,
        Value::Bool(_) => Kind::Bool,
    }
}

/// Why a decoded value could not be read as a record.
#[derive(Clone, Debug, PartialEq, Eq)]
pub enum ProjectError {
    /// A required field was absent.
    MissingField(String),
    /// A field held a value of another kind: field, expected, found.
    TypeMismatch(String, Kind, Kind),
    /// An integer field held an integer outside the 32-bit range.
    OutOfRange(String),
    /// A record was read from a value that is not an object.
    NotAnObject(Kind),
}

/// The model of a [`ProjectError`].
pub enum SpecProjectError {
    MissingField(Seq<char>),
    TypeMismatch(Seq<char>, Kind, Kind),
    OutOfRange(Seq<char>),
    NotAnObject(Kind),
}

impl View for ProjectError {
    type V = SpecProjectError;

    open spec fn view(&self) -> SpecProjectError {
        match self {
            ProjectError::MissingField(k) => SpecProjectError::MissingField(k@),
            ProjectError::TypeMismatch(k, e, f) => SpecProjectError::TypeMismatch(k@, *e, *f),
            ProjectError::OutOfRange(k) => SpecProjectError::OutOfRange(k@),
            ProjectError::NotAnObject(f) => SpecProjectError::NotAnObject(*f),
        }
    }
}

pub type Entries = Seq<(Seq<char>, SpecValue)>;

pub type Field<T> = Result<T, SpecProjectError>;

/// The value of the first entry with key `k`.
pub open spec fn lookup(es: Entries, k: Seq<char>) -> Option<SpecValue>
    decreases es.len(),
{
    if es.len() == 0 {
        None
    } else if es[0].0 == k {
        Some(es[0].1)
    } else {
        lookup(es.drop_first(), k)
    }
}

pub open spec fn mismatch<T>(k: Seq<char>, expected: Kind, v: SpecValue) -> Field<T> {
    Err(SpecProjectError::TypeMismatch(k, expected, kind_of(v)))
}

pub open spec fn in_i32(x: i64) -> bool {
    i32::MIN <= x <= i32::MAX
}

/// A required string field.
pub open spec fn string_field(f: Option<SpecValue>, k: Seq<char>) -> Field<Seq<char>> {
    match f {
        None => Err(SpecProjectError::MissingField(k)),
        Some(SpecValue::Str(s)) => Ok(s),
        Some(v) => mismatch(k, Kind::Str, v),
    }
}

/// A boolean field that is false when absent.
pub open spec fn flag_field(f: Option<SpecValue>, k: Seq<char>) -> Field<bool> {
    match f {
        None => Ok(false),
        Some(SpecValue::Bool(b)) => Ok(b),
        Some(v) => mismatch(k, Kind::Bool, v),
    }
}

/// An optional boolean field.
pub open spec fn opt_bool_field(f: Option<SpecValue>, k: Seq<char>) -> Field<Option<bool>> {
    match f {
        None => Ok(None),
        Some(SpecValue::Bool(b)) => Ok(Some(b)),
        Some(v) => mismatch(k, Kind::Bool, v),
    }
}

/// A 32-bit integer held by a present field.
pub open spec fn int_of(v: SpecValue, k: Seq<char>) -> Field<i32> {
    match v {
        SpecValue::Num(Number::Int(x)) => if in_i32(x) {
            Ok(x as i32)
        } else {
            Err(SpecProjectError::OutOfRange(k))
        },
        _ => mismatch(k, Kind::Int, v),
    }
}

/// A required 32-bit integer field.
pub open spec fn int_field(f: Option<SpecValue>, k: Seq<char>) -> Field<i32> {
    match f {
        None => Err(SpecProjectError::MissingField(k)),
        Some(v) => int_of(v, k),
    }
}

/// A 32-bit integer field that is zero when absent.
pub open spec fn int_or_zero_field(f: Option<SpecValue>, k: Seq<char>) -> Field<i32> {
    match f {
        None => Ok(0),
        Some(v) => int_of(v, k),
    }
}

/// An optional 32-bit integer field.
pub open spec fn opt_int_field(f: Option<SpecValue>, k: Seq<char>) -> Field<Option<i32>> {
    match f {
        None => Ok(None),
        Some(v) => match int_of(v, k) {
            Ok(x) => Ok(Some(x)),
            Err(e) => Err(e),
        },
    }
}

/// A required number field, integer or floating.
pub open spec fn number_field(f: Option<SpecValue>, k: Seq<char>) -> Field<Number> {
    match f {
        None => Err(SpecProjectError::MissingField(k)),
        Some(SpecValue::Num(n)) => Ok(n),
        Some(v) => mismatch(k, Kind::Float, v),
    }
}

/// An optional number field, integer or floating.
pub open spec fn opt_number_field(f: Option<SpecValue>, k: Seq<char>) -> Field<Option<Number>> {
    match f {
        None => Ok(None),
        Some(SpecValue::Num(n)) => Ok(Some(n)),
        Some(v) => mismatch(k, Kind::Float, v),
    }
}

/// The first element of `items` that is not a string, if any.
pub open spec fn first_non_string(items: Seq<SpecValue>) -> Option<SpecValue>
    decreases items.len(),
{
    if items.len() == 0 {
        None
    } else if items[0] is Str {
        first_non_string(items.drop_first())
    } else {
        Some(items[0])
    }
}

/// A list of strings that is empty when absent.
pub open spec fn strings_field(f: Option<SpecValue>, k: Seq<char>) -> Field<Seq<Seq<char>>> {
    match f {
        None => Ok(Seq::empty()),
        Some(SpecValue::Array(items)) => match first_non_string(items) {
            None => Ok(items.map_values(|v: SpecValue| v->Str_0)),
            Some(v) => mismatch(k, Kind::Str, v),
        },
        Some(v) => mismatch(k, Kind::Array, v),
    }
}

/// The first element of `items` that is not a 32-bit integer, if any.
pub open spec fn first_non_int(items: Seq<SpecValue>) -> Option<SpecValue>
    decreases items.len(),
{
    if items.len() == 0 {
        None
    } else if items[0] matches SpecValue::Num(Number::Int(x)) && in_i32(x) {
        first_non_int(items.drop_first())
    } else {
        Some(items[0])
    }
}

/// What is wrong with a list element that is not a 32-bit integer.
pub open spec fn int_error(v: SpecValue, k: Seq<char>) -> SpecProjectError {
    if v matches SpecValue::Num(Number::Int(_)) {
        SpecProjectError::OutOfRange(k)
    } else {
        SpecProjectError::TypeMismatch(k, Kind::Int, kind_of(v))
    }
}

/// An optional list of 32-bit integers.
pub open spec fn opt_ints_field(f: Option<SpecValue>, k: Seq<char>) -> Field<Option<Seq<i32>>> {
    match f {
        None => Ok(None),
        Some(SpecValue::Array(items)) => match first_non_int(items) {
            None => Ok(Some(items.map_values(|v: SpecValue| v->Num_0->Int_0 as i32))),
            Some(v) => Err(int_error(v, k)),
        },
        Some(v) => mismatch(k, Kind::Array, v),
    }
}

/// The value of the first entry whose key is `key`.
pub fn find<'a>(es: &'a Vec<(String, Value)>, key: &str) -> (r: Option<&'a Value>)
    ensures
        match r {
            Some(v) => lookup(entries_view(es@), key@) == Some(v@),
            None => lookup(entries_view(es@), key@) is None,
        },
{
    let k = key.to_owned();
    let ghost ev = entries_view(es@);
    let n = es.len();
    let mut i: usize = 0;
    assert(ev.subrange(0, n as int) =~= ev);
    while i < n
        invariant
            n == es@.len(),
            i <= n,
            ev == entries_view(es@),
            k@ == key@,
            lookup(ev, key@) == lookup(ev.subrange(i as int, n as int), key@),
        decreases n - i,
    {
        assert(ev.subrange(i as int, n as int).drop_first() =~= ev.subrange(i + 1, n as int));
        if es[i].0 == k {
            return Some(&es[i].1);
        }
        i = i + 1;
    }
    None
}

fn mismatch_error(key: &str, expected: Kind, v: &Value) -> (r: ProjectError)
    ensures
        r@ == SpecProjectError::TypeMismatch(key@, expected, kind_of(v@)),
{
    ProjectError::TypeMismatch(key.to_owned(), expected, kind(v))
}

fn missing(key: &str) -> (r: ProjectError)
    ensures
        r@ == SpecProjectError::MissingField(key@),
{
    ProjectError::MissingField(key.to_owned())
}

/// Reads a required string field.
pub fn get_string(es: &Vec<(String, Value)>, key: &str) -> (r: Result<String, ProjectError>)
    ensures
        match r {
            Ok(s) => string_field(lookup(entries_view(es@), key@), key@) == Ok::<_, SpecProjectError>(s@),
            Err(e) => string_field(lookup(entries_view(es@), key@), key@) == Err::<Seq<char>, _>(e@),
        },
{
    match find(es, key) {
        None => Err(missing(key)),
        Some(Value::Str(s)) => Ok(s.clone()),
        Some(v) => Err(mismatch_error(key, Kind::Str, v)),
    }
}

/// Reads a boolean field that is false when absent.
pub fn get_flag(es: &Vec<(String, Value)>, key: &str) -> (r: Result<bool, ProjectError>)
    ensures
        match r {
            Ok(b) => flag_field(lookup(entries_view(es@), key@), key@) == Ok::<_, SpecProjectError>(b),
            Err(e) => flag_field(lookup(entries_view(es@), key@), key@) == Err::<bool, _>(e@),
        },
{
    match find(es, key) {
        None => Ok(false),
        Some(Value::Bool(b)) => Ok(*b),
        Some(v) => Err(mismatch_error(key, Kind::Bool, v)),
    }
}

/// Reads an optional boolean field.
pub fn get_opt_bool(es: &Vec<(String, Value)>, key: &str) -> (r: Result<Option<bool>, ProjectError>)
    ensures
        match r {
            Ok(b) => opt_bool_field(lookup(entries_view(es@), key@), key@) == Ok::<_, SpecProjectError>(b),
            Err(e) => opt_bool_field(lookup(entries_view(es@), key@), key@) == Err::<Option<bool>, _>(
                e@,
            ),
        },
{
    match find(es, key) {
        None => Ok(None),
        Some(Value::Bool(b)) => Ok(Some(*b)),
        Some(v) => Err(mismatch_error(key, Kind::Bool, v)),
    }
}

fn int_value(v: &Value, key: &str) -> (r: Result<i32, ProjectError>)
    ensures
        match r {
            Ok(x) => int_of(v@, key@) == Ok::<_, SpecProjectError>(x),
            Err(e) => int_of(v@, key@) == Err::<i32, _>(e@),
        },
{
    match v {
        Value::Num(Number::Int(x)) => if i32::MIN as i64 <= *x && *x <= i32::MAX as i64 {
            Ok(*x as i32)
        } else {
            Err(ProjectError::OutOfRange(key.to_owned()))
        },
        _ => Err(mismatch_error(key, Kind::Int, v)),
    }
}

/// Reads a required 32-bit integer field.
pub fn get_int(es: &Vec<(String, Value)>, key: &str) -> (r: Result<i32, ProjectError>)
    ensures
        match r {
            Ok(x) => int_field(lookup(entries_view(es@), key@), key@) == Ok::<_, SpecProjectError>(x),
            Err(e) => int_field(lookup(entries_view(es@), key@), key@) == Err::<i32, _>(e@),
        },
{
    match find(es, key) {
        None => Err(missing(key)),
        Some(v) => int_value(v, key),
    }
}

/// Reads a 32-bit integer field that is zero when absent.
pub fn get_int_or_zero(es: &Vec<(String, Value)>, key: &str) -> (r: Result<i32, ProjectError>)
    ensures
        match r {
            Ok(x) => int_or_zero_field(lookup(entries_view(es@), key@), key@) == Ok::<
                _,
                SpecProjectError,
            >(x),
            Err(e) => int_or_zero_field(lookup(entries_view(es@), key@), key@) == Err::<i32, _>(e@),
        },
{
    match find(es, key) {
        None => Ok(0),
        Some(v) => int_value(v, key),
    }
}

/// Reads an optional 32-bit integer field.
pub fn get_opt_int(es: &Vec<(String, Value)>, key: &str) -> (r: Result<Option<i32>, ProjectError>)
    ensures
        match r {
            Ok(x) => opt_int_field(lookup(entries_view(es@), key@), key@) == Ok::<_, SpecProjectError>(
                x,
            ),
            Err(e) => opt_int_field(lookup(entries_view(es@), key@), key@) == Err::<Option<i32>, _>(
                e@,
            ),
        },
{
    match find(es, key) {
        None => Ok(None),
        Some(v) => match int_value(v, key) {
            Ok(x) => Ok(Some(x)),
            Err(e) => Err(e),
        },
    }
}

/// Reads a required number field.
pub fn get_number(es: &Vec<(String, Value)>, key: &str) -> (r: Result<Number, ProjectError>)
    ensures
        match r {
            Ok(n) => number_field(lookup(entries_view(es@), key@), key@) == Ok::<_, SpecProjectError>(n),
            Err(e) => number_field(lookup(entries_view(es@), key@), key@) == Err::<Number, _>(e@),
        },
{
    match find(es, key) {
        None => Err(missing(key)),
        Some(Value::Num(n)) => Ok(*n),
        Some(v) => Err(mismatch_error(key, Kind::Float, v)),
    }
}

/// Reads an optional number field.
pub fn get_opt_number(es: &Vec<(String, Value)>, key: &str) -> (r: Result<Option<Number>, ProjectError>)
    ensures
        match r {
            Ok(n) => opt_number_field(lookup(entries_view(es@), key@), key@) == Ok::<
                _,
                SpecProjectError,
            >(n),
            Err(e) => opt_number_field(lookup(entries_view(es@), key@), key@) == Err::<
                Option<Number>,
                _,
            >(e@),
        },
{
    match find(es, key) {
        None => Ok(None),
        Some(Value::Num(n)) => Ok(Some(*n)),
        Some(v) => Err(mismatch_error(key, Kind::Float, v)),
    }
}

/// The models of a sequence of strings.
pub open spec fn strings_view(xs: Seq<String>) -> Seq<Seq<char>> {
    Seq::new(xs.len(), |i: int| xs[i]@)
}

/// Reads a list of strings that is empty when absent.
pub fn get_strings(es: &Vec<(String, Value)>, key: &str) -> (r: Result<Vec<String>, ProjectError>)
    ensures
        match r {
            Ok(xs) => strings_field(lookup(entries_view(es@), key@), key@) == Ok::<_, SpecProjectError>(
                strings_view(xs@),
            ),
            Err(e) => strings_field(lookup(entries_view(es@), key@), key@) == Err::<
                Seq<Seq<char>>,
                _,
            >(e@),
        },
{
    let mut out: Vec<String> = Vec::new();
    match find(es, key) {
        None => {
            assert(strings_view(out@) =~= Seq::empty());
            Ok(out)
        },
        Some(Value::Array(items)) => {
            proof {
                lemma_array_view(*items);
            }
            let ghost iv = views(items@);
            assert(lookup(entries_view(es@), key@) == Some(SpecValue::Array(iv)));
            let n = items.len();
            let mut i: usize = 0;
            assert(iv.subrange(0, n as int) =~= iv);
            while i < n
                invariant
                    n == items@.len(),
                    iv == views(items@),
                    i <= n,
                    out@.len() == i,
                    first_non_string(iv) == first_non_string(iv.subrange(i as int, n as int)),
                    lookup(entries_view(es@), key@) == Some(SpecValue::Array(iv)),
                    forall|j: int| 0 <= j < i ==> #[trigger] iv[j] == SpecValue::Str(out@[j]@),
                decreases n - i,
            {
                assert(iv.subrange(i as int, n as int).drop_first() =~= iv.subrange(i + 1, n as int));
                let v = &items[i];
                assert(iv[i as int] == v@);
                assert(iv.subrange(i as int, n as int)[0] == iv[i as int]);
                match v {
                    Value::Str(s) => {
                        let ghost before = out@;
                        out.push(s.clone());
                        assert forall|j: int| 0 <= j < i + 1 implies #[trigger] iv[j] == SpecValue::Str(
                            out@[j]@,
                        ) by {
                            if j < i {
                                assert(out@[j] == before[j]);
                            }
                        }
                    },
                    _ => {
                        return Err(mismatch_error(key, Kind::Str, v));
                    },
                }
                i = i + 1;
            }
            assert(strings_view(out@) =~= iv.map_values(|v: SpecValue| v->Str_0));
            Ok(out)
        },
        Some(v) => Err(mismatch_error(key, Kind::Array, v)),
    }
}

/// Reads an optional list of 32-bit integers.
pub fn get_opt_ints(es: &Vec<(String, Value)>, key: &str) -> (r: Result<Option<Vec<i32>>, ProjectError>)
    ensures
        match r {
            Ok(None) => opt_ints_field(lookup(entries_view(es@), key@), key@) == Ok::<
                Option<Seq<i32>>,
                SpecProjectError,
            >(None),
            Ok(Some(xs)) => opt_ints_field(lookup(entries_view(es@), key@), key@) == Ok::<
                _,
                SpecProjectError,
            >(Some(xs@)),
            Err(e) => opt_ints_field(lookup(entries_view(es@), key@), key@) == Err::<
                Option<Seq<i32>>,
                _,
            >(e@),
        },
{
    let mut out: Vec<i32> = Vec::new();
    match find(es, key) {
        None => Ok(None),
        Some(Value::Array(items)) => {
            proof {
                lemma_array_view(*items);
            }
            let ghost iv = views(items@);
            assert(lookup(entries_view(es@), key@) == Some(SpecValue::Array(iv)));
            let n = items.len();
            let mut i: usize = 0;
            assert(iv.subrange(0, n as int) =~= iv);
            while i < n
                invariant
                    n == items@.len(),
                    iv == views(items@),
                    i <= n,
                    out@.len() == i,
                    first_non_int(iv) == first_non_int(iv.subrange(i as int, n as int)),
                    lookup(entries_view(es@), key@) == Some(SpecValue::Array(iv)),
                    forall|j: int|
                        0 <= j < i ==> #[trigger] iv[j] == SpecValue::Num(Number::Int(out@[j] as i64)),
                decreases n - i,
            {
                assert(iv.subrange(i as int, n as int).drop_first() =~= iv.subrange(i + 1, n as int));
                let v = &items[i];
                assert(iv[i as int] == v@);
                assert(iv.subrange(i as int, n as int)[0] == iv[i as int]);
                match v {
                    Value::Num(Number::Int(x)) => {
                        if i32::MIN as i64 <= *x && *x <= i32::MAX as i64 {
                            let ghost before = out@;
                            out.push(*x as i32);
                            assert forall|j: int| 0 <= j < i + 1 implies #[trigger] iv[j]
                                == SpecValue::Num(Number::Int(out@[j] as i64)) by {
                                if j < i {
                                    assert(out@[j] == before[j]);
                                }
                            }
                        } else {
                            assert(iv[i as int] == SpecValue::Num(Number::Int(*x)));
                            assert(first_non_int(iv) == Some(iv[i as int]));
                            return Err(ProjectError::OutOfRange(key.to_owned()));
                        }
                    },
                    _ => {
                        return Err(mismatch_error(key, Kind::Int, v));
                    },
                }
                i = i + 1;
            }
            assert(out@ =~= iv.map_values(|v: SpecValue| v->Num_0->Int_0 as i32));
            Ok(Some(out))
        },
        Some(v) => Err(mismatch_error(key, Kind::Array, v)),
    }
}

/// A required boolean field.
pub open spec fn bool_field(f: Option<SpecValue>, k: Seq<char>) -> Field<bool> {
    match f {
        None => Err(SpecProjectError::MissingField(k)),
        Some(SpecValue::Bool(b)) => Ok(b),
        Some(v) => mismatch(k, Kind::Bool, v),
    }
}

/// Reads a required boolean field.
pub fn get_bool(es: &Vec<(String, Value)>, key: &str) -> (r: Result<bool, ProjectError>)
    ensures
        match r {
            Ok(b) => bool_field(lookup(entries_view(es@), key@), key@) == Ok::<_, SpecProjectError>(b),
            Err(e) => bool_field(lookup(entries_view(es@), key@), key@) == Err::<bool, _>(e@),
        },
{
    match find(es, key) {
        None => Err(missing(key)),
        Some(Value::Bool(b)) => Ok(*b),
        Some(v) => Err(mismatch_error(key, Kind::Bool, v)),
    }
}

/// The entries of a field that holds an object.
pub open spec fn object_of(f: Option<SpecValue>) -> Option<Entries> {
    match f {
        Some(SpecValue::Object(es)) => Some(es),
        _ => None,
    }
}

/// A required field that holds an object, as the object's entries.
pub open spec fn entries_field(f: Option<SpecValue>, k: Seq<char>) -> Field<Entries> {
    match f {
        None => Err(SpecProjectError::MissingField(k)),
        Some(SpecValue::Object(es)) => Ok(es),
        Some(v) => mismatch(k, Kind::Object, v),
    }
}

/// An optional field that holds an object, as the object's entries.
pub open spec fn opt_entries_field(f: Option<SpecValue>, k: Seq<char>) -> Field<Option<Entries>> {
    match f {
        None => Ok(None),
        Some(SpecValue::Object(es)) => Ok(Some(es)),
        Some(v) => mismatch(k, Kind::Object, v),
    }
}

/// A list field, as its items; an absent list is empty where `optional` and
/// missing otherwise.
pub open spec fn list_field(f: Option<SpecValue>, k: Seq<char>, optional: bool) -> Field<Seq<SpecValue>> {
    match f {
        None => if optional {
            Ok(Seq::empty())
        } else {
            Err(SpecProjectError::MissingField(k))
        },
        Some(SpecValue::Array(items)) => Ok(items),
        Some(v) => mismatch(k, Kind::Array, v),
    }
}

/// Reads a list field; `None` stands for an absent list that may be absent.
pub fn get_list<'a>(es: &'a Vec<(String, Value)>, key: &str, optional: bool) -> (r: Result<
    Option<&'a Vec<Value>>,
    ProjectError,
>)
    ensures
        match r {
            Ok(None) => optional && list_field(lookup(entries_view(es@), key@), key@, optional)
                == Ok::<_, SpecProjectError>(Seq::<SpecValue>::empty()),
            Ok(Some(items)) => list_field(lookup(entries_view(es@), key@), key@, optional) == Ok::<
                _,
                SpecProjectError,
            >(views(items@)),
            Err(e) => list_field(lookup(entries_view(es@), key@), key@, optional) == Err::<
                Seq<SpecValue>,
                _,
            >(e@),
        },
{
    match find(es, key) {
        None => if optional {
            Ok(None)
        } else {
            Err(missing(key))
        },
        Some(Value::Array(items)) => {
            proof {
                lemma_array_view(*items);
            }
            Ok(Some(items))
        },
        Some(v) => Err(mismatch_error(key, Kind::Array, v)),
    }
}

/// Reads a required field that holds an object.
pub fn get_object<'a>(es: &'a Vec<(String, Value)>, key: &str) -> (r: Result<
    &'a Vec<(String, Value)>,
    ProjectError,
>)
    ensures
        match r {
            Ok(o) => entries_field(lookup(entries_view(es@), key@), key@) == Ok::<_, SpecProjectError>(
                entries_view(o@),
            ),
            Err(e) => entries_field(lookup(entries_view(es@), key@), key@) == Err::<Entries, _>(e@),
        },
{
    match find(es, key) {
        None => Err(missing(key)),
        Some(Value::Object(o)) => {
            proof {
                lemma_object_view(*o);
            }
            Ok(o)
        },
        Some(v) => Err(mismatch_error(key, Kind::Object, v)),
    }
}

/// Reads an optional field that holds an object.
pub fn get_opt_object<'a>(es: &'a Vec<(String, Value)>, key: &str) -> (r: Result<
    Option<&'a Vec<(String, Value)>>,
    ProjectError,
>)
    ensures
        match r {
            Ok(None) => opt_entries_field(lookup(entries_view(es@), key@), key@) == Ok::<
                Option<Entries>,
                SpecProjectError,
            >(None),
            Ok(Some(o)) => opt_entries_field(lookup(entries_view(es@), key@), key@) == Ok::<
                _,
                SpecProjectError,
            >(Some(entries_view(o@))),
            Err(e) => opt_entries_field(lookup(entries_view(es@), key@), key@) == Err::<
                Option<Entries>,
                _,
            >(e@),
        },
{
    match find(es, key) {
        None => Ok(None),
        Some(Value::Object(o)) => {
            proof {
                lemma_object_view(*o);
            }
            Ok(Some(o))
        },
        Some(v) => Err(mismatch_error(key, Kind::Object, v)),
    }
}

/// The entries of a value that must be an object.
pub fn entries_of(v: &Value) -> (r: Result<&Vec<(String, Value)>, ProjectError>)
    ensures
        match r {
            Ok(o) => v@ == SpecValue::Object(entries_view(o@)),
            Err(e) => !(v@ is Object) && e@ == SpecProjectError::NotAnObject(kind_of(v@)),
        },
{
    match v {
        Value::Object(o) => {
            proof {
                lemma_object_view(*o);
            }
            Ok(o)
        },
        _ => Err(ProjectError::NotAnObject(kind(v))),
    }
}

} // verus!

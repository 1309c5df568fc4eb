//! The generic value tree produced by decoding.

use vstd::prelude::*;

verus! {

/// A number as it appeared on the wire.
///
/// Floating-point payloads are kept as their IEEE-754 bit patterns; a binary32
/// payload widens exactly to binary64, so no information is lost by keeping it
/// in its own width.
#[derive(Clone, Copy, Debug, PartialEq, Eq, Structural)]
pub enum Number {
    Int(i64),
    Float32(u32),
    Float64(u64),
}

/// A decoded value: an object, an array, a string, a number or a boolean.

pub enum Value {
    /// Entries in order of first insertion; keys are distinct.
    Object(Vec<(String, Value)>),
    Array(Vec<Value>),
    Str(String),
    Num(Number),
    Bool(bool),
}

/// The mathematical model of a [`Value`].
pub enum SpecValue {
    Object(Seq<(Seq<char>, SpecValue)>),
    Array(Seq<SpecValue>),
    Str(Seq<char>),
    Num(Number),
    Bool(bool),
}

impl View for Value {
    type V = SpecValue;

    open spec fn view(&self) -> SpecValue {
        model(*self)
    }
}

/// The model of a value, built bottom-up.
pub open spec fn model(v: Value) -> SpecValue
    decreases v,
{
    match v {
        Value::Object(es) => SpecValue::Object(
            Seq::new(
                es@.len(),
                |i: int|
                    if 0 <= i < es@.len() {
                        (es@[i].0@, model(es@[i].1))
                    } else {
                        (Seq::empty(), SpecValue::Bool(false))
                    },
            ),
        ),
        Value::Array(vs) => SpecValue::Array(
            Seq::new(
                vs@.len(),
                |i: int|
                    if 0 <= i < vs@.len() {
                        model(vs@[i])
                    } else {
                        SpecValue::Bool(false)
                    },
            ),
        ),
        Value::Str(s) => SpecValue::Str(s@),
        Value::Num(n) => SpecValue::Num(n),
        Value::Bool(b) => SpecValue::Bool(b),
    }
}

/// The models of a sequence of values, one for one.
pub open spec fn views(vs: Seq<Value>) -> Seq<SpecValue> {
    Seq::new(vs.len(), |i: int| vs[i]@)
}

/// The models of a sequence of object entries, one for one.
pub open spec fn entries_view(es: Seq<(String, Value)>) -> Seq<(Seq<char>, SpecValue)> {
    Seq::new(es.len(), |i: int| (es[i].0@, es[i].1@))
}

pub proof fn lemma_array_view(vs: Vec<Value>)
    ensures
        Value::Array(vs)@ == SpecValue::Array(views(vs@)),
{
    let x = Value::Array(vs)@->Array_0;
    assert(x =~= views(vs@));
}

pub proof fn lemma_object_view(es: Vec<(String, Value)>)
    ensures
        Value::Object(es)@ == SpecValue::Object(entries_view(es@)),
{
    let x = Value::Object(es)@->Object_0;
    assert(x =~= entries_view(es@));
}

} // verus!

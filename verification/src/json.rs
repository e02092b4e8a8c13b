//! A JSON document model: the values that booru APIs answer with.
use vstd::prelude::*;

verus! {

/// A JSON number: an integer that fits `u64` or `i64`, or any other number
/// carried by its text.
pub enum JsonNumber {
    PosInt(u64),
    NegInt(i64),
    Float(String),
}

/// A JSON value. Object members keep their order; a lookup finds the first
/// member with the key.
pub enum Json {
    Null,
    Bool(bool),
    Number(JsonNumber),
    String(String),
    Array(Vec<Json>),
    Object(Vec<(String, Json)>),
}

} // verus!

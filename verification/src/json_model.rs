//! Specification-level model of JSON values.
//!
//! A [`JVal`] is the mathematical shape of a JSON value: objects are
//! unordered maps from key to value, arrays are sequences, strings are
//! character sequences. The builder states what it constructs in terms of
//! this model, and the document properties are stated and proved over it.

use vstd::prelude::*;

verus! {

/// The mathematical model of a JSON value.
///
/// Objects are modelled as unordered maps: inserting the same key twice
/// keeps the last value, and two objects with the same key-value pairs are
/// equal regardless of insertion order.
pub enum JVal {
    Bool(bool),
    Int(int),
    Str(Seq<char>),
    Arr(Seq<JVal>),
    Obj(Map<Seq<char>, JVal>),
}

/// An object model with no fields.
pub open spec fn no_fields() -> Map<Seq<char>, JVal> {
    Map::empty()
}

/// The fields of an object value.
pub open spec fn fields(j: JVal) -> Map<Seq<char>, JVal> {
    j->Obj_0
}

/// Whether `j` is an object with a field named `k`.
pub open spec fn has_key(j: JVal, k: Seq<char>) -> bool {
    j is Obj && fields(j).dom().contains(k)
}

/// The value of field `k` of object `j`.
pub open spec fn field(j: JVal, k: Seq<char>) -> JVal {
    fields(j)[k]
}

} // verus!

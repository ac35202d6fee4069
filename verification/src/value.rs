//! The structured value that both front ends produce and consume.

use vstd::prelude::*;

verus! {

/// A tagged, recursively structured value: the single currency for field
/// input across the flag-parsing and the interactive front end.
///
/// An `Object` keeps its entries in insertion order. An object built by a
/// form holds exactly one entry per declared field, keyed by that field's
/// label, in declaration order.
#[derive(Debug, PartialEq, Eq)]
pub enum Value {
    Null,
    Bool(bool),
    Int(i64),
    Str(String),
    Array(Vec<Value>),
    Object(Vec<(String, Value)>),
}

impl Value {
    /// Whether this value is the string variant holding exactly `s`.
    pub open spec fn is_str_of(self, s: Seq<char>) -> bool {
        match self {
            Value::Str(t) => t@ == s,
            _ => false,
        }
    }

    /// Whether two values agree as flat field results: both null, or both
    /// strings with the same characters. Compound and numeric values are
    /// never produced by field coercion, so they are not related here.
    pub open spec fn same_flat(self, other: Value) -> bool {
        ||| (self is Null && other is Null)
        ||| (self matches Value::Str(s) && other.is_str_of(s@))
    }
}

} // verus!

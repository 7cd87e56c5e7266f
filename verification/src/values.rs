//! Runtime field values.
//!
//! A record instance is the ordered list of its declared fields' current
//! values, one entry per declared field, skipped fields included. A
//! `FieldValue` is the owned snapshot of one field's value, in one of the
//! value kinds the store accepts; it unifies heterogeneous field types
//! into one positional binding sequence.

use vstd::prelude::*;

verus! {

/// The value kind a field is declared with.
#[derive(Debug, Clone, Copy, PartialEq, Eq, Structural)]
pub enum TypeTag {
    Text,
    Int,
    Boolean,
}

/// One field's owned value at the instant it was read from a record:
/// a character string, a signed integer, or a truth value.
#[derive(Debug)]
pub enum FieldValue {
    Text(String),
    Int(i64),
    Boolean(bool),
}

impl Clone for FieldValue {
    fn clone(&self) -> (r: Self)
        ensures
            r == *self,
    {
        match self {
            FieldValue::Text(s) => FieldValue::Text(s.clone()),
            FieldValue::Int(i) => FieldValue::Int(*i),
            FieldValue::Boolean(b) => FieldValue::Boolean(*b),
        }
    }
}

impl PartialEq for FieldValue {
    fn eq(&self, other: &Self) -> (r: bool) {
        match (self, other) {
            (FieldValue::Text(a), FieldValue::Text(b)) => *a == *b,
            (FieldValue::Int(a), FieldValue::Int(b)) => *a == *b,
            (FieldValue::Boolean(a), FieldValue::Boolean(b)) => *a == *b,
            _ => false,
        }
    }
}

/// What equality of two field values means: matching kinds and, for
/// strings, equal character sequences.
pub open spec fn field_value_eq(a: FieldValue, b: FieldValue) -> bool {
    match (a, b) {
        (FieldValue::Text(x), FieldValue::Text(y)) => x@ == y@,
        (FieldValue::Int(x), FieldValue::Int(y)) => x == y,
        (FieldValue::Boolean(x), FieldValue::Boolean(y)) => x == y,
        _ => false,
    }
}

impl vstd::std_specs::cmp::PartialEqSpecImpl for FieldValue {
    open spec fn obeys_eq_spec() -> bool {
        true
    }

    open spec fn eq_spec(&self, other: &Self) -> bool {
        field_value_eq(*self, *other)
    }
}

/// A record instance: the current values of all declared fields, in
/// declaration order, skipped fields included.
#[derive(Debug)]
pub struct Record {
    pub values: Vec<FieldValue>,
}

} // verus!

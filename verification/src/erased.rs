//! The type-erased value carrier: a tagged union that carries a field's value
//! uniformly, recoverable only through an explicit, fallible try-cast by
//! exact type identity (never by structural coercion).

use vstd::prelude::*;

verus! {

/// A field value with its static type erased. Each variant carries one of
/// the value types a record field may have; which variant a value is can be
/// recovered only through the fallible `try_cast_*` operations.
pub enum FieldValue {
    I32(i32),
    I64(i64),
    Bool(bool),
    Text(String),
}

/// The type identity of an erased value.
pub enum ValueKind {
    I32,
    I64,
    Bool,
    Text,
}

impl FieldValue {
    /// The type identity that a try-cast recovers this value by.
    pub open spec fn kind(&self) -> ValueKind {
        match self {
            FieldValue::I32(_) => ValueKind::I32,
            FieldValue::I64(_) => ValueKind::I64,
            FieldValue::Bool(_) => ValueKind::Bool,
            FieldValue::Text(_) => ValueKind::Text,
        }
    }

    /// What a try-cast to `i32` yields.
    pub open spec fn spec_cast_i32(&self) -> Option<i32> {
        match self {
            FieldValue::I32(v) => Some(*v),
            _ => None,
        }
    }

    /// What a try-cast to `i64` yields.
    pub open spec fn spec_cast_i64(&self) -> Option<i64> {
        match self {
            FieldValue::I64(v) => Some(*v),
            _ => None,
        }
    }

    /// What a try-cast to `bool` yields.
    pub open spec fn spec_cast_bool(&self) -> Option<bool> {
        match self {
            FieldValue::Bool(v) => Some(*v),
            _ => None,
        }
    }

    /// What a try-cast to text yields.
    pub open spec fn spec_cast_text(&self) -> Option<Seq<char>> {
        match self {
            FieldValue::Text(s) => Some(s@),
            _ => None,
        }
    }

    /// Casts the erased value to `i32`: the carried value when that is its
    /// true type, and `None` for every other type.
    pub fn try_cast_i32(&self) -> (r: Option<i32>)
        ensures
            r == self.spec_cast_i32(),
    {
        match self {
            FieldValue::I32(v) => Some(*v),
            _ => None,
        }
    }

    /// Casts the erased value to `i64`: the carried value when that is its
    /// true type, and `None` for every other type.
    pub fn try_cast_i64(&self) -> (r: Option<i64>)
        ensures
            r == self.spec_cast_i64(),
    {
        match self {
            FieldValue::I64(v) => Some(*v),
            _ => None,
        }
    }

    /// Casts the erased value to `bool`: the carried value when that is its
    /// true type, and `None` for every other type.
    pub fn try_cast_bool(&self) -> (r: Option<bool>)
        ensures
            r == self.spec_cast_bool(),
    {
        match self {
            FieldValue::Bool(v) => Some(*v),
            _ => None,
        }
    }

    /// Casts the erased value to text: a reference to the carried string when
    /// that is its true type, and `None` for every other type.
    pub fn try_cast_text(&self) -> (r: Option<&String>)
        ensures
            match r {
                Some(s) => self.spec_cast_text() == Some(s@),
                None => self.spec_cast_text() is None,
            },
    {
        match self {
            FieldValue::Text(s) => Some(s),
            _ => None,
        }
    }
}

/// Try-cast idempotence: casting an erased value to its true type always
/// succeeds and yields exactly the carried value, and casting it to any
/// other type always fails.
pub proof fn lemma_try_cast_exact(v: FieldValue)
    ensures
        v matches FieldValue::I32(x) ==> v.spec_cast_i32() == Some(x)
            && v.spec_cast_i64() is None && v.spec_cast_bool() is None
            && v.spec_cast_text() is None,
        v matches FieldValue::I64(x) ==> v.spec_cast_i64() == Some(x)
            && v.spec_cast_i32() is None && v.spec_cast_bool() is None
            && v.spec_cast_text() is None,
        v matches FieldValue::Bool(x) ==> v.spec_cast_bool() == Some(x)
            && v.spec_cast_i32() is None && v.spec_cast_i64() is None
            && v.spec_cast_text() is None,
        v matches FieldValue::Text(s) ==> v.spec_cast_text() == Some(s@)
            && v.spec_cast_i32() is None && v.spec_cast_i64() is None
            && v.spec_cast_bool() is None,
{
}

/// A run-time field entry: a field's name paired with its type-erased value.
pub struct FieldEntry {
    pub name: String,
    pub value: FieldValue,
}

} // verus!

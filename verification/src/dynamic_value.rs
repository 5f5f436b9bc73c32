//! Values whose type is only known at run time, as a property bag holds them.

use vstd::prelude::*;

verus! {

/// The types that a recognized property can be asked to have.
#[derive(Debug, Clone, Copy, PartialEq, Eq, Structural)]
pub enum ValueKind {
    Uint32,
    Int64,
    Float64,
    Bool,
}

/// One value of a property bag, tagged with its type.
///
/// Every value has a text. A string is its own text. Any other value comes
/// with the text that its source shows it as, in the last field of its
/// variant; the library takes that text as it is and derives nothing from
/// it. A 64-bit float is held as its IEEE 754 bit pattern. `Other` stands
/// for every type that no recognized property asks for.
#[derive(Debug, PartialEq, Eq)]
pub enum DynamicValue {
    Uint32(u32, String),
    Int64(i64, String),
    Float64(u64, String),
    Bool(bool, String),
    Str(String),
    Other(String),
}

impl Clone for DynamicValue {
    fn clone(&self) -> (copy: Self)
        ensures
            copy == *self,
    {
        match self {
            DynamicValue::Uint32(v, text) => DynamicValue::Uint32(*v, text.clone()),
            DynamicValue::Int64(v, text) => DynamicValue::Int64(*v, text.clone()),
            DynamicValue::Float64(bits, text) => DynamicValue::Float64(*bits, text.clone()),
            DynamicValue::Bool(v, text) => DynamicValue::Bool(*v, text.clone()),
            DynamicValue::Str(v) => DynamicValue::Str(v.clone()),
            DynamicValue::Other(text) => DynamicValue::Other(text.clone()),
        }
    }
}

impl DynamicValue {
    /// Whether the value has the given type.
    pub open spec fn has_kind(self, kind: ValueKind) -> bool {
        match kind {
            ValueKind::Uint32 => self is Uint32,
            ValueKind::Int64 => self is Int64,
            ValueKind::Float64 => self is Float64,
            ValueKind::Bool => self is Bool,
        }
    }

    /// The text of the value: a string as it is, any other value as its
    /// source shows it.
    pub open spec fn text(self) -> String {
        match self {
            DynamicValue::Uint32(_, text) => text,
            DynamicValue::Int64(_, text) => text,
            DynamicValue::Float64(_, text) => text,
            DynamicValue::Bool(_, text) => text,
            DynamicValue::Str(v) => v,
            DynamicValue::Other(text) => text,
        }
    }

    /// The number, if the value is an unsigned 32-bit integer.
    pub fn as_u32(&self) -> (out: Option<u32>)
        ensures
            out == (if let DynamicValue::Uint32(v, _) = *self { Some(v) } else { None }),
    {
        match self {
            DynamicValue::Uint32(v, _) => Some(*v),
            _ => None,
        }
    }

    /// The number, if the value is a signed 64-bit integer.
    pub fn as_i64(&self) -> (out: Option<i64>)
        ensures
            out == (if let DynamicValue::Int64(v, _) = *self { Some(v) } else { None }),
    {
        match self {
            DynamicValue::Int64(v, _) => Some(*v),
            _ => None,
        }
    }

    /// The bit pattern, if the value is a 64-bit float.
    pub fn as_f64_bits(&self) -> (out: Option<u64>)
        ensures
            out == (if let DynamicValue::Float64(v, _) = *self { Some(v) } else { None }),
    {
        match self {
            DynamicValue::Float64(v, _) => Some(*v),
            _ => None,
        }
    }

    /// The truth value, if the value is a boolean.
    pub fn as_bool(&self) -> (out: Option<bool>)
        ensures
            out == (if let DynamicValue::Bool(v, _) = *self { Some(v) } else { None }),
    {
        match self {
            DynamicValue::Bool(v, _) => Some(*v),
            _ => None,
        }
    }

    /// An owned copy of the value's text. Every value has one.
    pub fn to_text(&self) -> (out: String)
        ensures
            out == self.text(),
    {
        match self {
            DynamicValue::Uint32(_, text) => text.clone(),
            DynamicValue::Int64(_, text) => text.clone(),
            DynamicValue::Float64(_, text) => text.clone(),
            DynamicValue::Bool(_, text) => text.clone(),
            DynamicValue::Str(v) => v.clone(),
            DynamicValue::Other(text) => text.clone(),
        }
    }
}

} // verus!

//! The value model: the closed set of kinds that can cross the boundary as a
//! call argument or as a call result.
//!
//! Floating-point payloads are held by their IEEE 754 bit patterns. The bridge
//! transports values and never computes with them, and a bit pattern is what
//! arrives on the other side.

use vstd::prelude::*;

verus! {

/// Opaque handle of an object that lives on the host runtime's heap.
///
/// It is a lookup key into the object identity table and owns nothing: copying
/// or dropping it neither keeps the object alive nor releases it.
#[derive(Debug, Clone, Copy, PartialEq, Eq, Hash, Structural)]
pub struct ObjectId(pub u64);

/// The kinds of value that have a payload.
#[derive(Debug, Clone, Copy, PartialEq, Eq, Hash, Structural)]
pub enum ValueKind {
    Byte,
    Short,
    Int,
    Long,
    Bool,
    Float,
    Double,
    Char,
    Obj,
}

/// One argument of a call across the boundary.
#[derive(Debug, Clone, Copy, PartialEq, Eq, Hash, Structural)]
pub enum FunctionParameter {
    Byte(i8),
    Short(i16),
    Int(i32),
    Long(i64),
    Bool(bool),
    /// A 32-bit float, by its bit pattern.
    Float(u32),
    /// A 64-bit float, by its bit pattern.
    Double(u64),
    /// A UTF-16 code unit.
    Char(u16),
    Obj(ObjectId),
}

/// The result of a call across the boundary: a value of one of the kinds, or
/// no value at all.
#[derive(Debug, Clone, Copy, PartialEq, Eq, Hash, Structural)]
pub enum ReturnValue {
    Void,
    Byte(i8),
    Short(i16),
    Int(i32),
    Long(i64),
    Bool(bool),
    /// A 32-bit float, by its bit pattern.
    Float(u32),
    /// A 64-bit float, by its bit pattern.
    Double(u64),
    /// A UTF-16 code unit.
    Char(u16),
    Obj(ObjectId),
}

/// What the host runtime passes for a true `boolean`.
///
/// Trusted, not proved: the body reads `jni::sys::JNI_TRUE`, which the
/// bindings define as the byte 1.
#[verifier::external_body]
fn jni_true() -> (t: u8)
    ensures
        t == 1,
{
    jni::sys::JNI_TRUE
}

impl FunctionParameter {
    /// The kind of this parameter.
    pub open spec fn spec_kind(&self) -> ValueKind {
        match *self {
            FunctionParameter::Byte(_) => ValueKind::Byte,
            FunctionParameter::Short(_) => ValueKind::Short,
            FunctionParameter::Int(_) => ValueKind::Int,
            FunctionParameter::Long(_) => ValueKind::Long,
            FunctionParameter::Bool(_) => ValueKind::Bool,
            FunctionParameter::Float(_) => ValueKind::Float,
            FunctionParameter::Double(_) => ValueKind::Double,
            FunctionParameter::Char(_) => ValueKind::Char,
            FunctionParameter::Obj(_) => ValueKind::Obj,
        }
    }

    /// The kind of this parameter.
    #[verifier::when_used_as_spec(spec_kind)]
    pub fn kind(&self) -> (k: ValueKind)
        ensures
            k == self.spec_kind(),
    {
        match *self {
            FunctionParameter::Byte(_) => ValueKind::Byte,
            FunctionParameter::Short(_) => ValueKind::Short,
            FunctionParameter::Int(_) => ValueKind::Int,
            FunctionParameter::Long(_) => ValueKind::Long,
            FunctionParameter::Bool(_) => ValueKind::Bool,
            FunctionParameter::Float(_) => ValueKind::Float,
            FunctionParameter::Double(_) => ValueKind::Double,
            FunctionParameter::Char(_) => ValueKind::Char,
            FunctionParameter::Obj(_) => ValueKind::Obj,
        }
    }

    /// A boolean parameter from the host runtime's `boolean`: true exactly for
    /// the byte 1, which is the host runtime's true, and false for every
    /// other byte.
    pub fn from_jboolean(value: u8) -> (p: FunctionParameter)
        ensures
            p == FunctionParameter::Bool(value == 1),
    {
        if value == jni_true() {
            FunctionParameter::Bool(true)
        } else {
            FunctionParameter::Bool(false)
        }
    }
}

impl ReturnValue {
    /// The kind of this result, or `None` where there is no value.
    pub open spec fn spec_kind(&self) -> Option<ValueKind> {
        match self.spec_parameter() {
            Some(p) => Some(p.spec_kind()),
            None => None,
        }
    }

    /// The kind of this result, or `None` where there is no value.
    #[verifier::when_used_as_spec(spec_kind)]
    pub fn kind(&self) -> (k: Option<ValueKind>)
        ensures
            k == self.spec_kind(),
    {
        match self.parameter() {
            Some(p) => Some(p.kind()),
            None => None,
        }
    }

    /// The result that carries the same kind and payload as `p`.
    pub open spec fn spec_from_parameter(p: FunctionParameter) -> ReturnValue {
        match p {
            FunctionParameter::Byte(v) => ReturnValue::Byte(v),
            FunctionParameter::Short(v) => ReturnValue::Short(v),
            FunctionParameter::Int(v) => ReturnValue::Int(v),
            FunctionParameter::Long(v) => ReturnValue::Long(v),
            FunctionParameter::Bool(v) => ReturnValue::Bool(v),
            FunctionParameter::Float(v) => ReturnValue::Float(v),
            FunctionParameter::Double(v) => ReturnValue::Double(v),
            FunctionParameter::Char(v) => ReturnValue::Char(v),
            FunctionParameter::Obj(v) => ReturnValue::Obj(v),
        }
    }

    /// The result that carries the same kind and payload as `p`.
    #[verifier::when_used_as_spec(spec_from_parameter)]
    pub fn from_parameter(p: FunctionParameter) -> (r: ReturnValue)
        ensures
            r == ReturnValue::spec_from_parameter(p),
    {
        match p {
            FunctionParameter::Byte(v) => ReturnValue::Byte(v),
            FunctionParameter::Short(v) => ReturnValue::Short(v),
            FunctionParameter::Int(v) => ReturnValue::Int(v),
            FunctionParameter::Long(v) => ReturnValue::Long(v),
            FunctionParameter::Bool(v) => ReturnValue::Bool(v),
            FunctionParameter::Float(v) => ReturnValue::Float(v),
            FunctionParameter::Double(v) => ReturnValue::Double(v),
            FunctionParameter::Char(v) => ReturnValue::Char(v),
            FunctionParameter::Obj(v) => ReturnValue::Obj(v),
        }
    }

    /// The result for an optional value: `Void` for `None`.
    pub fn from_optional(value: Option<FunctionParameter>) -> (r: ReturnValue)
        ensures
            r.spec_parameter() == value,
    {
        match value {
            Some(p) => ReturnValue::from_parameter(p),
            None => ReturnValue::Void,
        }
    }

    /// This result as a parameter of the same kind and payload, or `None` for
    /// `Void`.
    pub open spec fn spec_parameter(&self) -> Option<FunctionParameter> {
        match *self {
            ReturnValue::Void => None,
            ReturnValue::Byte(v) => Some(FunctionParameter::Byte(v)),
            ReturnValue::Short(v) => Some(FunctionParameter::Short(v)),
            ReturnValue::Int(v) => Some(FunctionParameter::Int(v)),
            ReturnValue::Long(v) => Some(FunctionParameter::Long(v)),
            ReturnValue::Bool(v) => Some(FunctionParameter::Bool(v)),
            ReturnValue::Float(v) => Some(FunctionParameter::Float(v)),
            ReturnValue::Double(v) => Some(FunctionParameter::Double(v)),
            ReturnValue::Char(v) => Some(FunctionParameter::Char(v)),
            ReturnValue::Obj(v) => Some(FunctionParameter::Obj(v)),
        }
    }

    /// This result as a parameter of the same kind and payload, or `None` for
    /// `Void`.
    #[verifier::when_used_as_spec(spec_parameter)]
    pub fn parameter(&self) -> (p: Option<FunctionParameter>)
        ensures
            p == self.spec_parameter(),
    {
        match *self {
            ReturnValue::Void => None,
            ReturnValue::Byte(v) => Some(FunctionParameter::Byte(v)),
            ReturnValue::Short(v) => Some(FunctionParameter::Short(v)),
            ReturnValue::Int(v) => Some(FunctionParameter::Int(v)),
            ReturnValue::Long(v) => Some(FunctionParameter::Long(v)),
            ReturnValue::Bool(v) => Some(FunctionParameter::Bool(v)),
            ReturnValue::Float(v) => Some(FunctionParameter::Float(v)),
            ReturnValue::Double(v) => Some(FunctionParameter::Double(v)),
            ReturnValue::Char(v) => Some(FunctionParameter::Char(v)),
            ReturnValue::Obj(v) => Some(FunctionParameter::Obj(v)),
        }
    }
}

} // verus!

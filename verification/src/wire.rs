//! The fixed-size form in which a value crosses the boundary: a tag that
//! names the kind, and the payload's bits.
//!
//! Both sides number the kinds in the order in which the value model declares
//! them. A payload narrower than 64 bits occupies the low bits, a signed one
//! in two's complement of its own width, and the bits above it are zero.

use crate::value::FunctionParameter;
use crate::value::ObjectId;
use crate::value::ReturnValue;
use vstd::prelude::*;

verus! {

/// A value as it crosses the boundary.
#[derive(Debug, Clone, Copy, PartialEq, Eq, Hash, Structural)]
pub struct WireValue {
    pub tag: u8,
    pub payload: u64,
}

/// The bits of the signed number `v` in two's complement, where `modulus` is
/// two to the power of the width.
pub open spec fn unsigned_bits(v: int, modulus: int) -> int {
    if v >= 0 {
        v
    } else {
        v + modulus
    }
}

/// The signed number that `bits` stand for in two's complement, where
/// `modulus` is two to the power of the width.
pub open spec fn signed_value(bits: int, modulus: int) -> int {
    if 2 * bits < modulus {
        bits
    } else {
        bits - modulus
    }
}

fn to_bits(v: i64, modulus: i128) -> (bits: u64)
    requires
        0 < modulus <= 0x1_0000_0000_0000_0000,
        -modulus <= 2 * v < modulus,
    ensures
        bits == unsigned_bits(v as int, modulus as int),
        bits < modulus,
{
    if v >= 0 {
        v as u64
    } else {
        (v as i128 + modulus) as u64
    }
}

fn from_bits(bits: u64, modulus: i128) -> (v: i64)
    requires
        0 < modulus <= 0x1_0000_0000_0000_0000,
        bits < modulus,
    ensures
        v == signed_value(bits as int, modulus as int),
        -modulus <= 2 * v < modulus,
{
    if 2 * (bits as i128) < modulus {
        bits as i64
    } else {
        (bits as i128 - modulus) as i64
    }
}

impl FunctionParameter {
    /// The tag of this parameter's kind.
    pub open spec fn spec_tag(&self) -> u8 {
        match *self {
            FunctionParameter::Byte(_) => 0,
            FunctionParameter::Short(_) => 1,
            FunctionParameter::Int(_) => 2,
            FunctionParameter::Long(_) => 3,
            FunctionParameter::Bool(_) => 4,
            FunctionParameter::Float(_) => 5,
            FunctionParameter::Double(_) => 6,
            FunctionParameter::Char(_) => 7,
            FunctionParameter::Obj(_) => 8,
        }
    }

    /// The payload's bits.
    pub open spec fn spec_payload(&self) -> u64 {
        match *self {
            FunctionParameter::Byte(v) => unsigned_bits(v as int, 0x100) as u64,
            FunctionParameter::Short(v) => unsigned_bits(v as int, 0x1_0000) as u64,
            FunctionParameter::Int(v) => unsigned_bits(v as int, 0x1_0000_0000) as u64,
            FunctionParameter::Long(v) => unsigned_bits(v as int, 0x1_0000_0000_0000_0000) as u64,
            FunctionParameter::Bool(v) => if v {
                1
            } else {
                0
            },
            FunctionParameter::Float(bits) => bits as u64,
            FunctionParameter::Double(bits) => bits,
            FunctionParameter::Char(unit) => unit as u64,
            FunctionParameter::Obj(id) => id.0,
        }
    }

    /// This parameter as it crosses the boundary.
    pub open spec fn spec_encode(&self) -> WireValue {
        WireValue { tag: self.spec_tag(), payload: self.spec_payload() }
    }

    /// The parameter that `wire` stands for. `None` for a tag outside the
    /// closed set of kinds, and for a payload with bits set that the kind
    /// does not have.
    pub open spec fn spec_decode(wire: WireValue) -> Option<FunctionParameter> {
        let bits = wire.payload as int;
        if wire.tag == 0 && bits < 0x100 {
            Some(FunctionParameter::Byte(signed_value(bits, 0x100) as i8))
        } else if wire.tag == 1 && bits < 0x1_0000 {
            Some(FunctionParameter::Short(signed_value(bits, 0x1_0000) as i16))
        } else if wire.tag == 2 && bits < 0x1_0000_0000 {
            Some(FunctionParameter::Int(signed_value(bits, 0x1_0000_0000) as i32))
        } else if wire.tag == 3 {
            Some(FunctionParameter::Long(signed_value(bits, 0x1_0000_0000_0000_0000) as i64))
        } else if wire.tag == 4 && bits < 2 {
            Some(FunctionParameter::Bool(bits == 1))
        } else if wire.tag == 5 && bits < 0x1_0000_0000 {
            Some(FunctionParameter::Float(bits as u32))
        } else if wire.tag == 6 {
            Some(FunctionParameter::Double(wire.payload))
        } else if wire.tag == 7 && bits < 0x1_0000 {
            Some(FunctionParameter::Char(bits as u16))
        } else if wire.tag == 8 {
            Some(FunctionParameter::Obj(ObjectId(wire.payload)))
        } else {
            None
        }
    }

    /// The tag of this parameter's kind.
    #[verifier::when_used_as_spec(spec_tag)]
    pub fn tag(&self) -> (tag: u8)
        ensures
            tag == self.spec_tag(),
    {
        match *self {
            FunctionParameter::Byte(_) => 0,
            FunctionParameter::Short(_) => 1,
            FunctionParameter::Int(_) => 2,
            FunctionParameter::Long(_) => 3,
            FunctionParameter::Bool(_) => 4,
            FunctionParameter::Float(_) => 5,
            FunctionParameter::Double(_) => 6,
            FunctionParameter::Char(_) => 7,
            FunctionParameter::Obj(_) => 8,
        }
    }

    /// The payload's bits.
    #[verifier::when_used_as_spec(spec_payload)]
    pub fn payload(&self) -> (payload: u64)
        ensures
            payload == self.spec_payload(),
    {
        match *self {
            FunctionParameter::Byte(v) => to_bits(v as i64, 0x100),
            FunctionParameter::Short(v) => to_bits(v as i64, 0x1_0000),
            FunctionParameter::Int(v) => to_bits(v as i64, 0x1_0000_0000),
            FunctionParameter::Long(v) => to_bits(v, 0x1_0000_0000_0000_0000),
            FunctionParameter::Bool(v) => if v {
                1
            } else {
                0
            },
            FunctionParameter::Float(bits) => bits as u64,
            FunctionParameter::Double(bits) => bits,
            FunctionParameter::Char(unit) => unit as u64,
            FunctionParameter::Obj(id) => id.0,
        }
    }

    /// This parameter as it crosses the boundary.
    #[verifier::when_used_as_spec(spec_encode)]
    pub fn encode(&self) -> (wire: WireValue)
        ensures
            wire == self.spec_encode(),
    {
        WireValue { tag: self.tag(), payload: self.payload() }
    }

    /// The parameter that `wire` stands for. `None` for a tag outside the
    /// closed set of kinds, and for a payload with bits set that the kind
    /// does not have.
    pub fn decode(wire: WireValue) -> (r: Option<FunctionParameter>)
        ensures
            r == FunctionParameter::spec_decode(wire),
    {
        let bits: u64 = wire.payload;
        if wire.tag == 0 && bits < 0x100 {
            Some(FunctionParameter::Byte(from_bits(bits, 0x100) as i8))
        } else if wire.tag == 1 && bits < 0x1_0000 {
            Some(FunctionParameter::Short(from_bits(bits, 0x1_0000) as i16))
        } else if wire.tag == 2 && bits < 0x1_0000_0000 {
            Some(FunctionParameter::Int(from_bits(bits, 0x1_0000_0000) as i32))
        } else if wire.tag == 3 {
            Some(FunctionParameter::Long(from_bits(bits, 0x1_0000_0000_0000_0000)))
        } else if wire.tag == 4 && bits < 2 {
            Some(FunctionParameter::Bool(bits == 1))
        } else if wire.tag == 5 && bits < 0x1_0000_0000 {
            Some(FunctionParameter::Float(bits as u32))
        } else if wire.tag == 6 {
            Some(FunctionParameter::Double(bits))
        } else if wire.tag == 7 && bits < 0x1_0000 {
            Some(FunctionParameter::Char(bits as u16))
        } else if wire.tag == 8 {
            Some(FunctionParameter::Obj(ObjectId(bits)))
        } else {
            None
        }
    }

    /// Decoding what was encoded gives the parameter back.
    pub proof fn lemma_decode_encode(self)
        ensures
            FunctionParameter::spec_decode(self.spec_encode()) == Some(self),
    {
    }

    /// Whatever decodes to a parameter is that parameter's encoding: no two
    /// wire values stand for the same parameter.
    pub proof fn lemma_encode_decode(wire: WireValue)
        ensures
            FunctionParameter::spec_decode(wire) matches Some(p) ==> p.spec_encode() == wire,
    {
    }
}

impl ReturnValue {
    /// The tag of this result's kind: 0 for no value, else one more than the
    /// tag of the parameter of that kind.
    pub open spec fn spec_tag(&self) -> u8 {
        match self.spec_parameter() {
            Some(p) => (p.spec_tag() + 1) as u8,
            None => 0,
        }
    }

    /// The payload's bits; zero where there is no value.
    pub open spec fn spec_payload(&self) -> u64 {
        match self.spec_parameter() {
            Some(p) => p.spec_payload(),
            None => 0,
        }
    }

    /// This result as it crosses the boundary.
    pub open spec fn spec_encode(&self) -> WireValue {
        WireValue { tag: self.spec_tag(), payload: self.spec_payload() }
    }

    /// The result that `wire` stands for. `None` for a tag outside the closed
    /// set of kinds, and for a payload with bits set that the kind does not
    /// have.
    pub open spec fn spec_decode(wire: WireValue) -> Option<ReturnValue> {
        if wire.tag == 0 {
            if wire.payload == 0 {
                Some(ReturnValue::Void)
            } else {
                None
            }
        } else {
            match FunctionParameter::spec_decode(
                WireValue { tag: (wire.tag - 1) as u8, payload: wire.payload },
            ) {
                Some(p) => Some(ReturnValue::spec_from_parameter(p)),
                None => None,
            }
        }
    }

    /// The tag of this result's kind.
    #[verifier::when_used_as_spec(spec_tag)]
    pub fn tag(&self) -> (tag: u8)
        ensures
            tag == self.spec_tag(),
    {
        match self.parameter() {
            Some(p) => p.tag() + 1,
            None => 0,
        }
    }

    /// The payload's bits; zero where there is no value.
    #[verifier::when_used_as_spec(spec_payload)]
    pub fn payload(&self) -> (payload: u64)
        ensures
            payload == self.spec_payload(),
    {
        match self.parameter() {
            Some(p) => p.payload(),
            None => 0,
        }
    }

    /// This result as it crosses the boundary.
    #[verifier::when_used_as_spec(spec_encode)]
    pub fn encode(&self) -> (wire: WireValue)
        ensures
            wire == self.spec_encode(),
    {
        WireValue { tag: self.tag(), payload: self.payload() }
    }

    /// The result that `wire` stands for. `None` for a tag outside the closed
    /// set of kinds, and for a payload with bits set that the kind does not
    /// have.
    pub fn decode(wire: WireValue) -> (r: Option<ReturnValue>)
        ensures
            r == ReturnValue::spec_decode(wire),
    {
        if wire.tag == 0 {
            if wire.payload == 0 {
                Some(ReturnValue::Void)
            } else {
                None
            }
        } else {
            match FunctionParameter::decode(WireValue { tag: wire.tag - 1, payload: wire.payload }) {
                Some(p) => Some(ReturnValue::from_parameter(p)),
                None => None,
            }
        }
    }

    /// Decoding what was encoded gives the result back.
    pub proof fn lemma_decode_encode(self)
        ensures
            ReturnValue::spec_decode(self.spec_encode()) == Some(self),
    {
        if let Some(p) = self.spec_parameter() {
            p.lemma_decode_encode();
        }
    }

    /// Whatever decodes to a result is that result's encoding: no two wire
    /// values stand for the same result.
    pub proof fn lemma_encode_decode(wire: WireValue)
        ensures
            ReturnValue::spec_decode(wire) matches Some(r) ==> r.spec_encode() == wire,
    {
        if wire.tag != 0 {
            FunctionParameter::lemma_encode_decode(
                WireValue { tag: (wire.tag - 1) as u8, payload: wire.payload },
            );
        }
    }
}

} // verus!

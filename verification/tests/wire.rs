use spisharp::wire::WireValue;
use spisharp::FunctionParameter;
use spisharp::ObjectId;
use spisharp::ReturnValue;

fn wire(tag: u8, payload: u64) -> WireValue {
    WireValue { tag, payload }
}

#[test]
fn parameter_tags_follow_the_declaration_order() {
    assert_eq!(FunctionParameter::Byte(0).tag(), 0);
    assert_eq!(FunctionParameter::Short(0).tag(), 1);
    assert_eq!(FunctionParameter::Int(0).tag(), 2);
    assert_eq!(FunctionParameter::Long(0).tag(), 3);
    assert_eq!(FunctionParameter::Bool(false).tag(), 4);
    assert_eq!(FunctionParameter::Float(0).tag(), 5);
    assert_eq!(FunctionParameter::Double(0).tag(), 6);
    assert_eq!(FunctionParameter::Char(0).tag(), 7);
    assert_eq!(FunctionParameter::Obj(ObjectId(0)).tag(), 8);
}

#[test]
fn return_tags_follow_the_declaration_order() {
    assert_eq!(ReturnValue::Void.tag(), 0);
    assert_eq!(ReturnValue::Byte(0).tag(), 1);
    assert_eq!(ReturnValue::Short(0).tag(), 2);
    assert_eq!(ReturnValue::Int(0).tag(), 3);
    assert_eq!(ReturnValue::Long(0).tag(), 4);
    assert_eq!(ReturnValue::Bool(false).tag(), 5);
    assert_eq!(ReturnValue::Float(0).tag(), 6);
    assert_eq!(ReturnValue::Double(0).tag(), 7);
    assert_eq!(ReturnValue::Char(0).tag(), 8);
    assert_eq!(ReturnValue::Obj(ObjectId(0)).tag(), 9);
}

#[test]
fn signed_payloads_are_twos_complement_of_their_width() {
    assert_eq!(FunctionParameter::Byte(-1).payload(), 0xFF);
    assert_eq!(FunctionParameter::Byte(i8::MIN).payload(), 0x80);
    assert_eq!(FunctionParameter::Byte(i8::MAX).payload(), 0x7F);
    assert_eq!(FunctionParameter::Short(-2).payload(), 0xFFFE);
    assert_eq!(FunctionParameter::Int(-1).payload(), 0xFFFF_FFFF);
    assert_eq!(FunctionParameter::Int(i32::MIN).payload(), 0x8000_0000);
    assert_eq!(FunctionParameter::Long(-1).payload(), u64::MAX);
    assert_eq!(FunctionParameter::Long(i64::MIN).payload(), 0x8000_0000_0000_0000);
    assert_eq!(FunctionParameter::Long(42).payload(), 42);
}

#[test]
fn payloads_agree_with_native_casts() {
    for v in [i8::MIN, -3, 0, 9, i8::MAX] {
        assert_eq!(FunctionParameter::Byte(v).payload(), v as u8 as u64);
    }
    for v in [i16::MIN, -3, 0, 9, i16::MAX] {
        assert_eq!(FunctionParameter::Short(v).payload(), v as u16 as u64);
    }
    for v in [i32::MIN, -3, 0, 9, i32::MAX] {
        assert_eq!(FunctionParameter::Int(v).payload(), v as u32 as u64);
    }
    for v in [i64::MIN, -3, 0, 9, i64::MAX] {
        assert_eq!(FunctionParameter::Long(v).payload(), v as u64);
    }
}

#[test]
fn other_payloads_are_the_value() {
    assert_eq!(FunctionParameter::Bool(true).payload(), 1);
    assert_eq!(FunctionParameter::Bool(false).payload(), 0);
    assert_eq!(FunctionParameter::Float(1.0f32.to_bits()).payload(), 0x3F80_0000);
    assert_eq!(FunctionParameter::Double(1.0f64.to_bits()).payload(), 0x3FF0_0000_0000_0000);
    assert_eq!(FunctionParameter::Char(0x41).payload(), 0x41);
    assert_eq!(FunctionParameter::Obj(ObjectId(77)).payload(), 77);
    assert_eq!(ReturnValue::Void.payload(), 0);
    assert_eq!(ReturnValue::Int(-1).payload(), 0xFFFF_FFFF);
}

#[test]
fn encode_gives_tag_and_payload() {
    assert_eq!(FunctionParameter::Int(360).encode(), wire(2, 360));
    assert_eq!(FunctionParameter::Short(-1).encode(), wire(1, 0xFFFF));
    assert_eq!(ReturnValue::Int(377).encode(), wire(3, 377));
    assert_eq!(ReturnValue::Void.encode(), wire(0, 0));
    assert_eq!(ReturnValue::Obj(ObjectId(9)).encode(), wire(9, 9));
}

#[test]
fn decode_reads_each_kind() {
    assert_eq!(FunctionParameter::decode(wire(0, 0xFF)), Some(FunctionParameter::Byte(-1)));
    assert_eq!(FunctionParameter::decode(wire(1, 0x8000)), Some(FunctionParameter::Short(i16::MIN)));
    assert_eq!(FunctionParameter::decode(wire(2, 5)), Some(FunctionParameter::Int(5)));
    assert_eq!(FunctionParameter::decode(wire(3, u64::MAX)), Some(FunctionParameter::Long(-1)));
    assert_eq!(FunctionParameter::decode(wire(4, 1)), Some(FunctionParameter::Bool(true)));
    assert_eq!(FunctionParameter::decode(wire(4, 0)), Some(FunctionParameter::Bool(false)));
    assert_eq!(FunctionParameter::decode(wire(5, 0x3F80_0000)), Some(FunctionParameter::Float(0x3F80_0000)));
    assert_eq!(FunctionParameter::decode(wire(6, u64::MAX)), Some(FunctionParameter::Double(u64::MAX)));
    assert_eq!(FunctionParameter::decode(wire(7, 0xFFFF)), Some(FunctionParameter::Char(0xFFFF)));
    assert_eq!(FunctionParameter::decode(wire(8, 12)), Some(FunctionParameter::Obj(ObjectId(12))));
    assert_eq!(ReturnValue::decode(wire(0, 0)), Some(ReturnValue::Void));
    assert_eq!(ReturnValue::decode(wire(3, 5)), Some(ReturnValue::Int(5)));
    assert_eq!(ReturnValue::decode(wire(9, 12)), Some(ReturnValue::Obj(ObjectId(12))));
}

#[test]
fn decode_refuses_a_tag_outside_the_set() {
    assert_eq!(FunctionParameter::decode(wire(9, 0)), None);
    assert_eq!(FunctionParameter::decode(wire(255, 0)), None);
    assert_eq!(ReturnValue::decode(wire(10, 0)), None);
    assert_eq!(ReturnValue::decode(wire(255, 0)), None);
}

#[test]
fn decode_refuses_bits_above_the_width() {
    assert_eq!(FunctionParameter::decode(wire(0, 0x100)), None);
    assert_eq!(FunctionParameter::decode(wire(1, 0x1_0000)), None);
    assert_eq!(FunctionParameter::decode(wire(2, 0x1_0000_0000)), None);
    assert_eq!(FunctionParameter::decode(wire(4, 2)), None);
    assert_eq!(FunctionParameter::decode(wire(5, 0x1_0000_0000)), None);
    assert_eq!(FunctionParameter::decode(wire(7, 0x1_0000)), None);
    assert_eq!(ReturnValue::decode(wire(0, 1)), None);
    assert_eq!(ReturnValue::decode(wire(1, 0x100)), None);
}

#[test]
fn decode_undoes_encode() {
    let parameters = [
        FunctionParameter::Byte(-77),
        FunctionParameter::Short(-30000),
        FunctionParameter::Int(i32::MIN),
        FunctionParameter::Long(i64::MAX),
        FunctionParameter::Bool(true),
        FunctionParameter::Float(f32::NAN.to_bits()),
        FunctionParameter::Double(f64::INFINITY.to_bits()),
        FunctionParameter::Char(0xFFFE),
        FunctionParameter::Obj(ObjectId(0)),
    ];
    for p in parameters {
        assert_eq!(FunctionParameter::decode(p.encode()), Some(p));
        let r = ReturnValue::from_parameter(p);
        assert_eq!(ReturnValue::decode(r.encode()), Some(r));
        assert_eq!(r.encode().tag, p.encode().tag + 1);
        assert_eq!(r.encode().payload, p.encode().payload);
    }
    assert_eq!(ReturnValue::decode(ReturnValue::Void.encode()), Some(ReturnValue::Void));
}

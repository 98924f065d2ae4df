use sigma_tree::expr::Constant;
use sigma_tree::expr::Expr;
use sigma_tree::expr::GlobalVars;
use sigma_tree::expr::InvalidArgumentError;
use sigma_tree::extract_amount::ExtractAmount;
use sigma_tree::byte_array_to_bigint::ByteArrayToBigInt;
use sigma_tree::decode_point::DecodePoint;
use sigma_tree::serialization::sigma_parse;
use sigma_tree::serialization::sigma_serialize;
use sigma_tree::serialization::SerializationError;
use sigma_tree::serialization::SigmaSerializationError;
use sigma_tree::stype::SType;

fn roundtrip(e: &Expr) -> Expr {
    let bytes = sigma_serialize(e).unwrap();
    sigma_parse(&bytes).unwrap()
}

#[test]
fn ser_roundtrip() {
    let e: Expr = Expr::ExtractAmount(ExtractAmount {
        input: Box::new(Expr::GlobalVars(GlobalVars::SelfBox)),
    });
    assert_eq![roundtrip(&e), e];
}

#[test]
fn ser_roundtrip_const_bytes() {
    let e = Expr::Const(Constant { bytes: vec![0x01, 0x02] });
    assert_eq!(roundtrip(&e), e);
}

#[test]
fn ser_roundtrip_self_box() {
    let e = Expr::GlobalVars(GlobalVars::SelfBox);
    assert_eq!(roundtrip(&e), e);
}

#[test]
fn ser_roundtrip_byte_array_to_bigint() {
    let operand = Expr::Const(Constant { bytes: vec![0x01, 0x02] });
    let node = ByteArrayToBigInt::try_build(operand).unwrap();
    assert_eq!(node.tpe(), SType::SBigInt);
    let e = Expr::ByteArrayToBigInt(node);
    assert_eq!(roundtrip(&e), e);
}

#[test]
fn ser_roundtrip_decode_point() {
    let operand = Expr::Const(Constant { bytes: vec![0x02, 0x97] });
    let node = DecodePoint::try_build(operand).unwrap();
    assert_eq!(node.tpe(), SType::SGroupElement);
    let e = Expr::DecodePoint(node);
    assert_eq!(roundtrip(&e), e);
}

#[test]
fn ser_roundtrip_empty_const() {
    let e = Expr::Const(Constant { bytes: vec![] });
    assert_eq!(roundtrip(&e), e);
}

#[test]
fn ser_roundtrip_large_const() {
    let e = Expr::Const(Constant { bytes: vec![0xAB; 0xFFFF] });
    assert_eq!(roundtrip(&e), e);
}

#[test]
fn serialize_rejects_oversized_const() {
    let e = Expr::Const(Constant { bytes: vec![0u8; 0x10000] });
    assert_eq!(sigma_serialize(&e), Err(SigmaSerializationError::OutOfBounds));
}

#[test]
fn parse_rejects_unknown_opcode() {
    // no variant is registered under tag 0
    let bytes = vec![0u8];
    assert_eq!(sigma_parse(&bytes), Err(SerializationError::InvalidOpCode(0)));
}

#[test]
fn parse_rejects_empty_input() {
    let bytes: Vec<u8> = vec![];
    assert_eq!(sigma_parse(&bytes), Err(SerializationError::UnexpectedEof));
}

#[test]
fn parse_rejects_truncated_const() {
    // a two-byte literal announced, only one byte present
    let bytes = vec![14u8, 0, 2, 1];
    assert_eq!(sigma_parse(&bytes), Err(SerializationError::UnexpectedEof));
}

#[test]
fn parse_rejects_trailing_bytes() {
    let mut bytes = sigma_serialize(&Expr::GlobalVars(GlobalVars::SelfBox)).unwrap();
    bytes.push(0);
    assert_eq!(sigma_parse(&bytes), Err(SerializationError::TrailingBytes));
}

#[test]
fn parse_rejects_ill_typed_tree() {
    // amount extraction over a byte-collection literal
    let bytes = vec![129u8, 14, 0, 1, 42];
    assert_eq!(
        sigma_parse(&bytes),
        Err(SerializationError::InvalidArgument(InvalidArgumentError {
            expected: SType::SBox,
            actual: SType::SColl(Box::new(SType::SByte)),
        }))
    );
}

#[test]
fn serialized_form_is_opcode_then_operands() {
    let e = Expr::ExtractAmount(ExtractAmount {
        input: Box::new(Expr::GlobalVars(GlobalVars::SelfBox)),
    });
    assert_eq!(sigma_serialize(&e).unwrap(), vec![129u8, 167]);
    let lit = Expr::Const(Constant { bytes: vec![0x01, 0x02] });
    assert_eq!(sigma_serialize(&lit).unwrap(), vec![14u8, 0, 2, 1, 2]);
}

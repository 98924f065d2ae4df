use sigma_tree::expr::Constant;
use sigma_tree::expr::Expr;
use sigma_tree::expr::GlobalVars;
use sigma_tree::extract_amount::ExtractAmount;
use sigma_tree::byte_array_to_bigint::ByteArrayToBigInt;
use sigma_tree::decode_point::DecodePoint;
use sigma_tree::stype::SType;

fn byte_coll_literal() -> Expr {
    Expr::Const(Constant { bytes: vec![0x01, 0x02] })
}

fn self_box() -> Expr {
    Expr::GlobalVars(GlobalVars::SelfBox)
}

#[test]
fn extract_amount_requires_box_operand() {
    // a byte-collection operand is rejected, and no node is produced
    let r = ExtractAmount::try_build(byte_coll_literal());
    let e = r.unwrap_err();
    assert_eq!(e.expected, SType::SBox);
    assert_eq!(e.actual, SType::SColl(Box::new(SType::SByte)));
}

#[test]
fn extract_amount_builds_from_box_operand() {
    let node = ExtractAmount::try_build(self_box()).unwrap();
    assert_eq!(node.tpe(), SType::SLong);
    assert_eq!(*node.input(), self_box());
}

#[test]
fn byte_array_to_bigint_requires_byte_coll_operand() {
    let r = ByteArrayToBigInt::try_build(self_box());
    let e = r.unwrap_err();
    assert_eq!(e.expected, SType::SColl(Box::new(SType::SByte)));
    assert_eq!(e.actual, SType::SBox);
}

#[test]
fn byte_array_to_bigint_builds_from_byte_coll_operand() {
    let node = ByteArrayToBigInt::try_build(byte_coll_literal()).unwrap();
    assert_eq!(node.tpe(), SType::SBigInt);
    assert_eq!(*node.input(), byte_coll_literal());
}

#[test]
fn decode_point_requires_byte_coll_operand() {
    let r = DecodePoint::try_build(self_box());
    let e = r.unwrap_err();
    assert_eq!(e.expected, SType::SColl(Box::new(SType::SByte)));
    assert_eq!(e.actual, SType::SBox);
}

#[test]
fn decode_point_builds_from_byte_coll_operand() {
    let node = DecodePoint::try_build(byte_coll_literal()).unwrap();
    assert_eq!(node.tpe(), SType::SGroupElement);
}

#[test]
fn operators_reject_operand_of_wrong_collection_type() {
    // a nested operator node is not a byte collection either
    let nested = Expr::ByteArrayToBigInt(
        ByteArrayToBigInt::try_build(byte_coll_literal()).unwrap(),
    );
    let r = ByteArrayToBigInt::try_build(nested);
    let e = r.unwrap_err();
    assert_eq!(e.actual, SType::SBigInt);
}

#[test]
fn expression_types() {
    assert_eq!(byte_coll_literal().tpe(), SType::SColl(Box::new(SType::SByte)));
    assert_eq!(self_box().tpe(), SType::SBox);
    assert_eq!(byte_coll_literal().post_eval_tpe(), SType::SColl(Box::new(SType::SByte)));
}

#[test]
fn structural_type_equality() {
    assert!(SType::SLong.s_eq(&SType::SLong));
    assert!(!SType::SLong.s_eq(&SType::SInt));
    assert!(SType::byte_coll().s_eq(&SType::SColl(Box::new(SType::SByte))));
    assert!(!SType::byte_coll().s_eq(&SType::SColl(Box::new(SType::SInt))));
    let nested = SType::SColl(Box::new(SType::SColl(Box::new(SType::SByte))));
    assert!(nested.s_eq(&nested.dup()));
    assert!(!nested.s_eq(&SType::byte_coll()));
}

#[test]
fn opcodes_are_pairwise_distinct() {
    let exprs = vec![
        byte_coll_literal(),
        self_box(),
        Expr::ByteArrayToBigInt(ByteArrayToBigInt::try_build(byte_coll_literal()).unwrap()),
        Expr::DecodePoint(DecodePoint::try_build(byte_coll_literal()).unwrap()),
        Expr::ExtractAmount(ExtractAmount::try_build(self_box()).unwrap()),
    ];
    for i in 0..exprs.len() {
        for j in 0..exprs.len() {
            if i != j {
                assert_ne!(exprs[i].op_code().value(), exprs[j].op_code().value());
            }
        }
    }
}

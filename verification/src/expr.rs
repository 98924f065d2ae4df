//! Typed expression tree.
//!
//! Every node variant carries its operand sub-expressions by exclusive
//! ownership, exposes a result type derived purely from its own kind, and
//! exposes its opcode. The validating constructors (`try_build` on the
//! operator types) are the only intended way to produce operator nodes, so
//! every tree built through them is well-typed.

use vstd::prelude::*;

use crate::byte_array_to_bigint::ByteArrayToBigInt;
use crate::decode_point::DecodePoint;
use crate::extract_amount::ExtractAmount;
use crate::opcode::OpCode;
use crate::opcode::OP_BYTE_ARRAY_TO_BIGINT;
use crate::opcode::OP_CONST_BYTES;
use crate::opcode::OP_DECODE_POINT;
use crate::opcode::OP_EXTRACT_AMOUNT;
use crate::opcode::OP_SELF_BOX;
use crate::stype::SType;

verus! {

/// A collection-of-byte literal. Its result type is always
/// "collection of byte".
#[derive(PartialEq, Eq, Debug)]
pub struct Constant {
    /// The literal bytes.
    pub bytes: Vec<u8>,
}

impl Constant {
    /// Result type of the literal: collection of byte.
    pub fn tpe(&self) -> (r: SType)
        ensures
            r == SType::SColl(Box::new(SType::SByte)),
    {
        SType::byte_coll()
    }
}

/// Predefined global variables available to scripts.
#[derive(PartialEq, Eq, Debug)]
pub enum GlobalVars {
    /// The box whose guarding script is being evaluated. Type: box.
    SelfBox,
}

impl GlobalVars {
    /// Result type of the global variable.
    pub fn tpe(&self) -> (r: SType)
        ensures
            r == SType::SBox,
    {
        SType::SBox
    }

    /// Opcode of the global variable.
    pub fn op_code(&self) -> (r: OpCode)
        ensures
            r == OpCode(OP_SELF_BOX),
    {
        OpCode(OP_SELF_BOX)
    }
}

/// An expression of the scripting language: a closed set of node
/// variants forming an exclusively owned tree.
#[derive(PartialEq, Eq, Debug)]
pub enum Expr {
    /// Collection-of-byte literal
    Const(Constant),
    /// Predefined global variable
    GlobalVars(GlobalVars),
    /// Byte-array-to-big-integer conversion
    ByteArrayToBigInt(ByteArrayToBigInt),
    /// EC-point decoding
    DecodePoint(DecodePoint),
    /// Box-amount extraction
    ExtractAmount(ExtractAmount),
}

/// Mathematical model of an expression tree: the same variants with the
/// literal's bytes abstracted to a sequence.
pub enum ExprV {
    /// Collection-of-byte literal
    Const(Seq<u8>),
    /// The "self box" global variable
    SelfBox,
    /// Byte-array-to-big-integer conversion
    ByteArrayToBigInt(Box<ExprV>),
    /// EC-point decoding
    DecodePoint(Box<ExprV>),
    /// Box-amount extraction
    ExtractAmount(Box<ExprV>),
}

/// The model of an expression value.
pub open spec fn view_expr(e: Expr) -> ExprV
    decreases e,
{
    match e {
        Expr::Const(c) => ExprV::Const(c.bytes@),
        Expr::GlobalVars(_) => ExprV::SelfBox,
        Expr::ByteArrayToBigInt(n) => ExprV::ByteArrayToBigInt(Box::new(view_expr(*n.input))),
        Expr::DecodePoint(n) => ExprV::DecodePoint(Box::new(view_expr(*n.input))),
        Expr::ExtractAmount(n) => ExprV::ExtractAmount(Box::new(view_expr(*n.input))),
    }
}

/// Result type of an expression: a pure function of its top variant,
/// never of operand values.
pub open spec fn tpe_of(e: ExprV) -> SType {
    match e {
        ExprV::Const(_) => SType::SColl(Box::new(SType::SByte)),
        ExprV::SelfBox => SType::SBox,
        ExprV::ByteArrayToBigInt(_) => SType::SBigInt,
        ExprV::DecodePoint(_) => SType::SGroupElement,
        ExprV::ExtractAmount(_) => SType::SLong,
    }
}

/// Opcode of an expression: a pure function of its top variant.
pub open spec fn op_code_of(e: ExprV) -> OpCode {
    match e {
        ExprV::Const(_) => OpCode(OP_CONST_BYTES),
        ExprV::SelfBox => OpCode(OP_SELF_BOX),
        ExprV::ByteArrayToBigInt(_) => OpCode(OP_BYTE_ARRAY_TO_BIGINT),
        ExprV::DecodePoint(_) => OpCode(OP_DECODE_POINT),
        ExprV::ExtractAmount(_) => OpCode(OP_EXTRACT_AMOUNT),
    }
}

/// Whether two expressions are of the same variant.
pub open spec fn same_kind(a: ExprV, b: ExprV) -> bool {
    match (a, b) {
        (ExprV::Const(_), ExprV::Const(_)) => true,
        (ExprV::SelfBox, ExprV::SelfBox) => true,
        (ExprV::ByteArrayToBigInt(_), ExprV::ByteArrayToBigInt(_)) => true,
        (ExprV::DecodePoint(_), ExprV::DecodePoint(_)) => true,
        (ExprV::ExtractAmount(_), ExprV::ExtractAmount(_)) => true,
        _ => false,
    }
}

/// Opcode injectivity: no two distinct expression variants share an
/// opcode value, so parsing a given opcode dispatches to exactly one
/// variant.
pub proof fn lemma_op_code_injective(a: ExprV, b: ExprV)
    ensures
        op_code_of(a) == op_code_of(b) <==> same_kind(a, b),
{
}

/// An expression is well-typed when every operator node's operand has
/// exactly the operand type that the operator requires: collection of
/// byte for the byte-array conversions and for point decoding, box for
/// amount extraction.
pub open spec fn well_typed(e: ExprV) -> bool
    decreases e,
{
    match e {
        ExprV::Const(_) => true,
        ExprV::SelfBox => true,
        ExprV::ByteArrayToBigInt(i) => well_typed(*i) && tpe_of(*i) == SType::SColl(
            Box::new(SType::SByte),
        ),
        ExprV::DecodePoint(i) => well_typed(*i) && tpe_of(*i) == SType::SColl(
            Box::new(SType::SByte),
        ),
        ExprV::ExtractAmount(i) => well_typed(*i) && tpe_of(*i) == SType::SBox,
    }
}

/// Type error raised when an operand's statically known type does not
/// satisfy a variant's required input type at construction time.
#[derive(PartialEq, Eq, Debug)]
pub struct InvalidArgumentError {
    /// The type the variant requires its operand to have.
    pub expected: SType,
    /// The type the operand actually has.
    pub actual: SType,
}

impl Expr {
    /// Result type of this expression.
    pub fn tpe(&self) -> (r: SType)
        ensures
            r == tpe_of(view_expr(*self)),
    {
        match self {
            Expr::Const(c) => c.tpe(),
            Expr::GlobalVars(g) => g.tpe(),
            Expr::ByteArrayToBigInt(n) => n.tpe(),
            Expr::DecodePoint(n) => n.tpe(),
            Expr::ExtractAmount(n) => n.tpe(),
        }
    }

    /// Type this expression evaluates to. In this closed variant set no
    /// expression denotes a function, so it coincides with the result
    /// type.
    pub fn post_eval_tpe(&self) -> (r: SType)
        ensures
            r == tpe_of(view_expr(*self)),
    {
        self.tpe()
    }

    /// Opcode of this expression's top variant.
    pub fn op_code(&self) -> (r: OpCode)
        ensures
            r == op_code_of(view_expr(*self)),
    {
        match self {
            Expr::Const(_) => OpCode(OP_CONST_BYTES),
            Expr::GlobalVars(g) => g.op_code(),
            Expr::ByteArrayToBigInt(n) => n.op_code(),
            Expr::DecodePoint(n) => n.op_code(),
            Expr::ExtractAmount(n) => n.op_code(),
        }
    }

    /// Checks that this expression evaluates to the expected type, and
    /// reports expected vs. actual type otherwise. Both the "build from
    /// typed sub-expressions" path and the "parse from bytes" path
    /// funnel through this check.
    pub fn check_post_eval_tpe(&self, expected: &SType) -> (r: Result<
        (),
        InvalidArgumentError,
    >)
        ensures
            r is Ok <==> tpe_of(view_expr(*self)) == *expected,
            r matches Err(e) ==> e == (InvalidArgumentError {
                expected: *expected,
                actual: tpe_of(view_expr(*self)),
            }),
    {
        let actual = self.post_eval_tpe();
        if actual.s_eq(expected) {
            Ok(())
        } else {
            Err(InvalidArgumentError { expected: expected.dup(), actual })
        }
    }

    /// A copy of this expression, modelled by the same tree.
    pub fn dup(&self) -> (r: Expr)
        ensures
            view_expr(r) == view_expr(*self),
        decreases self,
    {
        match self {
            Expr::Const(c) => Expr::Const(Constant { bytes: crate::bytes::dup_bytes(&c.bytes) }),
            Expr::GlobalVars(_) => Expr::GlobalVars(GlobalVars::SelfBox),
            Expr::ByteArrayToBigInt(n) => Expr::ByteArrayToBigInt(
                ByteArrayToBigInt { input: Box::new(n.input.dup()) },
            ),
            Expr::DecodePoint(n) => Expr::DecodePoint(
                DecodePoint { input: Box::new(n.input.dup()) },
            ),
            Expr::ExtractAmount(n) => Expr::ExtractAmount(
                ExtractAmount { input: Box::new(n.input.dup()) },
            ),
        }
    }
}

} // verus!

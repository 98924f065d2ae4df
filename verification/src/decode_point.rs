//! EC-point decoding operator.

use vstd::prelude::*;

use crate::expr::tpe_of;
use crate::expr::view_expr;
use crate::expr::Expr;
use crate::expr::InvalidArgumentError;
use crate::opcode::OpCode;
use crate::opcode::OP_DECODE_POINT;
use crate::stype::SType;

verus! {

/// Decode a byte collection (the compressed form of an EC point) to a
/// group element. The operand must evaluate to a collection of byte; the
/// result is a group element.
///
/// On the wire this node's own body is transparent: after its opcode it
/// contributes no bytes of its own and defers entirely to its operand's
/// serialization, so reading the operand fully reconstructs the node.
#[derive(PartialEq, Eq, Debug)]
pub struct DecodePoint {
    /// Byte array to be decoded
    pub input: Box<Expr>,
}

impl DecodePoint {
    /// Result type: group element.
    pub fn tpe(&self) -> (r: SType)
        ensures
            r == SType::SGroupElement,
    {
        SType::SGroupElement
    }

    /// Opcode of this operator.
    pub fn op_code(&self) -> (r: OpCode)
        ensures
            r == OpCode(OP_DECODE_POINT),
    {
        OpCode(OP_DECODE_POINT)
    }

    /// The single operand.
    pub fn input(&self) -> (r: &Expr)
        ensures
            *r == *self.input,
    {
        &self.input
    }

    /// The only way to produce this node: succeeds exactly when the
    /// operand evaluates to a collection of byte, and fails with a type
    /// error reporting expected vs. actual type otherwise.
    pub fn try_build(input: Expr) -> (r: Result<DecodePoint, InvalidArgumentError>)
        ensures
            r is Ok <==> tpe_of(view_expr(input)) == SType::SColl(Box::new(SType::SByte)),
            r matches Ok(n) ==> *n.input == input,
            r matches Err(e) ==> e == (InvalidArgumentError {
                expected: SType::SColl(Box::new(SType::SByte)),
                actual: tpe_of(view_expr(input)),
            }),
    {
        match input.check_post_eval_tpe(&SType::byte_coll()) {
            Ok(()) => Ok(DecodePoint { input: Box::new(input) }),
            Err(e) => Err(e),
        }
    }
}

} // verus!

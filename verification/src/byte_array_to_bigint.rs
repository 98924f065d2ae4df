//! Byte-array-to-big-integer conversion operator.

use vstd::prelude::*;

use crate::expr::tpe_of;
use crate::expr::view_expr;
use crate::expr::Expr;
use crate::expr::InvalidArgumentError;
use crate::opcode::OpCode;
use crate::opcode::OP_BYTE_ARRAY_TO_BIGINT;
use crate::stype::SType;

verus! {

/// Convert a byte collection to a big integer. The operand must evaluate
/// to a collection of byte; the result is a big integer.
#[derive(PartialEq, Eq, Debug)]
pub struct ByteArrayToBigInt {
    /// Byte array (expression of type collection of byte)
    pub input: Box<Expr>,
}

impl ByteArrayToBigInt {
    /// Result type: big integer.
    pub fn tpe(&self) -> (r: SType)
        ensures
            r == SType::SBigInt,
    {
        SType::SBigInt
    }

    /// Opcode of this operator.
    pub fn op_code(&self) -> (r: OpCode)
        ensures
            r == OpCode(OP_BYTE_ARRAY_TO_BIGINT),
    {
        OpCode(OP_BYTE_ARRAY_TO_BIGINT)
    }

    /// The single operand.
    pub fn input(&self) -> (r: &Expr)
        ensures
            *r == *self.input,
    {
        &self.input
    }

    /// The only way to produce this node: succeeds exactly when the
    /// operand evaluates to a collection of byte, and fails with a type
    /// error reporting expected vs. actual type otherwise.
    pub fn try_build(input: Expr) -> (r: Result<ByteArrayToBigInt, InvalidArgumentError>)
        ensures
            r is Ok <==> tpe_of(view_expr(input)) == SType::SColl(Box::new(SType::SByte)),
            r matches Ok(n) ==> *n.input == input,
            r matches Err(e) ==> e == (InvalidArgumentError {
                expected: SType::SColl(Box::new(SType::SByte)),
                actual: tpe_of(view_expr(input)),
            }),
    {
        match input.check_post_eval_tpe(&SType::byte_coll()) {
            Ok(()) => Ok(ByteArrayToBigInt { input: Box::new(input) }),
            Err(e) => Err(e),
        }
    }
}

} // verus!

//! Box-amount extraction operator.

use vstd::prelude::*;

use crate::expr::tpe_of;
use crate::expr::view_expr;
use crate::expr::Expr;
use crate::expr::ExprV;
use crate::expr::InvalidArgumentError;
use crate::opcode::OpCode;
use crate::opcode::OP_EXTRACT_AMOUNT;
use crate::stype::SType;

verus! {

/// Box value: extracts the monetary value guarded by a box. The operand
/// must evaluate to a box; the result is a long integer.
#[derive(PartialEq, Eq, Debug)]
pub struct ExtractAmount {
    /// Box (box-typed expression)
    pub input: Box<Expr>,
}

impl ExtractAmount {
    /// Result type: long integer.
    pub fn tpe(&self) -> (r: SType)
        ensures
            r == SType::SLong,
    {
        SType::SLong
    }

    /// Opcode of this operator.
    pub fn op_code(&self) -> (r: OpCode)
        ensures
            r == OpCode(OP_EXTRACT_AMOUNT),
    {
        OpCode(OP_EXTRACT_AMOUNT)
    }

    /// The single operand.
    pub fn input(&self) -> (r: &Expr)
        ensures
            *r == *self.input,
    {
        &self.input
    }

    /// The only way to produce this node: succeeds exactly when the
    /// operand evaluates to a box, and fails with a type error reporting
    /// expected vs. actual type otherwise.
    pub fn try_build(input: Expr) -> (r: Result<ExtractAmount, InvalidArgumentError>)
        ensures
            r is Ok <==> tpe_of(view_expr(input)) == SType::SBox,
            r matches Ok(n) ==> *n.input == input,
            r matches Err(e) ==> e == (InvalidArgumentError {
                expected: SType::SBox,
                actual: tpe_of(view_expr(input)),
            }),
    {
        match input.check_post_eval_tpe(&SType::SBox) {
            Ok(()) => Ok(ExtractAmount { input: Box::new(input) }),
            Err(e) => Err(e),
        }
    }
}

} // verus!

//! Box candidates: outputs-to-be of a transaction.

use vstd::prelude::*;

use crate::bytes::dup_bytes;
use crate::expr::view_expr;
use crate::expr::Expr;
use crate::expr::ExprV;
use crate::input::MAX_TX_FIELD_LEN;
use crate::serialization::expr_wf;

verus! {

/// Model of a box candidate: its value, its guarding script and its
/// serialized auxiliary registers.
pub struct BoxCandidateV {
    /// Monetary value
    pub value: u64,
    /// Guarding script
    pub script: ExprV,
    /// Serialized auxiliary registers
    pub registers: Seq<u8>,
}

/// An output-to-be: a monetary value, a script guarding its spending, and
/// auxiliary registers (held in their serialized form). Immutable once
/// included in a transaction.
#[derive(PartialEq, Eq, Debug)]
pub struct ErgoBoxCandidate {
    /// Monetary value carried by the box
    pub value: u64,
    /// Expression tree guarding spending of the box
    pub script: Expr,
    /// Serialized auxiliary registers
    pub additional_registers: Vec<u8>,
}

impl View for ErgoBoxCandidate {
    type V = BoxCandidateV;

    open spec fn view(&self) -> BoxCandidateV {
        BoxCandidateV {
            value: self.value,
            script: view_expr(self.script),
            registers: self.additional_registers@,
        }
    }
}

/// Whether a box candidate fits the wire format: its script's literals
/// and its registers fit their length fields.
pub open spec fn box_wf(b: BoxCandidateV) -> bool {
    expr_wf(b.script) && b.registers.len() <= MAX_TX_FIELD_LEN
}

impl Clone for ErgoBoxCandidate {
    fn clone(&self) -> (r: Self)
        ensures
            r@ == self@,
    {
        ErgoBoxCandidate {
            value: self.value,
            script: self.script.dup(),
            additional_registers: dup_bytes(&self.additional_registers),
        }
    }
}

} // verus!

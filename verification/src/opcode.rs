//! Stable operation-code registry.
//!
//! Each expression variant owns one fixed numeric tag used on the wire.
//! The registry is append-only: a tag, once assigned, is never reused or
//! renumbered, since every serialized program and every historical
//! transaction hash depends on it.

use vstd::prelude::*;

verus! {

/// Fixed-width (one byte) numeric tag identifying an expression variant
/// on the wire.
#[derive(PartialEq, Eq, Structural, Clone, Copy, Debug)]
pub struct OpCode(pub u8);

/// Tag of a collection-of-byte constant.
pub const OP_CONST_BYTES: u8 = 14;

/// Tag of the byte-array-to-big-integer conversion operator.
pub const OP_BYTE_ARRAY_TO_BIGINT: u8 = 122;

/// Tag of the box-amount-extraction operator.
pub const OP_EXTRACT_AMOUNT: u8 = 129;

/// Tag of the EC-point-decoding operator.
pub const OP_DECODE_POINT: u8 = 148;

/// Tag of the "self box" global variable.
pub const OP_SELF_BOX: u8 = 167;

impl OpCode {
    /// The raw one-byte value of this tag.
    pub fn value(&self) -> (r: u8)
        ensures
            r == self.0,
    {
        self.0
    }
}

} // verus!

//! Semantic types of the scripting language.

use vstd::prelude::*;

verus! {

/// A semantic type of the scripting language: primitive scalars,
/// collections (which nest recursively), boxes, group elements and
/// sigma propositions. Types are immutable and compared structurally.
#[derive(PartialEq, Eq, Debug)]
pub enum SType {
    /// Signed 8-bit integer
    SByte,
    /// Signed 16-bit integer
    SShort,
    /// Signed 32-bit integer
    SInt,
    /// Signed 64-bit integer
    SLong,
    /// 256-bit signed big integer
    SBigInt,
    /// Boolean
    SBoolean,
    /// Collection of elements of the given type
    SColl(Box<SType>),
    /// A box (unspent-output analogue): value plus guarding script
    SBox,
    /// Elliptic-curve group element
    SGroupElement,
    /// Sigma proposition (outcome of a sigma protocol statement)
    SSigmaProp,
}

impl SType {
    /// Structural equality of two types. Collections are equal exactly
    /// when their element types are equal.
    pub fn s_eq(&self, other: &SType) -> (r: bool)
        ensures
            r <==> *self == *other,
        decreases self,
    {
        match (self, other) {
            (SType::SByte, SType::SByte) => true,
            (SType::SShort, SType::SShort) => true,
            (SType::SInt, SType::SInt) => true,
            (SType::SLong, SType::SLong) => true,
            (SType::SBigInt, SType::SBigInt) => true,
            (SType::SBoolean, SType::SBoolean) => true,
            (SType::SColl(a), SType::SColl(b)) => a.s_eq(b),
            (SType::SBox, SType::SBox) => true,
            (SType::SGroupElement, SType::SGroupElement) => true,
            (SType::SSigmaProp, SType::SSigmaProp) => true,
            _ => false,
        }
    }

    /// A copy of this type, structurally equal to the original.
    pub fn dup(&self) -> (r: SType)
        ensures
            r == *self,
        decreases self,
    {
        match self {
            SType::SByte => SType::SByte,
            SType::SShort => SType::SShort,
            SType::SInt => SType::SInt,
            SType::SLong => SType::SLong,
            SType::SBigInt => SType::SBigInt,
            SType::SBoolean => SType::SBoolean,
            SType::SColl(a) => SType::SColl(Box::new(a.dup())),
            SType::SBox => SType::SBox,
            SType::SGroupElement => SType::SGroupElement,
            SType::SSigmaProp => SType::SSigmaProp,
        }
    }

    /// The type "collection of byte", the operand type required by the
    /// byte-array operators.
    pub fn byte_coll() -> (r: SType)
        ensures
            r == SType::SColl(Box::new(SType::SByte)),
    {
        SType::SColl(Box::new(SType::SByte))
    }
}

} // verus!

//! Box references, spending proofs and transaction inputs.

use vstd::prelude::*;

use crate::bytes::dup_bytes;
use crate::digest32::DIGEST_LEN;

verus! {

/// Largest payload of a length-prefixed wire field of the transaction
/// format (its length field is two bytes wide).
pub const MAX_TX_FIELD_LEN: usize = 0xFFFF;

/// Identifier of a previously created box: a 256-bit content-addressed
/// digest.
#[derive(PartialEq, Eq, Debug)]
pub struct BoxId {
    bytes: Vec<u8>,
}

impl View for BoxId {
    type V = Seq<u8>;

    closed spec fn view(&self) -> Seq<u8> {
        self.bytes@
    }
}

impl BoxId {
    #[verifier::type_invariant]
    spec fn type_inv(self) -> bool {
        self.bytes@.len() == DIGEST_LEN
    }

    /// A box identifier from its 32 digest bytes; rejects any other
    /// length.
    pub fn from_bytes(bytes: Vec<u8>) -> (r: Option<BoxId>)
        ensures
            r is Some <==> bytes@.len() == DIGEST_LEN,
            r matches Some(b) ==> b@ == bytes@,
    {
        if bytes.len() == DIGEST_LEN {
            Some(BoxId { bytes })
        } else {
            None
        }
    }

    /// The digest bytes of this identifier (always 32 of them).
    pub fn as_bytes(&self) -> (r: &Vec<u8>)
        ensures
            r@ == self@,
            r@.len() == DIGEST_LEN,
    {
        proof {
            use_type_invariant(self);
        }
        &self.bytes
    }
}

impl Clone for BoxId {
    fn clone(&self) -> (r: Self)
        ensures
            r@ == self@,
    {
        proof {
            use_type_invariant(self);
        }
        BoxId { bytes: dup_bytes(&self.bytes) }
    }
}

/// User-defined context data that an input carries for its script,
/// held here in its serialized form.
#[derive(PartialEq, Eq, Debug)]
pub struct ContextExtension {
    bytes: Vec<u8>,
}

impl View for ContextExtension {
    type V = Seq<u8>;

    closed spec fn view(&self) -> Seq<u8> {
        self.bytes@
    }
}

impl ContextExtension {
    #[verifier::type_invariant]
    spec fn type_inv(self) -> bool {
        self.bytes@.len() <= MAX_TX_FIELD_LEN
    }

    /// The empty extension.
    pub fn empty() -> (r: ContextExtension)
        ensures
            r@ == Seq::<u8>::empty(),
    {
        ContextExtension { bytes: Vec::new() }
    }

    /// An extension from its serialized bytes; rejects a payload too long
    /// for the wire format.
    pub fn from_bytes(bytes: Vec<u8>) -> (r: Option<ContextExtension>)
        ensures
            r is Some <==> bytes@.len() <= MAX_TX_FIELD_LEN,
            r matches Some(e) ==> e@ == bytes@,
    {
        if bytes.len() <= MAX_TX_FIELD_LEN {
            Some(ContextExtension { bytes })
        } else {
            None
        }
    }

    /// The serialized bytes of this extension.
    pub fn as_bytes(&self) -> (r: &Vec<u8>)
        ensures
            r@ == self@,
            r@.len() <= MAX_TX_FIELD_LEN,
    {
        proof {
            use_type_invariant(self);
        }
        &self.bytes
    }
}

impl Clone for ContextExtension {
    fn clone(&self) -> (r: Self)
        ensures
            r@ == self@,
    {
        proof {
            use_type_invariant(self);
        }
        ContextExtension { bytes: dup_bytes(&self.bytes) }
    }
}

/// Opaque proof bytes produced by the external prover. The library never
/// inspects their content, only whether any are present: no bytes means
/// no proof.
#[derive(PartialEq, Eq, Debug)]
pub struct ProofBytes {
    bytes: Vec<u8>,
}

impl View for ProofBytes {
    type V = Seq<u8>;

    closed spec fn view(&self) -> Seq<u8> {
        self.bytes@
    }
}

impl ProofBytes {
    #[verifier::type_invariant]
    spec fn type_inv(self) -> bool {
        self.bytes@.len() <= MAX_TX_FIELD_LEN
    }

    /// The empty-proof placeholder.
    pub fn empty() -> (r: ProofBytes)
        ensures
            r@ == Seq::<u8>::empty(),
    {
        ProofBytes { bytes: Vec::new() }
    }

    /// A proof from the prover's opaque bytes; rejects a payload too long
    /// for the wire format.
    pub fn from_bytes(bytes: Vec<u8>) -> (r: Option<ProofBytes>)
        ensures
            r is Some <==> bytes@.len() <= MAX_TX_FIELD_LEN,
            r matches Some(p) ==> p@ == bytes@,
    {
        if bytes.len() <= MAX_TX_FIELD_LEN {
            Some(ProofBytes { bytes })
        } else {
            None
        }
    }

    /// Whether no proof is present.
    pub fn is_empty(&self) -> (r: bool)
        ensures
            r <==> self@.len() == 0,
    {
        self.bytes.len() == 0
    }
}

impl Clone for ProofBytes {
    fn clone(&self) -> (r: Self)
        ensures
            r@ == self@,
    {
        proof {
            use_type_invariant(self);
        }
        ProofBytes { bytes: dup_bytes(&self.bytes) }
    }
}

/// What the external prover returns for one input: the proof and the
/// context extension it was produced under.
#[derive(PartialEq, Eq, Debug)]
pub struct ProverResult {
    /// Opaque proof bytes
    pub proof_bytes: ProofBytes,
    /// Context extension
    pub extension: ContextExtension,
}

impl Clone for ProverResult {
    fn clone(&self) -> (r: Self)
        ensures
            r.proof_bytes@ == self.proof_bytes@,
            r.extension@ == self.extension@,
    {
        ProverResult { proof_bytes: self.proof_bytes.clone(), extension: self.extension.clone() }
    }
}

/// Model of an unsigned input: the referenced box and the context
/// extension.
pub struct UnsignedInputV {
    /// Digest bytes of the referenced box
    pub box_id: Seq<u8>,
    /// Serialized context extension
    pub extension: Seq<u8>,
}

/// A reference to a box that this transaction will spend, before any
/// proof exists.
#[derive(PartialEq, Eq, Debug)]
pub struct UnsignedInput {
    /// Identifier of the box to spend
    pub box_id: BoxId,
    /// User-defined context data
    pub extension: ContextExtension,
}

impl View for UnsignedInput {
    type V = UnsignedInputV;

    open spec fn view(&self) -> UnsignedInputV {
        UnsignedInputV { box_id: self.box_id@, extension: self.extension@ }
    }
}

impl UnsignedInput {
    /// An unsigned input from a box reference and a context extension.
    pub fn new(box_id: BoxId, extension: ContextExtension) -> (r: UnsignedInput)
        ensures
            r@ == (UnsignedInputV { box_id: box_id@, extension: extension@ }),
    {
        UnsignedInput { box_id, extension }
    }
}

impl Clone for UnsignedInput {
    fn clone(&self) -> (r: Self)
        ensures
            r@ == self@,
    {
        UnsignedInput { box_id: self.box_id.clone(), extension: self.extension.clone() }
    }
}

/// Model of a signed input: the referenced box, the proof bytes and the
/// context extension.
pub struct InputV {
    /// Digest bytes of the referenced box
    pub box_id: Seq<u8>,
    /// Opaque proof bytes
    pub proof_bytes: Seq<u8>,
    /// Serialized context extension
    pub extension: Seq<u8>,
}

/// A reference to a box that this transaction spends, together with the
/// prover's result. Structurally an [`UnsignedInput`] plus proof bytes:
/// the proof is the only difference.
#[derive(PartialEq, Eq, Debug)]
pub struct Input {
    /// Identifier of the box to spend
    pub box_id: BoxId,
    /// Proof and context extension from the prover
    pub spending_proof: ProverResult,
}

impl View for Input {
    type V = InputV;

    open spec fn view(&self) -> InputV {
        InputV {
            box_id: self.box_id@,
            proof_bytes: self.spending_proof.proof_bytes@,
            extension: self.spending_proof.extension@,
        }
    }
}

impl Input {
    /// An input from a box reference and the prover's result.
    pub fn new(box_id: BoxId, spending_proof: ProverResult) -> (r: Input)
        ensures
            r@ == (InputV {
                box_id: box_id@,
                proof_bytes: spending_proof.proof_bytes@,
                extension: spending_proof.extension@,
            }),
    {
        Input { box_id, spending_proof }
    }
}

impl Clone for Input {
    fn clone(&self) -> (r: Self)
        ensures
            r@ == self@,
    {
        Input { box_id: self.box_id.clone(), spending_proof: self.spending_proof.clone() }
    }
}

/// Model of a data input: only a box reference.
pub struct DataInputV {
    /// Digest bytes of the referenced box
    pub box_id: Seq<u8>,
}

/// A reference to a box that scripts may read but that the transaction
/// does not spend; it carries no proof.
#[derive(PartialEq, Eq, Debug)]
pub struct DataInput {
    /// Identifier of the referenced box
    pub box_id: BoxId,
}

impl View for DataInput {
    type V = DataInputV;

    open spec fn view(&self) -> DataInputV {
        DataInputV { box_id: self.box_id@ }
    }
}

impl Clone for DataInput {
    fn clone(&self) -> (r: Self)
        ensures
            r@ == self@,
    {
        DataInput { box_id: self.box_id.clone() }
    }
}

} // verus!

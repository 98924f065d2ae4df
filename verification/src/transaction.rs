//! Transactions and their content-addressed identity.
//!
//! An unsigned transaction is built once from its inputs, data-inputs and
//! output candidates; construction serializes the structure with every
//! proof replaced by the empty placeholder (the signing message), hashes
//! those bytes, and freezes the resulting identifier. A signed
//! transaction derives its identifier by the same formula, so attaching
//! proofs never changes a transaction's identity.

use vstd::prelude::*;

use crate::bytes::append_bytes;
use crate::bytes::dup_bytes;
use crate::digest32::blake2b256_hash;
use crate::digest32::blake2b256_of;
use crate::digest32::DIGEST_LEN;
use crate::ergo_box::box_wf;
use crate::ergo_box::BoxCandidateV;
use crate::ergo_box::ErgoBoxCandidate;
use crate::input::DataInput;
use crate::input::DataInputV;
use crate::input::Input;
use crate::input::InputV;
use crate::input::ProofBytes;
use crate::input::ProverResult;
use crate::input::UnsignedInput;
use crate::input::UnsignedInputV;
use crate::input::MAX_TX_FIELD_LEN;
use crate::serialization::append_expr;
use crate::serialization::ser_expr;
use crate::serialization::ser_len16;
use crate::serialization::SigmaSerializationError;

verus! {

/// Largest count of inputs, data-inputs or outputs the wire format can
/// carry (their count fields are two bytes wide).
pub const MAX_TX_ITEMS: usize = 0xFFFF;

/// Content-addressed transaction identifier: the 256-bit digest of the
/// transaction's canonical signing message.
#[derive(PartialEq, Eq, Debug)]
pub struct TxId {
    bytes: Vec<u8>,
}

impl View for TxId {
    type V = Seq<u8>;

    closed spec fn view(&self) -> Seq<u8> {
        self.bytes@
    }
}

/// The well-known zero digest used as the identifier of the scaffold
/// transaction while its real identifier is being computed.
pub open spec fn zero_digest() -> Seq<u8> {
    Seq::new(DIGEST_LEN as nat, |i: int| 0u8)
}

impl TxId {
    #[verifier::type_invariant]
    spec fn type_inv(self) -> bool {
        self.bytes@.len() == DIGEST_LEN
    }

    /// The zero/sentinel identifier.
    pub fn zero() -> (r: TxId)
        ensures
            r@ == zero_digest(),
    {
        let mut bytes: Vec<u8> = Vec::new();
        let mut i: usize = 0;
        while i < DIGEST_LEN
            invariant
                i <= DIGEST_LEN,
                bytes@.len() == i,
                forall|j: int| 0 <= j < i ==> bytes@[j] == 0u8,
            decreases DIGEST_LEN - i,
        {
            bytes.push(0u8);
            i = i + 1;
        }
        proof {
            assert(bytes@ =~= zero_digest());
        }
        TxId { bytes }
    }

    /// The digest bytes of this identifier (always 32 of them).
    pub fn as_bytes(&self) -> (r: &Vec<u8>)
        ensures
            r@ == self@,
            r@.len() == DIGEST_LEN,
    {
        proof {
            use_type_invariant(self);
        }
        &self.bytes
    }
}

impl Clone for TxId {
    fn clone(&self) -> (r: Self)
        ensures
            r@ == self@,
    {
        proof {
            use_type_invariant(self);
        }
        TxId { bytes: dup_bytes(&self.bytes) }
    }
}

/// The 8-byte big-endian wire form of a 64-bit value.
pub open spec fn ser_u64(v: u64) -> Seq<u8> {
    seq![
        (v >> 56) as u8,
        (v >> 48) as u8,
        (v >> 40) as u8,
        (v >> 32) as u8,
        (v >> 24) as u8,
        (v >> 16) as u8,
        (v >> 8) as u8,
        v as u8,
    ]
}

/// Wire form of one input inside the signing message: the box reference,
/// then the empty-proof placeholder, then the length-prefixed context
/// extension. The input's actual proof does not appear.
pub open spec fn ser_signing_input(i: UnsignedInputV) -> Seq<u8> {
    i.box_id + ser_len16(0) + ser_len16(i.extension.len() as int) + i.extension
}

/// Wire form of a sequence of inputs inside the signing message, in the
/// given order.
pub open spec fn ser_signing_inputs(s: Seq<UnsignedInputV>) -> Seq<u8>
    decreases s.len(),
{
    if s.len() == 0 {
        Seq::empty()
    } else {
        ser_signing_input(s[0]) + ser_signing_inputs(s.drop_first())
    }
}

/// Wire form of one data-input: only the box reference.
pub open spec fn ser_data_input(d: DataInputV) -> Seq<u8> {
    d.box_id
}

/// Wire form of a sequence of data-inputs, in the given order.
pub open spec fn ser_data_inputs(s: Seq<DataInputV>) -> Seq<u8>
    decreases s.len(),
{
    if s.len() == 0 {
        Seq::empty()
    } else {
        ser_data_input(s[0]) + ser_data_inputs(s.drop_first())
    }
}

/// Wire form of one output candidate: its value, its script's canonical
/// serialization, and its length-prefixed registers.
pub open spec fn ser_output(b: BoxCandidateV) -> Seq<u8> {
    ser_u64(b.value) + ser_expr(b.script) + ser_len16(b.registers.len() as int) + b.registers
}

/// Wire form of a sequence of output candidates, in the given order.
pub open spec fn ser_outputs(s: Seq<BoxCandidateV>) -> Seq<u8>
    decreases s.len(),
{
    if s.len() == 0 {
        Seq::empty()
    } else {
        ser_output(s[0]) + ser_outputs(s.drop_first())
    }
}

/// The canonical signing message: the three counted sequences, each
/// preceded by its two-byte count, with every proof replaced by the
/// empty placeholder. This is what gets hashed for the transaction
/// identifier and what a prover signs. It depends only on the logical
/// content and the given order of the three sequences.
pub open spec fn signing_bytes(
    inputs: Seq<UnsignedInputV>,
    data_inputs: Seq<DataInputV>,
    outputs: Seq<BoxCandidateV>,
) -> Seq<u8> {
    ser_len16(inputs.len() as int) + ser_signing_inputs(inputs) + ser_len16(
        data_inputs.len() as int,
    ) + ser_data_inputs(data_inputs) + ser_len16(outputs.len() as int) + ser_outputs(outputs)
}

/// Whether a transaction's content fits the wire format: all three
/// counts fit their two-byte fields, every box reference is a 32-byte
/// digest, every extension fits its length field, and every output is
/// serializable.
pub open spec fn tx_wf(
    inputs: Seq<UnsignedInputV>,
    data_inputs: Seq<DataInputV>,
    outputs: Seq<BoxCandidateV>,
) -> bool {
    &&& inputs.len() <= MAX_TX_ITEMS
    &&& data_inputs.len() <= MAX_TX_ITEMS
    &&& outputs.len() <= MAX_TX_ITEMS
    &&& (forall|i: int|
        0 <= i < inputs.len() ==> (#[trigger] inputs[i]).box_id.len() == DIGEST_LEN
            && inputs[i].extension.len() <= MAX_TX_FIELD_LEN)
    &&& (forall|i: int|
        0 <= i < data_inputs.len() ==> (#[trigger] data_inputs[i]).box_id.len() == DIGEST_LEN)
    &&& (forall|i: int| 0 <= i < outputs.len() ==> box_wf(#[trigger] outputs[i]))
}

/// The models of a sequence of signed inputs.
pub open spec fn views_of_inputs(s: Seq<Input>) -> Seq<InputV> {
    s.map_values(|x: Input| x@)
}

/// The models of a sequence of unsigned inputs.
pub open spec fn views_of_unsigned_inputs(s: Seq<UnsignedInput>) -> Seq<UnsignedInputV> {
    s.map_values(|x: UnsignedInput| x@)
}

/// The models of a sequence of data-inputs.
pub open spec fn views_of_data_inputs(s: Seq<DataInput>) -> Seq<DataInputV> {
    s.map_values(|x: DataInput| x@)
}

/// The models of a sequence of output candidates.
pub open spec fn views_of_outputs(s: Seq<ErgoBoxCandidate>) -> Seq<BoxCandidateV> {
    s.map_values(|x: ErgoBoxCandidate| x@)
}

/// Signed inputs with their proofs dropped: the pure substitution that
/// turns a signed input back into its unsigned form.
pub open spec fn strip_proofs(s: Seq<InputV>) -> Seq<UnsignedInputV> {
    s.map_values(|x: InputV| UnsignedInputV { box_id: x.box_id, extension: x.extension })
}

proof fn lemma_ser_signing_inputs_snoc(s: Seq<UnsignedInputV>, i: int)
    requires
        0 <= i < s.len(),
    ensures
        ser_signing_inputs(s.take(i + 1)) == ser_signing_inputs(s.take(i)) + ser_signing_input(
            s[i],
        ),
    decreases i,
{
    let t = s.take(i + 1);
    if i == 0 {
        assert(t.drop_first() =~= s.take(0));
        assert(ser_signing_inputs(s.take(0)) + ser_signing_input(s[0]) =~= ser_signing_input(s[0])
            + ser_signing_inputs(t.drop_first()));
    } else {
        lemma_ser_signing_inputs_snoc(s.drop_first(), i - 1);
        assert(t.drop_first() =~= s.drop_first().take(i));
        assert(s.take(i).drop_first() =~= s.drop_first().take(i - 1));
        assert(s.drop_first()[i - 1] == s[i]);
        assert(ser_signing_input(s[0]) + (ser_signing_inputs(s.drop_first().take(i - 1))
            + ser_signing_input(s[i])) =~= (ser_signing_input(s[0]) + ser_signing_inputs(
            s.drop_first().take(i - 1),
        )) + ser_signing_input(s[i]));
    }
}

proof fn lemma_ser_data_inputs_snoc(s: Seq<DataInputV>, i: int)
    requires
        0 <= i < s.len(),
    ensures
        ser_data_inputs(s.take(i + 1)) == ser_data_inputs(s.take(i)) + ser_data_input(s[i]),
    decreases i,
{
    let t = s.take(i + 1);
    if i == 0 {
        assert(t.drop_first() =~= s.take(0));
        assert(ser_data_inputs(s.take(0)) + ser_data_input(s[0]) =~= ser_data_input(s[0])
            + ser_data_inputs(t.drop_first()));
    } else {
        lemma_ser_data_inputs_snoc(s.drop_first(), i - 1);
        assert(t.drop_first() =~= s.drop_first().take(i));
        assert(s.take(i).drop_first() =~= s.drop_first().take(i - 1));
        assert(s.drop_first()[i - 1] == s[i]);
        assert(ser_data_input(s[0]) + (ser_data_inputs(s.drop_first().take(i - 1)) + ser_data_input(
            s[i],
        )) =~= (ser_data_input(s[0]) + ser_data_inputs(s.drop_first().take(i - 1)))
            + ser_data_input(s[i]));
    }
}

proof fn lemma_ser_outputs_snoc(s: Seq<BoxCandidateV>, i: int)
    requires
        0 <= i < s.len(),
    ensures
        ser_outputs(s.take(i + 1)) == ser_outputs(s.take(i)) + ser_output(s[i]),
    decreases i,
{
    let t = s.take(i + 1);
    if i == 0 {
        assert(t.drop_first() =~= s.take(0));
        assert(ser_outputs(s.take(0)) + ser_output(s[0]) =~= ser_output(s[0]) + ser_outputs(
            t.drop_first(),
        ));
    } else {
        lemma_ser_outputs_snoc(s.drop_first(), i - 1);
        assert(t.drop_first() =~= s.drop_first().take(i));
        assert(s.take(i).drop_first() =~= s.drop_first().take(i - 1));
        assert(s.drop_first()[i - 1] == s[i]);
        assert(ser_output(s[0]) + (ser_outputs(s.drop_first().take(i - 1)) + ser_output(s[i])) =~= (
        ser_output(s[0]) + ser_outputs(s.drop_first().take(i - 1))) + ser_output(s[i]));
    }
}

/// Serializes the canonical signing message of the given content: every
/// input contributes its box reference and extension with an empty-proof
/// placeholder, proofs never appear. Succeeds exactly when the content
/// fits the wire format.
pub(crate) fn serialize_signing_message(
    inputs: &Vec<Input>,
    data_inputs: &Vec<DataInput>,
    outputs: &Vec<ErgoBoxCandidate>,
) -> (r: Result<Vec<u8>, SigmaSerializationError>)
    ensures
        r is Ok <==> tx_wf(
            strip_proofs(views_of_inputs(inputs@)),
            views_of_data_inputs(data_inputs@),
            views_of_outputs(outputs@),
        ),
        r matches Ok(b) ==> b@ == signing_bytes(
            strip_proofs(views_of_inputs(inputs@)),
            views_of_data_inputs(data_inputs@),
            views_of_outputs(outputs@),
        ),
{
    let ghost ins = strip_proofs(views_of_inputs(inputs@));
    let ghost dats = views_of_data_inputs(data_inputs@);
    let ghost outs = views_of_outputs(outputs@);
    if inputs.len() > MAX_TX_ITEMS || data_inputs.len() > MAX_TX_ITEMS || outputs.len()
        > MAX_TX_ITEMS {
        return Err(SigmaSerializationError::OutOfBounds);
    }
    let mut out: Vec<u8> = Vec::new();
    let n_in = inputs.len();
    out.push((n_in / 256) as u8);
    out.push((n_in % 256) as u8);
    proof {
        assert(out@ =~= ser_len16(ins.len() as int));
    }
    let mut i: usize = 0;
    while i < inputs.len()
        invariant
            i <= inputs.len(),
            ins == strip_proofs(views_of_inputs(inputs@)),
            ins.len() == inputs@.len(),
            out@ == ser_len16(ins.len() as int) + ser_signing_inputs(ins.take(i as int)),
            forall|j: int|
                0 <= j < i ==> (#[trigger] ins[j]).box_id.len() == DIGEST_LEN
                    && ins[j].extension.len() <= MAX_TX_FIELD_LEN,
        decreases inputs.len() - i,
    {
        let ui = &inputs[i];
        append_bytes(&mut out, ui.box_id.as_bytes());
        out.push(0u8);
        out.push(0u8);
        let ext = ui.spending_proof.extension.as_bytes();
        let el = ext.len();
        out.push((el / 256) as u8);
        out.push((el % 256) as u8);
        append_bytes(&mut out, ext);
        proof {
            lemma_ser_signing_inputs_snoc(ins, i as int);
            assert(ins[i as int] == (UnsignedInputV {
                box_id: ui.box_id@,
                extension: ui.spending_proof.extension@,
            }));
            assert(out@ =~= ser_len16(ins.len() as int) + ser_signing_inputs(
                ins.take(i as int + 1),
            ));
        }
        i = i + 1;
    }
    proof {
        assert(ins.take(ins.len() as int) =~= ins);
    }
    let ghost seg1 = ser_len16(ins.len() as int) + ser_signing_inputs(ins);
    let n_d = data_inputs.len();
    out.push((n_d / 256) as u8);
    out.push((n_d % 256) as u8);
    proof {
        assert(out@ =~= seg1 + ser_len16(dats.len() as int));
    }
    let mut i: usize = 0;
    while i < data_inputs.len()
        invariant
            i <= data_inputs.len(),
            ins == strip_proofs(views_of_inputs(inputs@)),
            dats == views_of_data_inputs(data_inputs@),
            dats.len() == data_inputs@.len(),
            seg1 == ser_len16(ins.len() as int) + ser_signing_inputs(ins),
            out@ == seg1 + ser_len16(dats.len() as int) + ser_data_inputs(dats.take(i as int)),
            forall|j: int| 0 <= j < i ==> (#[trigger] dats[j]).box_id.len() == DIGEST_LEN,
        decreases data_inputs.len() - i,
    {
        let di = &data_inputs[i];
        append_bytes(&mut out, di.box_id.as_bytes());
        proof {
            lemma_ser_data_inputs_snoc(dats, i as int);
            assert(dats[i as int] == (DataInputV { box_id: di.box_id@ }));
            assert(out@ =~= seg1 + ser_len16(dats.len() as int) + ser_data_inputs(
                dats.take(i as int + 1),
            ));
        }
        i = i + 1;
    }
    proof {
        assert(dats.take(dats.len() as int) =~= dats);
    }
    let ghost seg2 = seg1 + ser_len16(dats.len() as int) + ser_data_inputs(dats);
    let n_o = outputs.len();
    out.push((n_o / 256) as u8);
    out.push((n_o % 256) as u8);
    proof {
        assert(out@ =~= seg2 + ser_len16(outs.len() as int));
    }
    let mut i: usize = 0;
    while i < outputs.len()
        invariant
            i <= outputs.len(),
            ins == strip_proofs(views_of_inputs(inputs@)),
            dats == views_of_data_inputs(data_inputs@),
            outs == views_of_outputs(outputs@),
            outs.len() == outputs@.len(),
            seg2 == ser_len16(ins.len() as int) + ser_signing_inputs(ins) + ser_len16(
                dats.len() as int,
            ) + ser_data_inputs(dats),
            out@ == seg2 + ser_len16(outs.len() as int) + ser_outputs(outs.take(i as int)),
            forall|j: int| 0 <= j < i ==> box_wf(#[trigger] outs[j]),
        decreases outputs.len() - i,
    {
        let b = &outputs[i];
        let v = b.value;
        out.push((v >> 56) as u8);
        out.push((v >> 48) as u8);
        out.push((v >> 40) as u8);
        out.push((v >> 32) as u8);
        out.push((v >> 24) as u8);
        out.push((v >> 16) as u8);
        out.push((v >> 8) as u8);
        out.push(v as u8);
        let ghost mid1 = seg2 + ser_len16(outs.len() as int) + ser_outputs(outs.take(i as int));
        proof {
            assert(out@ =~= mid1 + ser_u64(v));
        }
        match append_expr(&b.script, &mut out) {
            Ok(()) => {},
            Err(e) => {
                proof {
                    assert(!box_wf(outs[i as int]));
                }
                return Err(e);
            },
        }
        let regs = &b.additional_registers;
        if regs.len() > MAX_TX_FIELD_LEN {
            proof {
                assert(!box_wf(outs[i as int]));
            }
            return Err(SigmaSerializationError::OutOfBounds);
        }
        let rl = regs.len();
        out.push((rl / 256) as u8);
        out.push((rl % 256) as u8);
        append_bytes(&mut out, regs);
        proof {
            lemma_ser_outputs_snoc(outs, i as int);
            assert(outs[i as int] == b@);
            assert(out@ =~= mid1 + ser_output(outs[i as int]));
            assert(out@ =~= seg2 + ser_len16(outs.len() as int) + ser_outputs(
                outs.take(i as int + 1),
            ));
        }
        i = i + 1;
    }
    proof {
        assert(outs.take(outs.len() as int) =~= outs);
        assert(out@ =~= signing_bytes(ins, dats, outs));
    }
    Ok(out)
}

/// Model of a signed transaction.
pub struct TxV {
    /// The frozen content-addressed identifier
    pub tx_id: Seq<u8>,
    /// The spent inputs with their proofs, in order
    pub inputs: Seq<InputV>,
    /// The read-only data-inputs, in order
    pub data_inputs: Seq<DataInputV>,
    /// The output candidates, in order
    pub outputs: Seq<BoxCandidateV>,
}

/// Model of an unsigned transaction.
pub struct UnsignedTxV {
    /// The frozen content-addressed identifier
    pub tx_id: Seq<u8>,
    /// The inputs to be spent, in order
    pub inputs: Seq<UnsignedInputV>,
    /// The read-only data-inputs, in order
    pub data_inputs: Seq<DataInputV>,
    /// The output candidates, in order
    pub outputs: Seq<BoxCandidateV>,
}

/// Whether an unsigned transaction's identifier is the hash of its
/// canonical signing message.
pub open spec fn id_correct(t: UnsignedTxV) -> bool {
    t.tx_id == blake2b256_of(signing_bytes(t.inputs, t.data_inputs, t.outputs))
}

/// Whether a signed transaction's identifier is the hash of its
/// canonical signing message: the same formula as for an unsigned one,
/// with the proofs dropped first.
pub open spec fn signed_id_correct(t: TxV) -> bool {
    t.tx_id == blake2b256_of(signing_bytes(strip_proofs(t.inputs), t.data_inputs, t.outputs))
}

/// Identifier determinism: any two transactions built from the same
/// inputs, data-inputs and outputs (in the same order) carry the same
/// identifier.
pub proof fn lemma_id_deterministic(a: UnsignedTxV, b: UnsignedTxV)
    requires
        id_correct(a),
        id_correct(b),
        a.inputs == b.inputs,
        a.data_inputs == b.data_inputs,
        a.outputs == b.outputs,
    ensures
        a.tx_id == b.tx_id,
{
}

/// Signing invariance: attaching proof bytes to the inputs of an
/// unsigned transaction changes neither the signing message nor the
/// identifier — both are functions of box references, extensions,
/// data-inputs and outputs only, never of proof contents.
pub proof fn lemma_signing_invariance(u: UnsignedTxV, t: TxV)
    requires
        id_correct(u),
        signed_id_correct(t),
        strip_proofs(t.inputs) == u.inputs,
        t.data_inputs == u.data_inputs,
        t.outputs == u.outputs,
    ensures
        signing_bytes(strip_proofs(t.inputs), t.data_inputs, t.outputs) == signing_bytes(
            u.inputs,
            u.data_inputs,
            u.outputs,
        ),
        t.tx_id == u.tx_id,
{
}

/// A signed transaction: inputs with proofs, data-inputs and output
/// candidates, with the identifier frozen at construction.
#[derive(Debug)]
pub struct Transaction {
    tx_id: TxId,
    /// Inputs spent by this transaction, with their proofs
    pub inputs: Vec<Input>,
    /// Boxes readable by scripts but not spent
    pub data_inputs: Vec<DataInput>,
    /// Box candidates created by this transaction
    pub output_candidates: Vec<ErgoBoxCandidate>,
}

impl View for Transaction {
    type V = TxV;

    closed spec fn view(&self) -> TxV {
        TxV {
            tx_id: self.tx_id@,
            inputs: views_of_inputs(self.inputs@),
            data_inputs: views_of_data_inputs(self.data_inputs@),
            outputs: views_of_outputs(self.output_candidates@),
        }
    }
}

impl Transaction {
    /// A signed transaction from its three sequences. Serializes the
    /// signing message (proofs replaced by the empty placeholder), hashes
    /// it, and freezes the identifier; fails, building nothing, exactly
    /// when the content does not fit the wire format.
    pub fn new(
        inputs: Vec<Input>,
        data_inputs: Vec<DataInput>,
        output_candidates: Vec<ErgoBoxCandidate>,
    ) -> (r: Result<Transaction, SigmaSerializationError>)
        ensures
            r is Ok <==> tx_wf(
                strip_proofs(views_of_inputs(inputs@)),
                views_of_data_inputs(data_inputs@),
                views_of_outputs(output_candidates@),
            ),
            r matches Ok(t) ==> t@ == (TxV {
                tx_id: blake2b256_of(
                    signing_bytes(
                        strip_proofs(views_of_inputs(inputs@)),
                        views_of_data_inputs(data_inputs@),
                        views_of_outputs(output_candidates@),
                    ),
                ),
                inputs: views_of_inputs(inputs@),
                data_inputs: views_of_data_inputs(data_inputs@),
                outputs: views_of_outputs(output_candidates@),
            }) && signed_id_correct(t@),
    {
        let tx_to_sign = Transaction {
            tx_id: TxId::zero(),
            inputs,
            data_inputs,
            output_candidates,
        };
        match tx_to_sign.calc_tx_id() {
            Ok(tx_id) => Ok(
                Transaction {
                    tx_id,
                    inputs: tx_to_sign.inputs,
                    data_inputs: tx_to_sign.data_inputs,
                    output_candidates: tx_to_sign.output_candidates,
                },
            ),
            Err(e) => Err(e),
        }
    }

    fn calc_tx_id(&self) -> (r: Result<TxId, SigmaSerializationError>)
        ensures
            r is Ok <==> tx_wf(strip_proofs(self@.inputs), self@.data_inputs, self@.outputs),
            r matches Ok(t) ==> t@ == blake2b256_of(
                signing_bytes(strip_proofs(self@.inputs), self@.data_inputs, self@.outputs),
            ),
    {
        match self.bytes_to_sign() {
            Ok(bytes) => Ok(TxId { bytes: blake2b256_hash(&bytes) }),
            Err(e) => Err(e),
        }
    }

    /// Get the frozen transaction identifier.
    pub fn id(&self) -> (r: TxId)
        ensures
            r@ == self@.tx_id,
    {
        self.tx_id.clone()
    }

    /// The canonical signing message of this transaction: its
    /// serialization with every proof replaced by the empty placeholder.
    pub fn bytes_to_sign(&self) -> (r: Result<Vec<u8>, SigmaSerializationError>)
        ensures
            r is Ok <==> tx_wf(strip_proofs(self@.inputs), self@.data_inputs, self@.outputs),
            r matches Ok(b) ==> b@ == signing_bytes(
                strip_proofs(self@.inputs),
                self@.data_inputs,
                self@.outputs,
            ),
    {
        serialize_signing_message(&self.inputs, &self.data_inputs, &self.output_candidates)
    }
}

/// An unsigned (inputs without proofs) transaction, with the identifier
/// frozen at construction.
#[derive(Debug)]
pub struct UnsignedTransaction {
    tx_id: TxId,
    /// Unsigned inputs that will be spent by this transaction
    pub inputs: Vec<UnsignedInput>,
    /// Boxes readable by scripts but not spent; they carry no proofs and
    /// their scripts are not executed
    pub data_inputs: Vec<DataInput>,
    /// Box candidates to be created by this transaction
    pub output_candidates: Vec<ErgoBoxCandidate>,
}

impl View for UnsignedTransaction {
    type V = UnsignedTxV;

    closed spec fn view(&self) -> UnsignedTxV {
        UnsignedTxV {
            tx_id: self.tx_id@,
            inputs: views_of_unsigned_inputs(self.inputs@),
            data_inputs: views_of_data_inputs(self.data_inputs@),
            outputs: views_of_outputs(self.output_candidates@),
        }
    }
}

impl UnsignedTransaction {
    /// An unsigned transaction from its three sequences, in two phases:
    /// build a scaffold with the zero identifier, serialize its signing
    /// message, hash it, and rebuild with the final identifier. Fails,
    /// building nothing, exactly when the content does not fit the wire
    /// format.
    pub fn new(
        inputs: Vec<UnsignedInput>,
        data_inputs: Vec<DataInput>,
        output_candidates: Vec<ErgoBoxCandidate>,
    ) -> (r: Result<UnsignedTransaction, SigmaSerializationError>)
        ensures
            r is Ok <==> tx_wf(
                views_of_unsigned_inputs(inputs@),
                views_of_data_inputs(data_inputs@),
                views_of_outputs(output_candidates@),
            ),
            r matches Ok(t) ==> t@ == (UnsignedTxV {
                tx_id: blake2b256_of(
                    signing_bytes(
                        views_of_unsigned_inputs(inputs@),
                        views_of_data_inputs(data_inputs@),
                        views_of_outputs(output_candidates@),
                    ),
                ),
                inputs: views_of_unsigned_inputs(inputs@),
                data_inputs: views_of_data_inputs(data_inputs@),
                outputs: views_of_outputs(output_candidates@),
            }) && id_correct(t@),
    {
        let tx_to_sign = UnsignedTransaction {
            tx_id: TxId::zero(),
            inputs,
            data_inputs,
            output_candidates,
        };
        match tx_to_sign.calc_tx_id() {
            Ok(tx_id) => Ok(
                UnsignedTransaction {
                    tx_id,
                    inputs: tx_to_sign.inputs,
                    data_inputs: tx_to_sign.data_inputs,
                    output_candidates: tx_to_sign.output_candidates,
                },
            ),
            Err(e) => Err(e),
        }
    }

    fn calc_tx_id(&self) -> (r: Result<TxId, SigmaSerializationError>)
        ensures
            r is Ok <==> tx_wf(self@.inputs, self@.data_inputs, self@.outputs),
            r matches Ok(t) ==> t@ == blake2b256_of(
                signing_bytes(self@.inputs, self@.data_inputs, self@.outputs),
            ),
    {
        match self.bytes_to_sign() {
            Ok(bytes) => Ok(TxId { bytes: blake2b256_hash(&bytes) }),
            Err(e) => Err(e),
        }
    }

    /// Get the frozen transaction identifier.
    pub fn id(&self) -> (r: TxId)
        ensures
            r@ == self@.tx_id,
    {
        self.tx_id.clone()
    }

    /// The message to be signed by the external prover: each input's
    /// proof is replaced by the empty placeholder (its box reference and
    /// context extension are kept), data-inputs and outputs are
    /// unchanged, and the result is serialized canonically.
    pub fn bytes_to_sign(&self) -> (r: Result<Vec<u8>, SigmaSerializationError>)
        ensures
            r is Ok <==> tx_wf(self@.inputs, self@.data_inputs, self@.outputs),
            r matches Ok(b) ==> b@ == signing_bytes(self@.inputs, self@.data_inputs, self@.outputs),
    {
        let mut empty_proofs_input: Vec<Input> = Vec::new();
        let mut i: usize = 0;
        while i < self.inputs.len()
            invariant
                i <= self.inputs.len(),
                i == empty_proofs_input@.len(),
                forall|j: int|
                    0 <= j < i ==> strip_proofs(views_of_inputs(empty_proofs_input@))[j]
                        == views_of_unsigned_inputs(self.inputs@)[j],
            decreases self.inputs.len() - i,
        {
            let ui = &self.inputs[i];
            empty_proofs_input.push(
                Input::new(
                    ui.box_id.clone(),
                    ProverResult { proof_bytes: ProofBytes::empty(), extension: ui.extension.clone() },
                ),
            );
            i = i + 1;
        }
        proof {
            assert(strip_proofs(views_of_inputs(empty_proofs_input@)) =~= views_of_unsigned_inputs(
                self.inputs@,
            ));
        }
        serialize_signing_message(&empty_proofs_input, &self.data_inputs, &self.output_candidates)
    }
}

} // verus!

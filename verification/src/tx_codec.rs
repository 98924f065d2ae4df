//! Bijectivity of the transaction wire format.
//!
//! A spec-level parser inverts the signing-message serialization, which
//! shows the signing message determines the transaction's content: two
//! transactions with the same signing message have the same inputs (up to
//! proofs), data-inputs and outputs, in the same order. In particular,
//! reordering inputs changes the signing message whenever it changes the
//! sequence at all.

use vstd::prelude::*;

use crate::digest32::DIGEST_LEN;
use crate::ergo_box::box_wf;
use crate::ergo_box::BoxCandidateV;
use crate::expr::well_typed;
use crate::expr::ExprV;
use crate::input::DataInputV;
use crate::input::UnsignedInputV;
use crate::input::MAX_TX_FIELD_LEN;
use crate::serialization::lemma_parse_serialize;
use crate::serialization::parse_expr;
use crate::serialization::ser_expr;
use crate::serialization::ser_len16;
use crate::transaction::ser_data_input;
use crate::transaction::ser_data_inputs;
use crate::transaction::ser_output;
use crate::transaction::ser_outputs;
use crate::transaction::ser_signing_input;
use crate::transaction::ser_signing_inputs;
use crate::transaction::ser_u64;
use crate::transaction::signing_bytes;
use crate::transaction::tx_wf;
use crate::transaction::MAX_TX_ITEMS;

verus! {

/// Whether every output's script is well-typed, as every script built
/// through the validating constructors is.
pub open spec fn outputs_well_typed(outputs: Seq<BoxCandidateV>) -> bool {
    forall|i: int| 0 <= i < outputs.len() ==> well_typed((#[trigger] outputs[i]).script)
}

/// Parse of a two-byte big-endian count or length.
pub open spec fn parse_len16(bytes: Seq<u8>, pos: int) -> Option<(int, int)> {
    if 0 <= pos && pos + 2 <= bytes.len() {
        Some((bytes[pos] as int * 256 + bytes[pos + 1] as int, pos + 2))
    } else {
        None
    }
}

/// Parse of `n` raw bytes.
pub open spec fn parse_fixed(bytes: Seq<u8>, pos: int, n: int) -> Option<(Seq<u8>, int)> {
    if 0 <= pos && 0 <= n && pos + n <= bytes.len() {
        Some((bytes.subrange(pos, pos + n), pos + n))
    } else {
        None
    }
}

/// Parse of a length-prefixed byte field.
pub open spec fn parse_lp(bytes: Seq<u8>, pos: int) -> Option<(Seq<u8>, int)> {
    match parse_len16(bytes, pos) {
        Some((n, p)) => parse_fixed(bytes, p, n),
        None => None,
    }
}

/// Parse of an 8-byte big-endian 64-bit value.
pub open spec fn parse_u64(bytes: Seq<u8>, pos: int) -> Option<(u64, int)> {
    if 0 <= pos && pos + 8 <= bytes.len() {
        Some(
            (
                ((bytes[pos] as u64) << 56 | (bytes[pos + 1] as u64) << 48 | (bytes[pos
                    + 2] as u64) << 40 | (bytes[pos + 3] as u64) << 32 | (bytes[pos + 4] as u64)
                    << 24 | (bytes[pos + 5] as u64) << 16 | (bytes[pos + 6] as u64) << 8 | (bytes[pos
                    + 7] as u64)),
                pos + 8,
            ),
        )
    } else {
        None
    }
}

/// Parse of one input of the signing message: a 32-byte box reference,
/// the empty-proof placeholder, and the length-prefixed extension.
pub open spec fn parse_signing_input(bytes: Seq<u8>, pos: int) -> Option<(UnsignedInputV, int)> {
    match parse_fixed(bytes, pos, DIGEST_LEN as int) {
        Some((bid, p1)) => match parse_len16(bytes, p1) {
            Some((z, p2)) => if z != 0 {
                None
            } else {
                match parse_lp(bytes, p2) {
                    Some((ext, p3)) => Some((UnsignedInputV { box_id: bid, extension: ext }, p3)),
                    None => None,
                }
            },
            None => None,
        },
        None => None,
    }
}

/// Parse of `n` inputs of the signing message, in order.
pub open spec fn parse_signing_inputs(bytes: Seq<u8>, pos: int, n: int) -> Option<
    (Seq<UnsignedInputV>, int),
>
    decreases n,
{
    if n <= 0 {
        if n == 0 {
            Some((Seq::empty(), pos))
        } else {
            None
        }
    } else {
        match parse_signing_input(bytes, pos) {
            Some((first, p1)) => match parse_signing_inputs(bytes, p1, n - 1) {
                Some((rest, p2)) => Some((seq![first] + rest, p2)),
                None => None,
            },
            None => None,
        }
    }
}

/// Parse of one data-input: a 32-byte box reference.
pub open spec fn parse_data_input(bytes: Seq<u8>, pos: int) -> Option<(DataInputV, int)> {
    match parse_fixed(bytes, pos, DIGEST_LEN as int) {
        Some((bid, p1)) => Some((DataInputV { box_id: bid }, p1)),
        None => None,
    }
}

/// Parse of `n` data-inputs, in order.
pub open spec fn parse_data_inputs(bytes: Seq<u8>, pos: int, n: int) -> Option<
    (Seq<DataInputV>, int),
>
    decreases n,
{
    if n <= 0 {
        if n == 0 {
            Some((Seq::empty(), pos))
        } else {
            None
        }
    } else {
        match parse_data_input(bytes, pos) {
            Some((first, p1)) => match parse_data_inputs(bytes, p1, n - 1) {
                Some((rest, p2)) => Some((seq![first] + rest, p2)),
                None => None,
            },
            None => None,
        }
    }
}

/// Parse of one output candidate: its value, its script and its
/// length-prefixed registers.
pub open spec fn parse_output(bytes: Seq<u8>, pos: int) -> Option<(BoxCandidateV, int)> {
    match parse_u64(bytes, pos) {
        Some((v, p1)) => match parse_expr(bytes, p1) {
            Ok((script, p2)) => match parse_lp(bytes, p2) {
                Some((regs, p3)) => Some(
                    (BoxCandidateV { value: v, script, registers: regs }, p3),
                ),
                None => None,
            },
            Err(_) => None,
        },
        None => None,
    }
}

/// Parse of `n` output candidates, in order.
pub open spec fn parse_outputs(bytes: Seq<u8>, pos: int, n: int) -> Option<
    (Seq<BoxCandidateV>, int),
>
    decreases n,
{
    if n <= 0 {
        if n == 0 {
            Some((Seq::empty(), pos))
        } else {
            None
        }
    } else {
        match parse_output(bytes, pos) {
            Some((first, p1)) => match parse_outputs(bytes, p1, n - 1) {
                Some((rest, p2)) => Some((seq![first] + rest, p2)),
                None => None,
            },
            None => None,
        }
    }
}

/// Parse of a whole signing message: the three counted sequences, every
/// byte consumed.
pub open spec fn parse_signing(bytes: Seq<u8>) -> Option<
    (Seq<UnsignedInputV>, Seq<DataInputV>, Seq<BoxCandidateV>),
> {
    match parse_len16(bytes, 0) {
        Some((ni, p1)) => match parse_signing_inputs(bytes, p1, ni) {
            Some((ins, p2)) => match parse_len16(bytes, p2) {
                Some((nd, p3)) => match parse_data_inputs(bytes, p3, nd) {
                    Some((dats, p4)) => match parse_len16(bytes, p4) {
                        Some((no, p5)) => match parse_outputs(bytes, p5, no) {
                            Some((outs, p6)) => if p6 == bytes.len() {
                                Some((ins, dats, outs))
                            } else {
                                None
                            },
                            None => None,
                        },
                        None => None,
                    },
                    None => None,
                },
                None => None,
            },
            None => None,
        },
        None => None,
    }
}

/// Where the concatenation `a + b` stands at `pos`, `a` stands at `pos`
/// and `b` just past it.
proof fn lemma_split_concat(bytes: Seq<u8>, pos: int, a: Seq<u8>, b: Seq<u8>)
    requires
        0 <= pos,
        pos + a.len() + b.len() <= bytes.len(),
        bytes.subrange(pos, pos + a.len() + b.len()) == a + b,
    ensures
        bytes.subrange(pos, pos + a.len() as int) == a,
        bytes.subrange(pos + a.len() as int, pos + a.len() + b.len()) == b,
{
    assert(bytes.subrange(pos, pos + a.len() as int) =~= a) by {
        assert forall|k: int| 0 <= k < a.len() implies bytes.subrange(pos, pos + a.len() as int)[k]
            == a[k] by {
            assert(bytes.subrange(pos, pos + a.len() + b.len())[k] == (a + b)[k]);
        }
    }
    assert(bytes.subrange(pos + a.len() as int, pos + a.len() + b.len()) =~= b) by {
        assert forall|k: int| 0 <= k < b.len() implies bytes.subrange(
            pos + a.len() as int,
            pos + a.len() + b.len(),
        )[k] == b[k] by {
            let l = a.len() as int;
            assert(bytes.subrange(pos, pos + l + b.len() as int)[l + k] == (a + b)[l + k]);
            assert((a + b)[l + k] == b[k]);
            assert(bytes.subrange(pos, pos + l + b.len() as int)[l + k] == bytes[pos + l + k]);
            assert(bytes.subrange(pos + l, pos + l + b.len() as int)[k] == bytes[pos + l + k]);
        }
    }
}

/// A two-byte count round-trips wherever it stands.
proof fn lemma_parse_len16_ser(n: int, bytes: Seq<u8>, pos: int)
    requires
        0 <= n <= 0xFFFF,
        0 <= pos,
        pos + 2 <= bytes.len(),
        bytes.subrange(pos, pos + 2) == ser_len16(n),
    ensures
        parse_len16(bytes, pos) == Some((n, pos + 2)),
{
    assert(bytes[pos] == ser_len16(n)[0]) by {
        assert(bytes.subrange(pos, pos + 2)[0] == ser_len16(n)[0]);
    }
    assert(bytes[pos + 1] == ser_len16(n)[1]) by {
        assert(bytes.subrange(pos, pos + 2)[1] == ser_len16(n)[1]);
    }
}

/// One signing-message input round-trips wherever it stands.
proof fn lemma_parse_signing_input_ser(i: UnsignedInputV, bytes: Seq<u8>, pos: int)
    requires
        i.box_id.len() == DIGEST_LEN,
        i.extension.len() <= MAX_TX_FIELD_LEN,
        0 <= pos,
        pos + ser_signing_input(i).len() <= bytes.len(),
        bytes.subrange(pos, pos + ser_signing_input(i).len() as int) == ser_signing_input(i),
    ensures
        parse_signing_input(bytes, pos) == Some((i, pos + ser_signing_input(i).len() as int)),
{
    let a = i.box_id + ser_len16(0) + ser_len16(i.extension.len() as int);
    assert(ser_signing_input(i) =~= a + i.extension);
    lemma_split_concat(bytes, pos, a, i.extension);
    let b = i.box_id + ser_len16(0);
    assert(a =~= b + ser_len16(i.extension.len() as int));
    lemma_split_concat(bytes, pos, b, ser_len16(i.extension.len() as int));
    assert(b =~= i.box_id + ser_len16(0));
    lemma_split_concat(bytes, pos, i.box_id, ser_len16(0));
    lemma_parse_len16_ser(0, bytes, pos + i.box_id.len() as int);
    lemma_parse_len16_ser(i.extension.len() as int, bytes, pos + b.len() as int);
}

/// A sequence of signing-message inputs round-trips wherever it stands.
proof fn lemma_parse_signing_inputs_ser(s: Seq<UnsignedInputV>, bytes: Seq<u8>, pos: int)
    requires
        forall|j: int|
            0 <= j < s.len() ==> (#[trigger] s[j]).box_id.len() == DIGEST_LEN
                && s[j].extension.len() <= MAX_TX_FIELD_LEN,
        0 <= pos,
        pos + ser_signing_inputs(s).len() <= bytes.len(),
        bytes.subrange(pos, pos + ser_signing_inputs(s).len() as int) == ser_signing_inputs(s),
    ensures
        parse_signing_inputs(bytes, pos, s.len() as int) == Some(
            (s, pos + ser_signing_inputs(s).len() as int),
        ),
    decreases s.len(),
{
    if s.len() == 0 {
        assert(s =~= Seq::<UnsignedInputV>::empty());
    } else {
        let first = ser_signing_input(s[0]);
        let rest = ser_signing_inputs(s.drop_first());
        lemma_split_concat(bytes, pos, first, rest);
        lemma_parse_signing_input_ser(s[0], bytes, pos);
        lemma_parse_signing_inputs_ser(s.drop_first(), bytes, pos + first.len() as int);
        assert(seq![s[0]] + s.drop_first() =~= s);
    }
}

/// A sequence of data-inputs round-trips wherever it stands.
proof fn lemma_parse_data_inputs_ser(s: Seq<DataInputV>, bytes: Seq<u8>, pos: int)
    requires
        forall|j: int| 0 <= j < s.len() ==> (#[trigger] s[j]).box_id.len() == DIGEST_LEN,
        0 <= pos,
        pos + ser_data_inputs(s).len() <= bytes.len(),
        bytes.subrange(pos, pos + ser_data_inputs(s).len() as int) == ser_data_inputs(s),
    ensures
        parse_data_inputs(bytes, pos, s.len() as int) == Some(
            (s, pos + ser_data_inputs(s).len() as int),
        ),
    decreases s.len(),
{
    if s.len() == 0 {
        assert(s =~= Seq::<DataInputV>::empty());
    } else {
        let first = ser_data_input(s[0]);
        let rest = ser_data_inputs(s.drop_first());
        lemma_split_concat(bytes, pos, first, rest);
        lemma_parse_data_inputs_ser(s.drop_first(), bytes, pos + first.len() as int);
        assert(seq![s[0]] + s.drop_first() =~= s);
    }
}

/// An 8-byte value round-trips wherever it stands.
proof fn lemma_parse_u64_ser(v: u64, bytes: Seq<u8>, pos: int)
    requires
        0 <= pos,
        pos + 8 <= bytes.len(),
        bytes.subrange(pos, pos + 8) == ser_u64(v),
    ensures
        parse_u64(bytes, pos) == Some((v, pos + 8)),
{
    assert forall|k: int| 0 <= k < 8 implies bytes[pos + k] == ser_u64(v)[k] by {
        assert(bytes.subrange(pos, pos + 8)[k] == ser_u64(v)[k]);
    }
    let b0 = (v >> 56) as u8;
    let b1 = (v >> 48) as u8;
    let b2 = (v >> 40) as u8;
    let b3 = (v >> 32) as u8;
    let b4 = (v >> 24) as u8;
    let b5 = (v >> 16) as u8;
    let b6 = (v >> 8) as u8;
    let b7 = v as u8;
    assert((b0 as u64) << 56 | (b1 as u64) << 48 | (b2 as u64) << 40 | (b3 as u64) << 32 | (
    b4 as u64) << 24 | (b5 as u64) << 16 | (b6 as u64) << 8 | (b7 as u64) == v) by {
        assert(((((v >> 56) as u8) as u64) << 56 | (((v >> 48) as u8) as u64) << 48 | (((v
            >> 40) as u8) as u64) << 40 | (((v >> 32) as u8) as u64) << 32 | (((v
            >> 24) as u8) as u64) << 24 | (((v >> 16) as u8) as u64) << 16 | (((v
            >> 8) as u8) as u64) << 8 | ((v as u8) as u64)) == v) by (bit_vector);
    }
}

/// One output candidate round-trips wherever it stands.
proof fn lemma_parse_output_ser(b: BoxCandidateV, bytes: Seq<u8>, pos: int)
    requires
        box_wf(b),
        well_typed(b.script),
        0 <= pos,
        pos + ser_output(b).len() <= bytes.len(),
        bytes.subrange(pos, pos + ser_output(b).len() as int) == ser_output(b),
    ensures
        parse_output(bytes, pos) == Some((b, pos + ser_output(b).len() as int)),
{
    let a = ser_u64(b.value) + ser_expr(b.script) + ser_len16(b.registers.len() as int);
    assert(ser_output(b) =~= a + b.registers);
    lemma_split_concat(bytes, pos, a, b.registers);
    let c = ser_u64(b.value) + ser_expr(b.script);
    assert(a =~= c + ser_len16(b.registers.len() as int));
    lemma_split_concat(bytes, pos, c, ser_len16(b.registers.len() as int));
    assert(c =~= ser_u64(b.value) + ser_expr(b.script));
    lemma_split_concat(bytes, pos, ser_u64(b.value), ser_expr(b.script));
    lemma_parse_u64_ser(b.value, bytes, pos);
    lemma_parse_serialize(b.script, bytes, pos + 8);
    lemma_parse_len16_ser(b.registers.len() as int, bytes, pos + c.len() as int);
}

/// A sequence of output candidates round-trips wherever it stands.
proof fn lemma_parse_outputs_ser(s: Seq<BoxCandidateV>, bytes: Seq<u8>, pos: int)
    requires
        forall|j: int| 0 <= j < s.len() ==> box_wf(#[trigger] s[j]),
        outputs_well_typed(s),
        0 <= pos,
        pos + ser_outputs(s).len() <= bytes.len(),
        bytes.subrange(pos, pos + ser_outputs(s).len() as int) == ser_outputs(s),
    ensures
        parse_outputs(bytes, pos, s.len() as int) == Some((s, pos + ser_outputs(s).len() as int)),
    decreases s.len(),
{
    if s.len() == 0 {
        assert(s =~= Seq::<BoxCandidateV>::empty());
    } else {
        let first = ser_output(s[0]);
        let rest = ser_outputs(s.drop_first());
        lemma_split_concat(bytes, pos, first, rest);
        lemma_parse_output_ser(s[0], bytes, pos);
        lemma_parse_outputs_ser(s.drop_first(), bytes, pos + first.len() as int);
        assert(seq![s[0]] + s.drop_first() =~= s);
    }
}

/// Bijectivity of the signing message: parsing the signing message of
/// any serializable content whose scripts are well-typed returns exactly
/// that content.
#[verifier::rlimit(100)]
pub proof fn lemma_parse_signing_ser(
    inputs: Seq<UnsignedInputV>,
    data_inputs: Seq<DataInputV>,
    outputs: Seq<BoxCandidateV>,
)
    requires
        tx_wf(inputs, data_inputs, outputs),
        outputs_well_typed(outputs),
    ensures
        parse_signing(signing_bytes(inputs, data_inputs, outputs)) == Some(
            (inputs, data_inputs, outputs),
        ),
{
    let bytes = signing_bytes(inputs, data_inputs, outputs);
    let l1 = ser_len16(inputs.len() as int);
    let s1 = ser_signing_inputs(inputs);
    let l2 = ser_len16(data_inputs.len() as int);
    let s2 = ser_data_inputs(data_inputs);
    let l3 = ser_len16(outputs.len() as int);
    let s3 = ser_outputs(outputs);
    assert(bytes.subrange(0, bytes.len() as int) =~= bytes);
    let a5 = l1 + s1 + l2 + s2 + l3;
    assert(bytes =~= a5 + s3);
    lemma_split_concat(bytes, 0, a5, s3);
    let a4 = l1 + s1 + l2 + s2;
    assert(a5 =~= a4 + l3);
    lemma_split_concat(bytes, 0, a4, l3);
    let a3 = l1 + s1 + l2;
    assert(a4 =~= a3 + s2);
    lemma_split_concat(bytes, 0, a3, s2);
    let a2 = l1 + s1;
    assert(a3 =~= a2 + l2);
    lemma_split_concat(bytes, 0, a2, l2);
    assert(a2 =~= l1 + s1);
    lemma_split_concat(bytes, 0, l1, s1);
    lemma_parse_len16_ser(inputs.len() as int, bytes, 0);
    lemma_parse_signing_inputs_ser(inputs, bytes, 2);
    lemma_parse_len16_ser(data_inputs.len() as int, bytes, a2.len() as int);
    lemma_parse_data_inputs_ser(data_inputs, bytes, a3.len() as int);
    lemma_parse_len16_ser(outputs.len() as int, bytes, a4.len() as int);
    lemma_parse_outputs_ser(outputs, bytes, a5.len() as int);
}

/// Injectivity of the signing message: two serializable contents with
/// well-typed scripts and the same signing message are the same content
/// — same inputs (up to proofs), same data-inputs, same outputs, in the
/// same order.
pub proof fn lemma_signing_message_injective(
    inputs1: Seq<UnsignedInputV>,
    data_inputs1: Seq<DataInputV>,
    outputs1: Seq<BoxCandidateV>,
    inputs2: Seq<UnsignedInputV>,
    data_inputs2: Seq<DataInputV>,
    outputs2: Seq<BoxCandidateV>,
)
    requires
        tx_wf(inputs1, data_inputs1, outputs1),
        outputs_well_typed(outputs1),
        tx_wf(inputs2, data_inputs2, outputs2),
        outputs_well_typed(outputs2),
        signing_bytes(inputs1, data_inputs1, outputs1) == signing_bytes(
            inputs2,
            data_inputs2,
            outputs2,
        ),
    ensures
        inputs1 == inputs2,
        data_inputs1 == data_inputs2,
        outputs1 == outputs2,
{
    lemma_parse_signing_ser(inputs1, data_inputs1, outputs1);
    lemma_parse_signing_ser(inputs2, data_inputs2, outputs2);
}

/// Order significance: with the data-inputs and outputs held fixed, two
/// different input sequences — in particular a permutation that actually
/// changes the sequence — give different signing messages, hence
/// different preimages of the identifier.
pub proof fn lemma_input_order_significant(
    inputs1: Seq<UnsignedInputV>,
    inputs2: Seq<UnsignedInputV>,
    data_inputs: Seq<DataInputV>,
    outputs: Seq<BoxCandidateV>,
)
    requires
        tx_wf(inputs1, data_inputs, outputs),
        tx_wf(inputs2, data_inputs, outputs),
        outputs_well_typed(outputs),
        inputs1 != inputs2,
    ensures
        signing_bytes(inputs1, data_inputs, outputs) != signing_bytes(
            inputs2,
            data_inputs,
            outputs,
        ),
{
    if signing_bytes(inputs1, data_inputs, outputs) == signing_bytes(
        inputs2,
        data_inputs,
        outputs,
    ) {
        lemma_signing_message_injective(
            inputs1,
            data_inputs,
            outputs,
            inputs2,
            data_inputs,
            outputs,
        );
    }
}

} // verus!

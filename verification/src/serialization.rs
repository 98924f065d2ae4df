//! Canonical binary codec for expressions.
//!
//! Serialization writes a node's opcode first and then each operand in a
//! fixed, variant-defined order; the point-decoding node's body after its
//! opcode is exactly its operand's serialization. Parsing reads a tag,
//! dispatches to the variant registered under that tag, parses the
//! operands and reconstructs the node through its validating constructor,
//! so bytes that encode an ill-typed tree fail to parse. The mapping is
//! bijective: parsing the serialization of any well-typed, serializable
//! expression yields that expression back.

use vstd::prelude::*;

use crate::byte_array_to_bigint::ByteArrayToBigInt;
use crate::bytes::append_bytes;
use crate::bytes::copy_range;
use crate::decode_point::DecodePoint;
use crate::expr::tpe_of;
use crate::expr::view_expr;
use crate::expr::well_typed;
use crate::expr::Constant;
use crate::expr::Expr;
use crate::expr::ExprV;
use crate::expr::GlobalVars;
use crate::expr::InvalidArgumentError;
use crate::extract_amount::ExtractAmount;
use crate::opcode::OP_BYTE_ARRAY_TO_BIGINT;
use crate::opcode::OP_CONST_BYTES;
use crate::opcode::OP_DECODE_POINT;
use crate::opcode::OP_EXTRACT_AMOUNT;
use crate::opcode::OP_SELF_BOX;
use crate::stype::SType;

verus! {

/// Largest payload a length-prefixed wire field can carry: its length
/// field is two bytes wide.
pub const MAX_WIRE_LEN: usize = 0xFFFF;

/// Malformed-encoding error: the bytes do not decode to a well-typed
/// expression.
#[derive(PartialEq, Eq, Debug)]
pub enum SerializationError {
    /// The bytes end before the node is complete.
    UnexpectedEof,
    /// A tag under which no variant is registered.
    InvalidOpCode(u8),
    /// The bytes decode to an ill-typed tree: the type error that the
    /// validating constructor raised during reconstruction.
    InvalidArgument(InvalidArgumentError),
    /// Bytes remain after the root expression is complete.
    TrailingBytes,
}

/// Error raised when a value cannot be put in canonical byte form: some
/// length or count exceeds what its fixed-width wire field can carry.
#[derive(PartialEq, Eq, Debug)]
pub enum SigmaSerializationError {
    /// A collection or count is too large for its two-byte wire field.
    OutOfBounds,
}

/// The two-byte big-endian wire form of a length or count `n`
/// (meaningful for `0 <= n <= 0xFFFF`).
pub open spec fn ser_len16(n: int) -> Seq<u8> {
    seq![(n / 256) as u8, (n % 256) as u8]
}

/// Canonical serialization of an expression: the node's opcode, then its
/// operands in a fixed order. A literal's bytes are length-prefixed; an
/// operator's body is exactly its operand's serialization.
pub open spec fn ser_expr(e: ExprV) -> Seq<u8>
    decreases e,
{
    match e {
        ExprV::Const(v) => seq![OP_CONST_BYTES] + ser_len16(v.len() as int) + v,
        ExprV::SelfBox => seq![OP_SELF_BOX],
        ExprV::ByteArrayToBigInt(i) => seq![OP_BYTE_ARRAY_TO_BIGINT] + ser_expr(*i),
        ExprV::DecodePoint(i) => seq![OP_DECODE_POINT] + ser_expr(*i),
        ExprV::ExtractAmount(i) => seq![OP_EXTRACT_AMOUNT] + ser_expr(*i),
    }
}

/// Whether an expression fits the wire format: every literal in it is
/// short enough for its two-byte length field.
pub open spec fn expr_wf(e: ExprV) -> bool
    decreases e,
{
    match e {
        ExprV::Const(v) => v.len() <= MAX_WIRE_LEN,
        ExprV::SelfBox => true,
        ExprV::ByteArrayToBigInt(i) => expr_wf(*i),
        ExprV::DecodePoint(i) => expr_wf(*i),
        ExprV::ExtractAmount(i) => expr_wf(*i),
    }
}

/// Parse of one expression starting at `pos`: reads the tag, dispatches
/// on it, parses the operand and rebuilds the variant, rejecting
/// ill-typed operands exactly as the validating constructors do. Returns
/// the expression and the position just past it.
pub open spec fn parse_expr(bytes: Seq<u8>, pos: int) -> Result<
    (ExprV, int),
    SerializationError,
>
    decreases bytes.len() - pos,
{
    if pos < 0 || pos >= bytes.len() {
        Err(SerializationError::UnexpectedEof)
    } else {
        let op = bytes[pos];
        if op == OP_CONST_BYTES {
            if pos + 3 > bytes.len() {
                Err(SerializationError::UnexpectedEof)
            } else {
                let n = bytes[pos + 1] as int * 256 + bytes[pos + 2] as int;
                if pos + 3 + n > bytes.len() {
                    Err(SerializationError::UnexpectedEof)
                } else {
                    Ok((ExprV::Const(bytes.subrange(pos + 3, pos + 3 + n)), pos + 3 + n))
                }
            }
        } else if op == OP_SELF_BOX {
            Ok((ExprV::SelfBox, pos + 1))
        } else if op == OP_BYTE_ARRAY_TO_BIGINT || op == OP_DECODE_POINT || op
            == OP_EXTRACT_AMOUNT {
            match parse_expr(bytes, pos + 1) {
                Ok((operand, end)) => {
                    let required = if op == OP_EXTRACT_AMOUNT {
                        SType::SBox
                    } else {
                        SType::SColl(Box::new(SType::SByte))
                    };
                    if tpe_of(operand) == required {
                        if op == OP_BYTE_ARRAY_TO_BIGINT {
                            Ok((ExprV::ByteArrayToBigInt(Box::new(operand)), end))
                        } else if op == OP_DECODE_POINT {
                            Ok((ExprV::DecodePoint(Box::new(operand)), end))
                        } else {
                            Ok((ExprV::ExtractAmount(Box::new(operand)), end))
                        }
                    } else {
                        Err(
                            SerializationError::InvalidArgument(
                                InvalidArgumentError { expected: required, actual: tpe_of(operand) },
                            ),
                        )
                    }
                },
                Err(e) => Err(e),
            }
        } else {
            Err(SerializationError::InvalidOpCode(op))
        }
    }
}

/// Parse of a whole byte sequence as one expression: every byte must be
/// consumed.
pub open spec fn parse_root(bytes: Seq<u8>) -> Result<ExprV, SerializationError> {
    match parse_expr(bytes, 0) {
        Ok((e, end)) => if end == bytes.len() {
            Ok(e)
        } else {
            Err(SerializationError::TrailingBytes)
        },
        Err(e) => Err(e),
    }
}

/// Whatever a parse returns is well-typed, fits the wire format, and
/// ends past where it started and within the bytes.
pub proof fn lemma_parse_well_typed(bytes: Seq<u8>, pos: int)
    ensures
        parse_expr(bytes, pos) matches Ok((e, end)) ==> well_typed(e) && expr_wf(e) && pos < end
            <= bytes.len(),
    decreases bytes.len() - pos,
{
    if 0 <= pos < bytes.len() {
        let op = bytes[pos];
        if op == OP_BYTE_ARRAY_TO_BIGINT || op == OP_DECODE_POINT || op == OP_EXTRACT_AMOUNT {
            lemma_parse_well_typed(bytes, pos + 1);
        }
    }
}

/// Round-trip of the codec, stated over any enclosing byte sequence:
/// wherever the serialization of a well-typed, serializable expression
/// stands, parsing from its first byte returns exactly that expression
/// and stops exactly past its last byte.
pub proof fn lemma_parse_serialize(e: ExprV, bytes: Seq<u8>, pos: int)
    requires
        well_typed(e),
        expr_wf(e),
        0 <= pos,
        pos + ser_expr(e).len() <= bytes.len(),
        bytes.subrange(pos, pos + ser_expr(e).len() as int) == ser_expr(e),
    ensures
        parse_expr(bytes, pos) == Ok::<(ExprV, int), SerializationError>(
            (e, pos + ser_expr(e).len() as int),
        ),
    decreases e,
{
    let s = ser_expr(e);
    assert(bytes[pos] == s[0]) by {
        assert(bytes.subrange(pos, pos + s.len() as int)[0] == s[0]);
    }
    match e {
        ExprV::Const(v) => {
            assert(bytes[pos + 1] == s[1]);
            assert(bytes[pos + 2] == s[2]);
            assert(s[1] == (v.len() as int / 256) as u8);
            assert(s[2] == (v.len() as int % 256) as u8);
            let n = bytes[pos + 1] as int * 256 + bytes[pos + 2] as int;
            assert(n == v.len());
            assert(bytes.subrange(pos + 3, pos + 3 + n) =~= v) by {
                assert forall|k: int| 0 <= k < n implies bytes.subrange(pos + 3, pos + 3 + n)[k]
                    == v[k] by {
                    assert(bytes.subrange(pos, pos + s.len() as int)[3 + k] == s[3 + k]);
                }
            }
        },
        ExprV::SelfBox => {
        },
        ExprV::ByteArrayToBigInt(i) => {
            lemma_unary_step(ser_expr(*i), bytes, pos, s);
            lemma_parse_serialize(*i, bytes, pos + 1);
        },
        ExprV::DecodePoint(i) => {
            lemma_unary_step(ser_expr(*i), bytes, pos, s);
            lemma_parse_serialize(*i, bytes, pos + 1);
        },
        ExprV::ExtractAmount(i) => {
            lemma_unary_step(ser_expr(*i), bytes, pos, s);
            lemma_parse_serialize(*i, bytes, pos + 1);
        },
    }
}

/// Where the serialization of an operator node stands at `pos`, the
/// operand's serialization stands at `pos + 1`.
proof fn lemma_unary_step(inner: Seq<u8>, bytes: Seq<u8>, pos: int, s: Seq<u8>)
    requires
        0 <= pos,
        s.len() == 1 + inner.len(),
        forall|k: int| 0 <= k < inner.len() ==> s[1 + k] == inner[k],
        pos + s.len() <= bytes.len(),
        bytes.subrange(pos, pos + s.len() as int) == s,
    ensures
        bytes.subrange(pos + 1, pos + 1 + inner.len() as int) == inner,
{
    assert(bytes.subrange(pos + 1, pos + 1 + inner.len() as int) =~= inner) by {
        assert forall|k: int| 0 <= k < inner.len() implies bytes.subrange(
            pos + 1,
            pos + 1 + inner.len() as int,
        )[k] == inner[k] by {
            assert(bytes.subrange(pos, pos + s.len() as int)[1 + k] == s[1 + k]);
        }
    }
}

/// Bijectivity of the codec (round-trip law): parsing the serialization
/// of any well-typed, serializable expression returns that expression.
pub proof fn lemma_round_trip(e: ExprV)
    requires
        well_typed(e),
        expr_wf(e),
    ensures
        parse_root(ser_expr(e)) == Ok::<ExprV, SerializationError>(e),
{
    let s = ser_expr(e);
    assert(s.subrange(0, s.len() as int) =~= s);
    lemma_parse_serialize(e, s, 0);
}

/// Injectivity of the codec: two well-typed, serializable expressions
/// with the same canonical bytes are the same expression.
pub proof fn lemma_ser_injective(a: ExprV, b: ExprV)
    requires
        well_typed(a),
        expr_wf(a),
        well_typed(b),
        expr_wf(b),
        ser_expr(a) == ser_expr(b),
    ensures
        a == b,
{
    lemma_round_trip(a);
    lemma_round_trip(b);
}

/// Appends the canonical serialization of `e` to `out`. Fails, leaving
/// `out` in an unspecified state, exactly when some literal in `e` is too
/// long for the wire format.
pub(crate) fn append_expr(e: &Expr, out: &mut Vec<u8>) -> (r: Result<(), SigmaSerializationError>)
    ensures
        r is Ok <==> expr_wf(view_expr(*e)),
        r is Ok ==> final(out)@ == old(out)@ + ser_expr(view_expr(*e)),
    decreases *e,
{
    match e {
        Expr::Const(c) => {
            if c.bytes.len() > MAX_WIRE_LEN {
                return Err(SigmaSerializationError::OutOfBounds);
            }
            out.push(OP_CONST_BYTES);
            let len = c.bytes.len();
            out.push((len / 256) as u8);
            out.push((len % 256) as u8);
            append_bytes(out, &c.bytes);
            proof {
                assert(out@ =~= old(out)@ + ser_expr(view_expr(*e)));
            }
            Ok(())
        },
        Expr::GlobalVars(_) => {
            out.push(OP_SELF_BOX);
            proof {
                assert(out@ =~= old(out)@ + ser_expr(view_expr(*e)));
            }
            Ok(())
        },
        Expr::ByteArrayToBigInt(n) => {
            out.push(OP_BYTE_ARRAY_TO_BIGINT);
            match append_expr(&n.input, out) {
                Ok(()) => {
                    proof {
                        assert(out@ =~= old(out)@ + ser_expr(view_expr(*e)));
                    }
                    Ok(())
                },
                Err(err) => Err(err),
            }
        },
        Expr::DecodePoint(n) => {
            out.push(OP_DECODE_POINT);
            match append_expr(&n.input, out) {
                Ok(()) => {
                    proof {
                        assert(out@ =~= old(out)@ + ser_expr(view_expr(*e)));
                    }
                    Ok(())
                },
                Err(err) => Err(err),
            }
        },
        Expr::ExtractAmount(n) => {
            out.push(OP_EXTRACT_AMOUNT);
            match append_expr(&n.input, out) {
                Ok(()) => {
                    proof {
                        assert(out@ =~= old(out)@ + ser_expr(view_expr(*e)));
                    }
                    Ok(())
                },
                Err(err) => Err(err),
            }
        },
    }
}

/// Canonical serialization of an expression. Succeeds exactly when every
/// literal in the expression fits the wire format, and then returns its
/// canonical bytes.
pub fn sigma_serialize(e: &Expr) -> (r: Result<Vec<u8>, SigmaSerializationError>)
    ensures
        r is Ok <==> expr_wf(view_expr(*e)),
        r matches Ok(bytes) ==> bytes@ == ser_expr(view_expr(*e)),
{
    let mut out: Vec<u8> = Vec::new();
    match append_expr(e, &mut out) {
        Ok(()) => {
            proof {
                assert(out@ =~= ser_expr(view_expr(*e)));
            }
            Ok(out)
        },
        Err(err) => Err(err),
    }
}

/// Parses one expression starting at `pos`, returning the node and the
/// position just past it; reconstruction goes through the validating
/// constructors.
fn parse_expr_at(bytes: &Vec<u8>, pos: usize) -> (r: Result<(Expr, usize), SerializationError>)
    ensures
        r matches Ok((e, end)) ==> parse_expr(bytes@, pos as int) == Ok::<
            (ExprV, int),
            SerializationError,
        >((view_expr(e), end as int)),
        r matches Err(err) ==> parse_expr(bytes@, pos as int) == Err::<
            (ExprV, int),
            SerializationError,
        >(err),
    decreases bytes@.len() - pos,
{
    if pos >= bytes.len() {
        return Err(SerializationError::UnexpectedEof);
    }
    let op = bytes[pos];
    if op == OP_CONST_BYTES {
        if bytes.len() - pos < 3 {
            return Err(SerializationError::UnexpectedEof);
        }
        let n: usize = (bytes[pos + 1] as usize) * 256 + (bytes[pos + 2] as usize);
        if bytes.len() - (pos + 3) < n {
            return Err(SerializationError::UnexpectedEof);
        }
        let v = copy_range(bytes, pos + 3, pos + 3 + n);
        Ok((Expr::Const(Constant { bytes: v }), pos + 3 + n))
    } else if op == OP_SELF_BOX {
        Ok((Expr::GlobalVars(GlobalVars::SelfBox), pos + 1))
    } else if op == OP_BYTE_ARRAY_TO_BIGINT {
        match parse_expr_at(bytes, pos + 1) {
            Ok((operand, end)) => match ByteArrayToBigInt::try_build(operand) {
                Ok(node) => Ok((Expr::ByteArrayToBigInt(node), end)),
                Err(e) => Err(SerializationError::InvalidArgument(e)),
            },
            Err(err) => Err(err),
        }
    } else if op == OP_DECODE_POINT {
        match parse_expr_at(bytes, pos + 1) {
            Ok((operand, end)) => match DecodePoint::try_build(operand) {
                Ok(node) => Ok((Expr::DecodePoint(node), end)),
                Err(e) => Err(SerializationError::InvalidArgument(e)),
            },
            Err(err) => Err(err),
        }
    } else if op == OP_EXTRACT_AMOUNT {
        match parse_expr_at(bytes, pos + 1) {
            Ok((operand, end)) => match ExtractAmount::try_build(operand) {
                Ok(node) => Ok((Expr::ExtractAmount(node), end)),
                Err(e) => Err(SerializationError::InvalidArgument(e)),
            },
            Err(err) => Err(err),
        }
    } else {
        Err(SerializationError::InvalidOpCode(op))
    }
}

/// Parses a whole byte sequence as one expression. Succeeds exactly when
/// the bytes are the canonical serialization of one well-typed
/// expression; the result is then that expression, well-typed and
/// serializable.
pub fn sigma_parse(bytes: &Vec<u8>) -> (r: Result<Expr, SerializationError>)
    ensures
        r is Ok <==> parse_root(bytes@) is Ok,
        r matches Ok(e) ==> parse_root(bytes@) == Ok::<ExprV, SerializationError>(view_expr(e))
            && well_typed(view_expr(e)) && expr_wf(view_expr(e)),
        r matches Err(err) ==> parse_root(bytes@) == Err::<ExprV, SerializationError>(err),
{
    proof {
        lemma_parse_well_typed(bytes@, 0);
    }
    match parse_expr_at(bytes, 0) {
        Ok((e, end)) => {
            if end == bytes.len() {
                Ok(e)
            } else {
                Err(SerializationError::TrailingBytes)
            }
        },
        Err(err) => Err(err),
    }
}

} // verus!

//! Core expression/type engine and canonical binary codec for a
//! blockchain scripting language, together with the transaction data
//! model whose identity is derived from that codec.
//!
//! The library provides:
//! - a closed set of semantic types with structural equality,
//! - a stable opcode registry tagging each expression variant,
//! - a typed expression tree whose constructors reject ill-typed
//!   operands, so only well-typed programs can be built,
//! - a canonical, bijective binary serialization of expressions,
//! - unsigned/signed transaction structures whose content-addressed
//!   identifier is the hash of a canonical signing message.

pub mod byte_array_to_bigint;
pub mod digest32;
pub mod ergo_box;
pub mod input;
pub mod bytes;
pub mod decode_point;
pub mod expr;
pub mod extract_amount;
pub mod opcode;
pub mod serialization;
pub mod transaction;
pub mod tx_codec;
pub mod stype;

pub use byte_array_to_bigint::ByteArrayToBigInt;
pub use decode_point::DecodePoint;
pub use expr::Constant;
pub use expr::Expr;
pub use expr::GlobalVars;
pub use expr::InvalidArgumentError;
pub use ergo_box::ErgoBoxCandidate;
pub use extract_amount::ExtractAmount;
pub use input::BoxId;
pub use input::ContextExtension;
pub use input::DataInput;
pub use input::Input;
pub use input::ProofBytes;
pub use input::ProverResult;
pub use input::UnsignedInput;
pub use opcode::OpCode;
pub use serialization::SerializationError;
pub use serialization::SigmaSerializationError;
pub use serialization::sigma_parse;
pub use serialization::sigma_serialize;
pub use stype::SType;
pub use transaction::Transaction;
pub use transaction::TxId;
pub use transaction::UnsignedTransaction;

use sigma_tree::ergo_box::ErgoBoxCandidate;
use sigma_tree::expr::Expr;
use sigma_tree::expr::GlobalVars;
use sigma_tree::extract_amount::ExtractAmount;
use sigma_tree::input::BoxId;
use sigma_tree::input::ContextExtension;
use sigma_tree::input::DataInput;
use sigma_tree::input::Input;
use sigma_tree::input::ProofBytes;
use sigma_tree::input::ProverResult;
use sigma_tree::input::UnsignedInput;
use sigma_tree::serialization::SigmaSerializationError;
use sigma_tree::transaction::Transaction;
use sigma_tree::transaction::TxId;
use sigma_tree::transaction::UnsignedTransaction;

fn box_id(fill: u8) -> BoxId {
    BoxId::from_bytes(vec![fill; 32]).unwrap()
}

fn unsigned_input(fill: u8) -> UnsignedInput {
    UnsignedInput::new(box_id(fill), ContextExtension::empty())
}

fn output(value: u64) -> ErgoBoxCandidate {
    ErgoBoxCandidate {
        value,
        script: Expr::GlobalVars(GlobalVars::SelfBox),
        additional_registers: vec![],
    }
}

#[test]
fn unsigned_tx_bytes_to_sign_and_stable_id() {
    let tx = UnsignedTransaction::new(vec![unsigned_input(1)], vec![], vec![output(1000)])
        .unwrap();
    assert!(!tx.bytes_to_sign().unwrap().is_empty());
    assert_eq!(tx.id(), tx.id());
}

#[test]
fn id_is_deterministic_across_constructions() {
    let make = || {
        UnsignedTransaction::new(
            vec![unsigned_input(1), unsigned_input(2)],
            vec![DataInput { box_id: box_id(3) }],
            vec![output(1000), output(25)],
        )
        .unwrap()
    };
    assert_eq!(make().id(), make().id());
}

#[test]
fn permuting_inputs_changes_id() {
    let a = UnsignedTransaction::new(
        vec![unsigned_input(1), unsigned_input(2)],
        vec![],
        vec![output(1000)],
    )
    .unwrap();
    let b = UnsignedTransaction::new(
        vec![unsigned_input(2), unsigned_input(1)],
        vec![],
        vec![output(1000)],
    )
    .unwrap();
    assert_ne!(a.bytes_to_sign().unwrap(), b.bytes_to_sign().unwrap());
    assert_ne!(a.id(), b.id());
}

#[test]
fn signing_does_not_change_id() {
    let unsigned = UnsignedTransaction::new(
        vec![unsigned_input(1), unsigned_input(2)],
        vec![DataInput { box_id: box_id(3) }],
        vec![output(1000)],
    )
    .unwrap();
    // attach non-empty proof bytes to each input
    let signed_inputs: Vec<Input> = unsigned
        .inputs
        .iter()
        .map(|ui| {
            Input::new(
                ui.box_id.clone(),
                ProverResult {
                    proof_bytes: ProofBytes::from_bytes(vec![0xDE, 0xAD, 0xBE, 0xEF]).unwrap(),
                    extension: ui.extension.clone(),
                },
            )
        })
        .collect();
    let signed = Transaction::new(
        signed_inputs,
        unsigned.data_inputs.clone(),
        unsigned.output_candidates.clone(),
    )
    .unwrap();
    assert_eq!(signed.bytes_to_sign().unwrap(), unsigned.bytes_to_sign().unwrap());
    assert_eq!(signed.id(), unsigned.id());
}

#[test]
fn id_is_the_blake2b256_digest_of_the_signing_message() {
    let tx = UnsignedTransaction::new(vec![unsigned_input(9)], vec![], vec![output(7)]).unwrap();
    let msg = tx.bytes_to_sign().unwrap();
    let digest = <blake2::Blake2b<blake2::digest::consts::U32> as blake2::Digest>::digest(
        msg.as_slice(),
    );
    assert_eq!(tx.id().as_bytes().as_slice(), digest.as_slice());
    assert_eq!(tx.id().as_bytes().len(), 32);
    assert_ne!(msg.len(), 32);
}

#[test]
fn construction_fails_on_oversized_output() {
    let bad = ErgoBoxCandidate {
        value: 1,
        script: Expr::GlobalVars(GlobalVars::SelfBox),
        additional_registers: vec![0u8; 0x10000],
    };
    let r = UnsignedTransaction::new(vec![unsigned_input(1)], vec![], vec![bad]);
    assert!(matches!(r, Err(SigmaSerializationError::OutOfBounds)));
}

#[test]
fn box_id_must_be_32_bytes() {
    assert!(BoxId::from_bytes(vec![0u8; 31]).is_none());
    assert!(BoxId::from_bytes(vec![0u8; 33]).is_none());
    assert!(BoxId::from_bytes(vec![0u8; 32]).is_some());
}

#[test]
fn extension_and_proof_must_fit_the_wire_format() {
    assert!(ContextExtension::from_bytes(vec![0u8; 0x10000]).is_none());
    assert!(ContextExtension::from_bytes(vec![0u8; 0xFFFF]).is_some());
    assert!(ProofBytes::from_bytes(vec![0u8; 0x10000]).is_none());
    assert!(ProofBytes::from_bytes(vec![]).unwrap().is_empty());
    assert!(!ProofBytes::from_bytes(vec![1]).unwrap().is_empty());
}

#[test]
fn zero_id_is_32_zero_bytes() {
    assert_eq!(TxId::zero().as_bytes().as_slice(), [0u8; 32].as_slice());
}

#[test]
fn signing_message_layout_is_deterministic() {
    // one input with empty extension, no data inputs, one output holding
    // an amount-extraction script over the self box
    let tx = UnsignedTransaction::new(
        vec![unsigned_input(0xAA)],
        vec![],
        vec![ErgoBoxCandidate {
            value: 1000,
            script: Expr::ExtractAmount(ExtractAmount {
                input: Box::new(Expr::GlobalVars(GlobalVars::SelfBox)),
            }),
            additional_registers: vec![0x10],
        }],
    )
    .unwrap();
    let mut expected: Vec<u8> = vec![0, 1];
    expected.extend_from_slice(&[0xAA; 32]);
    expected.extend_from_slice(&[0, 0]); // empty-proof placeholder
    expected.extend_from_slice(&[0, 0]); // empty extension
    expected.extend_from_slice(&[0, 0]); // no data inputs
    expected.extend_from_slice(&[0, 1]); // one output
    expected.extend_from_slice(&[0, 0, 0, 0, 0, 0, 0x03, 0xE8]); // value 1000
    expected.extend_from_slice(&[129, 167]); // the script
    expected.extend_from_slice(&[0, 1, 0x10]); // registers
    assert_eq!(tx.bytes_to_sign().unwrap(), expected);
}

use starknet_signer::context::{Ctx, RequestType, SIGNATURE_TAG, TX_CALL, TX_CALLDATA, TX_FIELDS, TX_LENGTHS};
use starknet_signer::error::Error;
use starknet_signer::field::FieldElement;
use starknet_signer::tx::{Action, Assembler, Decision, Phase};

fn fe(n: u8) -> FieldElement {
    let mut value = [0u8; 32];
    value[31] = n;
    FieldElement { value }
}

fn bytes_of(elems: &[u8]) -> Vec<u8> {
    let mut out = Vec::new();
    for e in elems {
        out.extend_from_slice(&fe(*e).value);
    }
    out
}

fn lengths(cal: u32, cdl: u32) -> Vec<u8> {
    let mut out = cal.to_be_bytes().to_vec();
    out.extend_from_slice(&cdl.to_be_bytes());
    out
}

// A stand-in for the domain hash that records what it was asked.
fn fake_hash(a: &FieldElement, b: &FieldElement) -> FieldElement {
    let mut value = [0u8; 32];
    for i in 0..32 {
        value[i] = a.value[i].wrapping_mul(31).wrapping_add(b.value[i]).wrapping_add(1);
    }
    FieldElement { value }
}

// Runs the outside work until the assembler is idle; returns the elements
// folded and the commitment handed for signing, if any.
fn drive(tx: &mut Assembler, decision: Decision) -> (Vec<FieldElement>, Option<FieldElement>, Option<Error>) {
    let mut folded = Vec::new();
    loop {
        match tx.next_action() {
            Action::Idle => return (folded, None, None),
            Action::Hash(a, b) => {
                assert_eq!(a, tx.acc);
                folded.push(b);
                tx.hash_result(fake_hash(&a, &b)).unwrap();
            }
            Action::Review(_) => {
                if let Err(e) = tx.review_decision(decision) {
                    return (folded, None, Some(e));
                }
            }
            Action::Sign(h) => {
                tx.finish().unwrap();
                return (folded, Some(h), None);
            }
        }
    }
}

fn fields_payload() -> Vec<u8> {
    bytes_of(&[10, 11, 12, 13, 14])
}

#[test]
fn full_transaction_folds_every_element_in_order() {
    let mut tx = Assembler::new();
    tx.set_fields(&fields_payload()).unwrap();
    let (f, s, _) = drive(&mut tx, Decision::Accepted);
    assert_eq!(f, vec![fe(10), fe(11), fe(12), fe(13), fe(14)]);
    assert!(s.is_none());
    tx.set_lengths(&lengths(1, 2)).unwrap();
    assert_eq!(tx.phase, Phase::Collecting);
    tx.add_call(0, &bytes_of(&[20, 21, 0, 2])).unwrap();
    let (f, s, _) = drive(&mut tx, Decision::Accepted);
    assert_eq!(f, vec![fe(20), fe(21), fe(0), fe(2)]);
    assert!(s.is_none());
    tx.add_calldata(0, &bytes_of(&[30])).unwrap();
    assert_eq!(tx.next_action(), Action::Review(fe(30)));
    let (f, s, _) = drive(&mut tx, Decision::Accepted);
    assert_eq!(f, vec![fe(30)]);
    assert!(s.is_none());
    tx.add_calldata(1, &bytes_of(&[31])).unwrap();
    let (f, s, _) = drive(&mut tx, Decision::Accepted);
    // entry, both lengths, then the element count 5 + 4 + 2 + 3
    assert_eq!(f, vec![fe(31), fe(1), fe(2), fe(14)]);
    assert_eq!(s, Some(tx.acc));
    assert_eq!(tx.phase, Phase::Done);
    assert_eq!(tx.next_action(), Action::Idle);
    assert_eq!(tx.finish(), Err(Error::IndexOutOfOrder));
    assert_eq!(tx.add_calldata(2, &bytes_of(&[32])), Err(Error::IndexOutOfOrder));
}

#[test]
fn empty_transaction_completes_on_lengths() {
    let mut tx = Assembler::new();
    tx.set_fields(&fields_payload()).unwrap();
    drive(&mut tx, Decision::Accepted);
    tx.set_lengths(&lengths(0, 0)).unwrap();
    assert_eq!(tx.phase, Phase::Signing);
    let (f, s, _) = drive(&mut tx, Decision::Accepted);
    assert_eq!(f, vec![fe(0), fe(0), fe(8)]);
    assert!(s.is_some());
    assert_eq!(tx.phase, Phase::Done);
}

#[test]
fn fewer_calls_than_declared_never_sign() {
    let mut tx = Assembler::new();
    tx.set_fields(&fields_payload()).unwrap();
    drive(&mut tx, Decision::Accepted);
    tx.set_lengths(&lengths(2, 0)).unwrap();
    tx.add_call(0, &bytes_of(&[1, 2, 0, 0])).unwrap();
    let (_, s, _) = drive(&mut tx, Decision::Accepted);
    assert!(s.is_none());
    assert_eq!(tx.phase, Phase::Collecting);
    assert_eq!(tx.add_calldata(0, &bytes_of(&[9])), Err(Error::IndexOutOfRange));
    tx.add_call(1, &bytes_of(&[3, 4, 0, 0])).unwrap();
    let (f, s, _) = drive(&mut tx, Decision::Accepted);
    assert_eq!(f, vec![fe(3), fe(4), fe(0), fe(0), fe(2), fe(0), fe(16)]);
    assert!(s.is_some());
}

#[test]
fn skipped_repeated_and_reversed_indices_are_refused() {
    let mut tx = Assembler::new();
    tx.set_fields(&fields_payload()).unwrap();
    drive(&mut tx, Decision::Accepted);
    tx.set_lengths(&lengths(3, 1)).unwrap();
    let call = bytes_of(&[1, 2, 3, 4]);
    assert_eq!(tx.add_call(1, &call), Err(Error::IndexOutOfOrder));
    assert_eq!(tx.call_array.len(), 0);
    assert!(tx.pending.is_empty());
    tx.add_call(0, &call).unwrap();
    drive(&mut tx, Decision::Accepted);
    let acc = tx.acc;
    assert_eq!(tx.add_call(0, &call), Err(Error::IndexOutOfOrder));
    assert_eq!(tx.add_call(3, &call), Err(Error::IndexOutOfRange));
    tx.add_call(1, &call).unwrap();
    drive(&mut tx, Decision::Accepted);
    assert_ne!(tx.acc, acc);
    let acc = tx.acc;
    assert_eq!(tx.add_call(0, &call), Err(Error::IndexOutOfOrder));
    assert_eq!(tx.call_array.len(), 2);
    assert_eq!(tx.acc, acc);
    assert!(tx.pending.is_empty());
    assert_eq!(tx.phase, Phase::Collecting);
}

#[test]
fn fragments_out_of_order_are_refused() {
    let mut tx = Assembler::new();
    assert_eq!(tx.set_lengths(&lengths(1, 1)), Err(Error::IndexOutOfOrder));
    assert_eq!(tx.add_call(0, &bytes_of(&[1, 2, 3, 4])), Err(Error::IndexOutOfOrder));
    tx.set_fields(&fields_payload()).unwrap();
    // the fields are still being folded
    assert_eq!(tx.set_lengths(&lengths(1, 1)), Err(Error::IndexOutOfOrder));
    drive(&mut tx, Decision::Accepted);
    assert_eq!(tx.set_fields(&fields_payload()), Err(Error::IndexOutOfOrder));
}

#[test]
fn malformed_payloads_are_refused() {
    let mut tx = Assembler::new();
    assert_eq!(tx.set_fields(&[0u8; 159]), Err(Error::MalformedData));
    assert_eq!(tx.phase, Phase::AwaitFields);
    tx.set_fields(&fields_payload()).unwrap();
    drive(&mut tx, Decision::Accepted);
    assert_eq!(tx.set_lengths(&[0u8; 7]), Err(Error::MalformedData));
    tx.set_lengths(&lengths(1, 1)).unwrap();
    assert_eq!(tx.add_call(0, &[0u8; 127]), Err(Error::MalformedData));
    tx.add_call(0, &bytes_of(&[1, 2, 3, 4])).unwrap();
    drive(&mut tx, Decision::Accepted);
    assert_eq!(tx.add_calldata(0, &[0u8; 33]), Err(Error::MalformedData));
}

#[test]
fn lengths_over_capacity_are_refused() {
    let mut tx = Assembler::new();
    tx.set_fields(&fields_payload()).unwrap();
    drive(&mut tx, Decision::Accepted);
    assert_eq!(tx.set_lengths(&lengths(9, 0)), Err(Error::CapacityExceeded));
    assert_eq!(tx.set_lengths(&lengths(0, 65)), Err(Error::CapacityExceeded));
    assert_eq!(tx.set_lengths(&lengths(0x0100_0000, 0)), Err(Error::CapacityExceeded));
    assert_eq!(tx.phase, Phase::AwaitLengths);
    tx.set_lengths(&lengths(8, 64)).unwrap();
    assert_eq!(tx.call_array_len, 8);
    assert_eq!(tx.calldata_len, 64);
}

#[test]
fn rejected_review_aborts_without_signature() {
    let mut tx = Assembler::new();
    tx.set_fields(&fields_payload()).unwrap();
    drive(&mut tx, Decision::Accepted);
    tx.set_lengths(&lengths(0, 1)).unwrap();
    tx.add_calldata(0, &bytes_of(&[7])).unwrap();
    let acc = tx.acc;
    let (f, s, e) = drive(&mut tx, Decision::Rejected);
    assert!(f.is_empty());
    assert!(s.is_none());
    assert_eq!(e, Some(Error::UserCancelled));
    assert_eq!(tx.phase, Phase::Aborted);
    assert_eq!(tx.acc, acc);
    assert!(tx.calldata.is_empty());
    assert_eq!(tx.next_action(), Action::Idle);
    assert_eq!(tx.add_calldata(0, &bytes_of(&[7])), Err(Error::IndexOutOfOrder));
}

#[test]
fn failed_review_is_an_unspecified_failure() {
    let mut tx = Assembler::new();
    tx.set_fields(&fields_payload()).unwrap();
    drive(&mut tx, Decision::Accepted);
    tx.set_lengths(&lengths(0, 1)).unwrap();
    tx.add_calldata(0, &bytes_of(&[7])).unwrap();
    let (_, s, e) = drive(&mut tx, Decision::Failed);
    assert!(s.is_none());
    assert_eq!(e, Some(Error::UnspecifiedFailure));
    assert_eq!(tx.review_decision(Decision::Accepted), Err(Error::IndexOutOfOrder));
}

#[test]
fn hash_result_without_pending_work_is_refused() {
    let mut tx = Assembler::new();
    assert_eq!(tx.hash_result(fe(1)), Err(Error::IndexOutOfOrder));
    assert_eq!(tx.acc, FieldElement::zero());
}

#[test]
fn same_transaction_gives_same_commitment() {
    let run = || {
        let mut ctx = Ctx::new();
        ctx.start_request(RequestType::SignTransaction, &[1, 0x80, 0, 0, 0x2c]).unwrap();
        ctx.tx_message(TX_FIELDS, 0, &fields_payload()).unwrap();
        drive(&mut ctx.tx_info, Decision::Accepted);
        ctx.tx_message(TX_LENGTHS, 0, &lengths(1, 1)).unwrap();
        ctx.tx_message(TX_CALL, 0, &bytes_of(&[5, 6, 0, 1])).unwrap();
        drive(&mut ctx.tx_info, Decision::Accepted);
        ctx.tx_message(TX_CALLDATA, 0, &bytes_of(&[42])).unwrap();
        loop {
            match ctx.tx_info.next_action() {
                Action::Hash(a, b) => ctx.tx_info.hash_result(fake_hash(&a, &b)).unwrap(),
                Action::Review(_) => ctx.tx_info.review_decision(Decision::Accepted).unwrap(),
                Action::Sign(h) => {
                    let taken = ctx.take_commitment().unwrap();
                    assert_eq!(taken, h);
                    assert_eq!(ctx.hash_info.m_hash, h);
                    assert_eq!(ctx.take_commitment(), Err(Error::IndexOutOfOrder));
                    return h;
                }
                Action::Idle => panic!("transaction did not complete"),
            }
        }
    };
    assert_eq!(run(), run());
}

#[test]
fn fragments_need_a_transaction_request() {
    let mut ctx = Ctx::new();
    assert_eq!(ctx.tx_message(TX_FIELDS, 0, &fields_payload()), Err(Error::IndexOutOfOrder));
    ctx.start_request(RequestType::SignHash, &[0]).unwrap();
    assert_eq!(ctx.tx_message(TX_FIELDS, 0, &fields_payload()), Err(Error::IndexOutOfOrder));
    assert_eq!(ctx.take_commitment(), Err(Error::IndexOutOfOrder));
    ctx.start_request(RequestType::SignTransaction, &[0]).unwrap();
    assert_eq!(ctx.tx_message(9, 0, &fields_payload()), Ok(()));
    assert_eq!(ctx.tx_info.phase, Phase::AwaitFields);
    assert_eq!(ctx.tx_message(TX_FIELDS, 0, &fields_payload()), Ok(()));
    assert_eq!(ctx.tx_info.phase, Phase::AwaitLengths);
}

#[test]
fn signature_reply_layout() {
    let mut ctx = Ctx::new();
    let mut r = [0u8; 32];
    let mut s = [0u8; 32];
    for i in 0..32 {
        r[i] = i as u8;
        s[i] = 100 + i as u8;
    }
    ctx.record_signature(FieldElement { value: r }, FieldElement { value: s }, 1);
    let reply = ctx.signature_reply();
    assert_eq!(reply.len(), 66);
    assert_eq!(reply[0], SIGNATURE_TAG);
    assert_eq!(reply[0], 0x41);
    assert_eq!(&reply[1..33], &r[..]);
    assert_eq!(&reply[33..65], &s[..]);
    assert_eq!(reply[65], 1);
}

use ckb_typed_message::{
    blake2b_256, encode_extended_witness, generate_final_hash, generate_skeleton_hash,
    parse_typed_message, Error, ExtendedWitness, Sighash, SighashWithAction, TxEnv,
};

fn enc_sighash(lock: Vec<u8>) -> Vec<u8> {
    encode_extended_witness(&ExtendedWitness::Sighash(Sighash { lock }))
}

fn enc_action(lock: Vec<u8>, message: Vec<u8>) -> Vec<u8> {
    encode_extended_witness(&ExtendedWitness::SighashWithAction(SighashWithAction {
        lock,
        message,
    }))
}

fn window(input_count: u32) -> [u8; 8] {
    let inputs_offset: u32 = 100;
    let outputs_offset: u32 = inputs_offset + 4 + 44 * input_count;
    let mut w = [0u8; 8];
    w[0..4].copy_from_slice(&inputs_offset.to_le_bytes());
    w[4..8].copy_from_slice(&outputs_offset.to_le_bytes());
    w
}

fn final_of(skeleton: &[u8; 32], message: &[u8]) -> [u8; 32] {
    let mut pre = Vec::new();
    pre.extend_from_slice(skeleton);
    pre.extend_from_slice(&(message.len() as u64).to_le_bytes());
    pre.extend_from_slice(message);
    blake2b_256(&pre)
}

#[test]
fn scenario_action_primary() {
    // Two inputs, two one-per-input witnesses, the first carrying the
    // action; no surplus witnesses.
    let tx_hash = [7u8; 32];
    let lock = vec![1, 2, 3];
    let message = vec![9, 9, 9];
    let w0 = enc_action(lock.clone(), message.clone());
    let tx = TxEnv {
        tx_hash,
        envelope_window: window(2),
        witnesses: vec![w0.clone(), vec![]],
        group_witnesses: vec![w0],
    };
    let skeleton = blake2b_256(&tx_hash);
    assert_eq!(generate_skeleton_hash(&tx), Ok(skeleton));
    let expected = final_of(&skeleton, &message);
    assert_eq!(parse_typed_message(&tx), Ok((expected, lock)));
}

#[test]
fn scenario_borrowed_message() {
    // The primary witness has no message of its own; the digest borrows the
    // message of the action witness elsewhere, while the returned lock stays
    // the primary's.
    let tx_hash = [7u8; 32];
    let w0 = enc_sighash(vec![2, 2]);
    let w1 = enc_action(vec![3, 3, 3], vec![4, 4, 4, 4]);
    let tx = TxEnv {
        tx_hash,
        envelope_window: window(2),
        witnesses: vec![w0.clone(), w1],
        group_witnesses: vec![w0],
    };
    let skeleton = blake2b_256(&tx_hash);
    let expected = final_of(&skeleton, &[4, 4, 4, 4]);
    assert_eq!(parse_typed_message(&tx), Ok((expected, vec![2, 2])));
}

#[test]
fn scenario_trailer_rejected() {
    let w0 = enc_action(vec![1], vec![2]);
    let tx = TxEnv {
        tx_hash: [0u8; 32],
        envelope_window: window(2),
        witnesses: vec![w0.clone(), vec![]],
        group_witnesses: vec![w0, vec![5]],
    };
    assert_eq!(parse_typed_message(&tx), Err(Error::UnexpectedTrailerData));
}

#[test]
fn trailer_check_precedes_uniqueness() {
    // Even with two action witnesses, a bad trailer is reported first.
    let w0 = enc_action(vec![1], vec![2]);
    let w1 = enc_action(vec![1], vec![3]);
    let tx = TxEnv {
        tx_hash: [0u8; 32],
        envelope_window: window(2),
        witnesses: vec![w0.clone(), w1],
        group_witnesses: vec![w0, vec![5]],
    };
    assert_eq!(parse_typed_message(&tx), Err(Error::UnexpectedTrailerData));
}

#[test]
fn scenario_two_actions_rejected() {
    let w0 = enc_action(vec![1], vec![2]);
    let w1 = enc_action(vec![1], vec![3]);
    let tx = TxEnv {
        tx_hash: [0u8; 32],
        envelope_window: window(2),
        witnesses: vec![w0.clone(), w1],
        group_witnesses: vec![w0],
    };
    assert_eq!(parse_typed_message(&tx), Err(Error::MultipleActionWitnesses));
}

#[test]
fn scenario_no_action_rejected() {
    let w0 = enc_sighash(vec![1]);
    let tx = TxEnv {
        tx_hash: [0u8; 32],
        envelope_window: window(1),
        witnesses: vec![w0.clone()],
        group_witnesses: vec![w0],
    };
    assert_eq!(parse_typed_message(&tx), Err(Error::MissingActionWitness));
}

#[test]
fn missing_primary_witness() {
    let w0 = enc_action(vec![1], vec![2]);
    let tx = TxEnv {
        tx_hash: [0u8; 32],
        envelope_window: window(1),
        witnesses: vec![w0],
        group_witnesses: vec![],
    };
    assert_eq!(parse_typed_message(&tx), Err(Error::NotFound));
}

#[test]
fn malformed_primary_witness() {
    let w0 = enc_action(vec![1], vec![2]);
    let tx = TxEnv {
        tx_hash: [0u8; 32],
        envelope_window: window(1),
        witnesses: vec![w0],
        group_witnesses: vec![vec![1, 2, 3]],
    };
    assert_eq!(parse_typed_message(&tx), Err(Error::MalformedWitness));
}

#[test]
fn malformed_envelope_window() {
    let w0 = enc_action(vec![1], vec![2]);
    let tx = TxEnv {
        tx_hash: [0u8; 32],
        // Outputs offset below the inputs offset: no input count.
        envelope_window: [200, 0, 0, 0, 100, 0, 0, 0],
        witnesses: vec![w0.clone()],
        group_witnesses: vec![w0],
    };
    assert_eq!(parse_typed_message(&tx), Err(Error::DecodeError));
}

#[test]
fn skeleton_covers_only_surplus_witnesses() {
    // One input, so the second witness is surplus: the skeleton hashes the
    // transaction hash, then the surplus witness behind its 8-byte length.
    let tx_hash = [3u8; 32];
    let w0 = enc_action(vec![1], vec![2]);
    let extra = vec![8, 8, 8, 8, 8];
    let tx = TxEnv {
        tx_hash,
        envelope_window: window(1),
        witnesses: vec![w0.clone(), extra.clone()],
        group_witnesses: vec![w0.clone()],
    };
    let mut pre = Vec::new();
    pre.extend_from_slice(&tx_hash);
    pre.extend_from_slice(&(extra.len() as u64).to_le_bytes());
    pre.extend_from_slice(&extra);
    assert_eq!(generate_skeleton_hash(&tx), Ok(blake2b_256(&pre)));

    // Changing a witness below the input count leaves the skeleton alone.
    let mut other = tx;
    other.witnesses[0] = enc_sighash(vec![6, 6, 6, 6]);
    assert_eq!(
        generate_skeleton_hash(&other),
        Ok(blake2b_256(&pre)),
        "witnesses below the input count must not enter the skeleton"
    );

    // Changing the surplus witness changes the skeleton.
    other.witnesses[1] = vec![8, 8, 8, 8, 9];
    assert_ne!(generate_skeleton_hash(&other), Ok(blake2b_256(&pre)));
}

#[test]
fn digest_tracks_message_not_lock() {
    // With a Sighash primary, a different action message gives a different
    // digest, while a different primary lock gives the same digest.
    let w0 = enc_sighash(vec![2, 2]);
    let base = TxEnv {
        tx_hash: [7u8; 32],
        envelope_window: window(2),
        witnesses: vec![w0.clone(), enc_action(vec![3], vec![4, 4])],
        group_witnesses: vec![w0],
    };
    let (digest, lock) = parse_typed_message(&base).unwrap();
    assert_eq!(lock, vec![2, 2]);

    let mut changed_message = base_clone(&base);
    changed_message.witnesses[1] = enc_action(vec![3], vec![4, 5]);
    let (digest2, _) = parse_typed_message(&changed_message).unwrap();
    assert_ne!(digest, digest2);

    let other_primary = enc_sighash(vec![9, 9, 9]);
    let mut changed_lock = base_clone(&base);
    changed_lock.witnesses[0] = other_primary.clone();
    changed_lock.group_witnesses[0] = other_primary;
    let (digest3, lock3) = parse_typed_message(&changed_lock).unwrap();
    assert_eq!(digest, digest3);
    assert_eq!(lock3, vec![9, 9, 9]);
}

fn base_clone(tx: &TxEnv) -> TxEnv {
    TxEnv {
        tx_hash: tx.tx_hash,
        envelope_window: tx.envelope_window,
        witnesses: tx.witnesses.clone(),
        group_witnesses: tx.group_witnesses.clone(),
    }
}

#[test]
fn action_witness_may_sit_in_surplus_position() {
    // The unique action witness need not be anyone's primary witness: here
    // it sits past the input count, so it both supplies the message and is
    // hashed into the skeleton as a surplus witness.
    let tx_hash = [7u8; 32];
    let w0 = enc_sighash(vec![2, 2]);
    let action = enc_action(vec![3], vec![4, 4]);
    let tx = TxEnv {
        tx_hash,
        envelope_window: window(1),
        witnesses: vec![w0.clone(), action.clone()],
        group_witnesses: vec![w0],
    };
    let mut pre = Vec::new();
    pre.extend_from_slice(&tx_hash);
    pre.extend_from_slice(&(action.len() as u64).to_le_bytes());
    pre.extend_from_slice(&action);
    let skeleton = blake2b_256(&pre);
    let expected = final_of(&skeleton, &[4, 4]);
    assert_eq!(parse_typed_message(&tx), Ok((expected, vec![2, 2])));
}

#[test]
fn pipeline_is_deterministic() {
    let w0 = enc_action(vec![1, 1], vec![2, 2]);
    let tx = TxEnv {
        tx_hash: [5u8; 32],
        envelope_window: window(1),
        witnesses: vec![w0.clone(), vec![6, 6, 6]],
        group_witnesses: vec![w0],
    };
    let first = parse_typed_message(&tx);
    let second = parse_typed_message(&tx);
    assert!(first.is_ok());
    assert_eq!(first, second);
}

#[test]
fn final_hash_frames_message_length() {
    let skeleton = [1u8; 32];
    let a = generate_final_hash(&skeleton, &[0, 0]);
    let b = generate_final_hash(&skeleton, &[0, 0, 0]);
    assert_ne!(a, b, "messages of different lengths must hash differently");

    let mut pre = Vec::new();
    pre.extend_from_slice(&skeleton);
    pre.extend_from_slice(&2u64.to_le_bytes());
    pre.extend_from_slice(&[0, 0]);
    assert_eq!(a, blake2b_256(&pre));
}

#[test]
fn hash_matches_known_vector() {
    // The unkeyed 32-byte blake2b digest of the empty string.
    let expected: [u8; 32] = [
        0x0e, 0x57, 0x51, 0xc0, 0x26, 0xe5, 0x43, 0xb2, 0xe8, 0xab, 0x2e, 0xb0, 0x60, 0x99,
        0xda, 0xa1, 0xd1, 0xe5, 0xdf, 0x47, 0x77, 0x8f, 0x77, 0x87, 0xfa, 0xab, 0x45, 0xcd,
        0xf1, 0x2f, 0xe3, 0xa8,
    ];
    assert_eq!(blake2b_256(&[]), expected);
}

use ckb_typed_message::{
    decode_extended_witness, encode_extended_witness, ExtendedWitness, Sighash, SighashWithAction,
};

fn enc_sighash(lock: Vec<u8>) -> Vec<u8> {
    encode_extended_witness(&ExtendedWitness::Sighash(Sighash { lock }))
}

fn enc_action(lock: Vec<u8>, message: Vec<u8>) -> Vec<u8> {
    encode_extended_witness(&ExtendedWitness::SighashWithAction(SighashWithAction {
        lock,
        message,
    }))
}

#[test]
fn round_trip_sighash() {
    let bytes = enc_sighash(vec![1, 2, 3]);
    assert_eq!(bytes, vec![0, 0, 0, 0, 3, 0, 0, 0, 1, 2, 3]);
    match decode_extended_witness(&bytes) {
        Ok(ExtendedWitness::Sighash(s)) => assert_eq!(s.lock, vec![1, 2, 3]),
        _ => panic!("expected a sighash witness"),
    }
}

#[test]
fn round_trip_sighash_with_action() {
    let bytes = enc_action(vec![9], vec![4, 5, 6, 7]);
    assert_eq!(bytes, vec![1, 0, 0, 0, 1, 0, 0, 0, 9, 4, 0, 0, 0, 4, 5, 6, 7]);
    match decode_extended_witness(&bytes) {
        Ok(ExtendedWitness::SighashWithAction(s)) => {
            assert_eq!(s.lock, vec![9]);
            assert_eq!(s.message, vec![4, 5, 6, 7]);
        }
        _ => panic!("expected an action witness"),
    }
}

#[test]
fn round_trip_empty_fields() {
    let bytes = enc_action(vec![], vec![]);
    match decode_extended_witness(&bytes) {
        Ok(ExtendedWitness::SighashWithAction(s)) => {
            assert!(s.lock.is_empty());
            assert!(s.message.is_empty());
        }
        _ => panic!("expected an action witness"),
    }
}

#[test]
fn decoded_blob_reencodes_to_itself() {
    // The wire form is canonical: decoding and re-encoding gives the bytes
    // back unchanged.
    let blobs = [
        vec![0, 0, 0, 0, 0, 0, 0, 0],
        vec![0, 0, 0, 0, 2, 0, 0, 0, 7, 7],
        vec![1, 0, 0, 0, 1, 0, 0, 0, 9, 3, 0, 0, 0, 4, 5, 6],
    ];
    for blob in blobs {
        let decoded = decode_extended_witness(&blob).unwrap();
        assert_eq!(encode_extended_witness(&decoded), blob);
    }
}

#[test]
fn decode_rejects_short_input() {
    assert!(decode_extended_witness(&[]).is_err());
    assert!(decode_extended_witness(&[0, 0, 0, 0, 0, 0, 0]).is_err());
}

#[test]
fn decode_rejects_unknown_tag() {
    // A tag that names no variant.
    assert!(decode_extended_witness(&[2, 0, 0, 0, 0, 0, 0, 0]).is_err());
}

#[test]
fn decode_rejects_wrong_length() {
    // Lock length claims 3 bytes but only 2 follow.
    assert!(decode_extended_witness(&[0, 0, 0, 0, 3, 0, 0, 0, 1, 2]).is_err());
    // One trailing byte past the declared lock.
    assert!(decode_extended_witness(&[0, 0, 0, 0, 1, 0, 0, 0, 1, 2]).is_err());
    // Action witness cut off before the message length.
    assert!(decode_extended_witness(&[1, 0, 0, 0, 1, 0, 0, 0, 9]).is_err());
}

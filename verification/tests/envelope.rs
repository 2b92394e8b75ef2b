use ckb_typed_message::{calculate_inputs_len, Error};

fn window(inputs_offset: u32, outputs_offset: u32) -> [u8; 8] {
    let mut w = [0u8; 8];
    w[0..4].copy_from_slice(&inputs_offset.to_le_bytes());
    w[4..8].copy_from_slice(&outputs_offset.to_le_bytes());
    w
}

#[test]
fn inputs_len_exact() {
    // Three 44-byte input records behind a 4-byte length prefix.
    let w = window(100, 100 + 4 + 3 * 44);
    assert_eq!(calculate_inputs_len(&w), Ok(3));
}

#[test]
fn inputs_len_zero() {
    let w = window(100, 104);
    assert_eq!(calculate_inputs_len(&w), Ok(0));
}

#[test]
fn inputs_len_rounds_down() {
    // A gap that is not a whole number of records.
    let w = window(100, 100 + 4 + 50);
    assert_eq!(calculate_inputs_len(&w), Ok(1));
}

#[test]
fn inputs_len_rejects_inverted_offsets() {
    assert_eq!(calculate_inputs_len(&window(200, 100)), Err(Error::DecodeError));
    // The gap cannot even hold the length prefix.
    assert_eq!(calculate_inputs_len(&window(100, 102)), Err(Error::DecodeError));
}

use crate::error::Error;
use vstd::bytes::{spec_u32_from_le_bytes, u32_from_le_bytes};
use vstd::prelude::*;
use vstd::slice::slice_subrange;

verus! {

/// Size of one little-endian offset or length entry in the serialized
/// transaction envelope, and of the length prefix before the inputs array.
pub const NUMBER_SIZE: usize = 4;

/// Serialized size of one input record (a 36-byte out point reference plus
/// an 8-byte since field).
pub const INPUT_RECORD_SIZE: usize = 44;

/// The input count encoded in the 8-byte envelope window that holds the
/// inputs offset and the outputs offset, or `None` if the two offsets cannot
/// delimit an inputs array.
pub open spec fn spec_inputs_len(window: Seq<u8>) -> Option<int> {
    if window.len() != 8 {
        None
    } else {
        let inputs_offset = spec_u32_from_le_bytes(window.subrange(0, 4)) as int;
        let outputs_offset = spec_u32_from_le_bytes(window.subrange(4, 8)) as int;
        if outputs_offset >= inputs_offset + NUMBER_SIZE {
            Some((outputs_offset - inputs_offset - NUMBER_SIZE) / (INPUT_RECORD_SIZE as int))
        } else {
            None
        }
    }
}

/// Compute the number of inputs from the envelope window that covers the
/// inputs offset and the outputs offset: the gap between the two offsets,
/// less the length prefix of the inputs array, divided by the fixed size of
/// one input record.
pub fn calculate_inputs_len(window: &[u8; 8]) -> (r: Result<usize, Error>)
    ensures
        match r {
            Ok(n) => spec_inputs_len(window@) == Some(n as int),
            Err(e) => spec_inputs_len(window@) is None && e == Error::DecodeError,
        },
{
    let s = window.as_slice();
    let inputs_offset = u32_from_le_bytes(slice_subrange(s, 0, 4)) as usize;
    let outputs_offset = u32_from_le_bytes(slice_subrange(s, 4, 8)) as usize;
    if inputs_offset <= outputs_offset && outputs_offset - inputs_offset >= NUMBER_SIZE {
        Ok((outputs_offset - inputs_offset - NUMBER_SIZE) / INPUT_RECORD_SIZE)
    } else {
        Err(Error::DecodeError)
    }
}

} // verus!

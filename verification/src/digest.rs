use crate::envelope::{calculate_inputs_len, spec_inputs_len};
use crate::error::Error;
use crate::hash::{blake2b_256, blake2b_of};
use crate::tx::{TxEnv, TxEnvView};
use vstd::bytes::{spec_u64_to_le_bytes, u64_to_le_bytes};
use vstd::prelude::*;
use vstd::slice::slice_to_vec;

verus! {

/// A witness as fed to the skeleton hash: its length as 8 little-endian
/// bytes, then its raw bytes.  The length is hashed because witness sizes
/// are not otherwise fixed by the transaction shape.
pub open spec fn frame_witness(w: Seq<u8>) -> Seq<u8> {
    spec_u64_to_le_bytes(w.len() as u64) + w
}

/// The frames of a list of witnesses, concatenated in order.
pub open spec fn encode_witnesses(ws: Seq<Seq<u8>>) -> Seq<u8>
    decreases ws.len(),
{
    if ws.len() == 0 {
        Seq::empty()
    } else {
        encode_witnesses(ws.drop_last()) + frame_witness(ws.last())
    }
}

/// The surplus witnesses: those at a global index at or beyond the input
/// count `n`.
pub open spec fn spec_surplus(ws: Seq<Seq<u8>>, n: int) -> Seq<Seq<u8>> {
    if n < 0 {
        ws
    } else if n >= ws.len() {
        Seq::empty()
    } else {
        ws.subrange(n, ws.len() as int)
    }
}

/// The bytes the skeleton hash is taken over: the transaction hash, then
/// every surplus witness framed with its length.  `None` when the envelope
/// window cannot delimit the inputs array.
pub open spec fn spec_skeleton_preimage(tx: TxEnvView) -> Option<Seq<u8>> {
    match spec_inputs_len(tx.envelope_window) {
        Some(n) => Some(tx.tx_hash + encode_witnesses(spec_surplus(tx.witnesses, n))),
        None => None,
    }
}

/// The bytes the final digest is taken over: the fixed-size skeleton digest,
/// then the message framed with its 8-byte little-endian length.
pub open spec fn spec_final_preimage(skeleton: Seq<u8>, message: Seq<u8>) -> Seq<u8> {
    skeleton + spec_u64_to_le_bytes(message.len() as u64) + message
}

/// Hash the transaction hash together with every surplus witness into the
/// 32-byte skeleton digest.  Witnesses below the input count are excluded:
/// they are covered through the authorization mechanism instead.
pub fn generate_skeleton_hash(tx: &TxEnv) -> (r: Result<[u8; 32], Error>)
    ensures
        match r {
            Ok(d) => spec_skeleton_preimage(tx@) matches Some(pre) && d@ == blake2b_of(pre),
            Err(e) => spec_skeleton_preimage(tx@) is None && e == Error::DecodeError,
        },
{
    let n = match calculate_inputs_len(&tx.envelope_window) {
        Ok(n) => n,
        Err(e) => {
            return Err(e);
        },
    };
    let mut pre: Vec<u8> = slice_to_vec(tx.tx_hash.as_slice());
    let total = tx.witnesses.len();
    let start = if n < total {
        n
    } else {
        total
    };
    proof {
        assert(tx@.witnesses.len() == total);
        assert(tx@.witnesses.subrange(start as int, start as int) =~= Seq::<Seq<u8>>::empty());
        assert(pre@ =~= tx@.tx_hash + encode_witnesses(
            tx@.witnesses.subrange(start as int, start as int),
        ));
    }
    let mut i = start;
    while i < total
        invariant
            start <= i <= total,
            total == tx.witnesses@.len(),
            tx@.witnesses.len() == total,
            pre@ == tx@.tx_hash + encode_witnesses(tx@.witnesses.subrange(start as int, i as int)),
        decreases total - i,
    {
        let w: &Vec<u8> = &tx.witnesses[i];
        let mut lenb = u64_to_le_bytes(w.len() as u64);
        pre.append(&mut lenb);
        let mut wb = slice_to_vec(w.as_slice());
        pre.append(&mut wb);
        proof {
            let ws = tx@.witnesses;
            assert(ws[i as int] == tx.witnesses@[i as int]@);
            assert(ws.subrange(start as int, i + 1).drop_last() =~= ws.subrange(
                start as int,
                i as int,
            ));
            assert(ws.subrange(start as int, i + 1).last() == ws[i as int]);
            assert(pre@ =~= tx@.tx_hash + encode_witnesses(ws.subrange(start as int, i + 1)));
        }
        i += 1;
    }
    proof {
        assert(tx@.witnesses.subrange(start as int, total as int) =~= spec_surplus(
            tx@.witnesses,
            n as int,
        ));
    }
    Ok(blake2b_256(pre.as_slice()))
}

/// Hash the skeleton digest together with the length-framed message into
/// the final 32-byte digest that signatures are verified against.
pub fn generate_final_hash(skeleton_hash: &[u8; 32], typed_message: &[u8]) -> (r: [u8; 32])
    ensures
        r@ == blake2b_of(spec_final_preimage(skeleton_hash@, typed_message@)),
{
    let mut pre: Vec<u8> = slice_to_vec(skeleton_hash.as_slice());
    let mut lenb = u64_to_le_bytes(typed_message.len() as u64);
    pre.append(&mut lenb);
    let mut msgb = slice_to_vec(typed_message);
    pre.append(&mut msgb);
    proof {
        assert(pre@ =~= spec_final_preimage(skeleton_hash@, typed_message@));
    }
    blake2b_256(pre.as_slice())
}

} // verus!

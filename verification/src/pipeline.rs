use crate::codec::{
    decode_extended_witness, spec_decode, ExtendedWitness, ExtendedWitnessView, SighashWithAction,
};
use crate::digest::{generate_final_hash, generate_skeleton_hash, spec_final_preimage,
    spec_skeleton_preimage};
use crate::error::Error;
use crate::hash::blake2b_of;
use crate::tx::{TxEnv, TxEnvView};
use vstd::prelude::*;

verus! {

/// Whether a witness blob decodes as the action-carrying variant.
pub open spec fn is_action_witness(b: Seq<u8>) -> bool {
    spec_decode(b) matches Some(ExtendedWitnessView::SighashWithAction { .. })
}

/// How many witnesses of the list decode as the action-carrying variant.
pub open spec fn count_action_witnesses(ws: Seq<Seq<u8>>) -> nat
    decreases ws.len(),
{
    if ws.len() == 0 {
        0
    } else {
        count_action_witnesses(ws.drop_last()) + if is_action_witness(ws.last()) {
            1nat
        } else {
            0nat
        }
    }
}

/// The index of the action witness; meaningful when exactly one exists.
pub open spec fn unique_action_index(ws: Seq<Seq<u8>>) -> int {
    choose|i: int| 0 <= i < ws.len() && is_action_witness(ws[i])
}

/// The message embedded in a witness blob, when it decodes as the
/// action-carrying variant.
pub open spec fn action_message_of(b: Seq<u8>) -> Seq<u8> {
    match spec_decode(b) {
        Some(ExtendedWitnessView::SighashWithAction { message, .. }) => message,
        _ => Seq::empty(),
    }
}

/// The message of the transaction's single action witness; meaningful when
/// exactly one exists.
pub open spec fn unique_action_message(ws: Seq<Seq<u8>>) -> Seq<u8> {
    action_message_of(ws[unique_action_index(ws)])
}

/// Every witness of the authorization group past the primary one is empty.
pub open spec fn trailers_empty(group: Seq<Seq<u8>>) -> bool {
    forall|i: int| 1 <= i < group.len() ==> (#[trigger] group[i]).len() == 0
}

proof fn lemma_count_take_succ(ws: Seq<Seq<u8>>, i: int)
    requires
        0 <= i < ws.len(),
    ensures
        count_action_witnesses(ws.take(i + 1)) == count_action_witnesses(ws.take(i))
            + if is_action_witness(ws[i]) {
            1nat
        } else {
            0nat
        },
{
    assert(ws.take(i + 1).drop_last() =~= ws.take(i));
    assert(ws.take(i + 1).last() == ws[i]);
}

proof fn lemma_count_take_mono(ws: Seq<Seq<u8>>, i: int, j: int)
    requires
        0 <= i <= j <= ws.len(),
    ensures
        count_action_witnesses(ws.take(i)) <= count_action_witnesses(ws.take(j)),
    decreases j - i,
{
    if i < j {
        lemma_count_take_succ(ws, j - 1);
        lemma_count_take_mono(ws, i, j - 1);
    }
}

proof fn lemma_count_take_all(ws: Seq<Seq<u8>>)
    ensures
        count_action_witnesses(ws.take(ws.len() as int)) == count_action_witnesses(ws),
{
    assert(ws.take(ws.len() as int) =~= ws);
}

/// With exactly one action witness in the list, no two indices can both
/// hold one.
pub proof fn lemma_unique_action_index(ws: Seq<Seq<u8>>, i: int, j: int)
    requires
        count_action_witnesses(ws) == 1,
        0 <= i < ws.len(),
        0 <= j < ws.len(),
        is_action_witness(ws[i]),
        is_action_witness(ws[j]),
    ensures
        i == j,
{
    if i != j {
        let a = if i < j {
            i
        } else {
            j
        };
        let b = if i < j {
            j
        } else {
            i
        };
        lemma_count_take_succ(ws, a);
        lemma_count_take_mono(ws, a + 1, b);
        lemma_count_take_succ(ws, b);
        lemma_count_take_mono(ws, b + 1, ws.len() as int);
        lemma_count_take_all(ws);
    }
}

/// What the whole pipeline returns for a transaction snapshot: either the
/// final digest paired with the primary witness's lock bytes, or the error
/// of the first violated invariant, in the order the checks run: trailer
/// emptiness, action-witness uniqueness, primary-witness shape, envelope
/// window validity.
pub open spec fn spec_parse(tx: TxEnvView) -> Result<(Seq<u8>, Seq<u8>), Error> {
    if !trailers_empty(tx.group_witnesses) {
        Err(Error::UnexpectedTrailerData)
    } else if count_action_witnesses(tx.witnesses) == 0 {
        Err(Error::MissingActionWitness)
    } else if count_action_witnesses(tx.witnesses) >= 2 {
        Err(Error::MultipleActionWitnesses)
    } else if tx.group_witnesses.len() == 0 {
        Err(Error::NotFound)
    } else {
        match spec_decode(tx.group_witnesses[0]) {
            Option::None => Err(Error::MalformedWitness),
            Option::Some(w) => {
                let lock = match w {
                    ExtendedWitnessView::Sighash { lock } => lock,
                    ExtendedWitnessView::SighashWithAction { lock, .. } => lock,
                };
                let message = match w {
                    ExtendedWitnessView::Sighash { .. } => unique_action_message(tx.witnesses),
                    ExtendedWitnessView::SighashWithAction { message, .. } => message,
                };
                match spec_skeleton_preimage(tx) {
                    Option::None => Err(Error::DecodeError),
                    Option::Some(pre) => Ok(
                        (blake2b_of(spec_final_preimage(blake2b_of(pre), message)), lock),
                    ),
                }
            },
        }
    }
}

/// Fetch and decode the primary witness of the authorization group; it must
/// decode as an extended witness of either variant.
pub fn fetch_sighash(tx: &TxEnv) -> (r: Result<ExtendedWitness, Error>)
    ensures
        match r {
            Ok(w) => tx@.group_witnesses.len() > 0 && spec_decode(tx@.group_witnesses[0])
                == Some(w@),
            Err(e) => if tx@.group_witnesses.len() == 0 {
                e == Error::NotFound
            } else {
                spec_decode(tx@.group_witnesses[0]) is None && e == Error::MalformedWitness
            },
        },
{
    if tx.group_witnesses.len() == 0 {
        return Err(Error::NotFound);
    }
    let w: &Vec<u8> = &tx.group_witnesses[0];
    proof {
        assert(tx@.group_witnesses[0] == tx.group_witnesses@[0]@);
    }
    match decode_extended_witness(w.as_slice()) {
        Ok(ew) => Ok(ew),
        Err(_) => Err(Error::MalformedWitness),
    }
}

/// Scan every witness of the transaction for the action-carrying variant;
/// succeed exactly when there is one, and return its payload.
pub fn fetch_sighash_with_action(tx: &TxEnv) -> (r: Result<SighashWithAction, Error>)
    ensures
        match r {
            Ok(s) => {
                &&& count_action_witnesses(tx@.witnesses) == 1
                &&& is_action_witness(tx@.witnesses[unique_action_index(tx@.witnesses)])
                &&& spec_decode(tx@.witnesses[unique_action_index(tx@.witnesses)]) == Some(
                    ExtendedWitnessView::SighashWithAction { lock: s@.lock, message: s@.message },
                )
            },
            Err(e) => match e {
                Error::MissingActionWitness => count_action_witnesses(tx@.witnesses) == 0,
                Error::MultipleActionWitnesses => count_action_witnesses(tx@.witnesses) >= 2,
                _ => false,
            },
        },
{
    let mut result: Option<SighashWithAction> = None;
    let ghost mut found_idx: int = 0;
    let total = tx.witnesses.len();
    let mut i: usize = 0;
    while i < total
        invariant
            0 <= i <= total,
            total == tx.witnesses@.len(),
            tx@.witnesses.len() == total,
            match result {
                Some(s) => {
                    &&& count_action_witnesses(tx@.witnesses.take(i as int)) == 1
                    &&& 0 <= found_idx < i
                    &&& is_action_witness(tx@.witnesses[found_idx])
                    &&& spec_decode(tx@.witnesses[found_idx]) == Some(
                        ExtendedWitnessView::SighashWithAction {
                            lock: s@.lock,
                            message: s@.message,
                        },
                    )
                },
                None => count_action_witnesses(tx@.witnesses.take(i as int)) == 0,
            },
        decreases total - i,
    {
        let w: &Vec<u8> = &tx.witnesses[i];
        proof {
            assert(tx@.witnesses[i as int] == tx.witnesses@[i as int]@);
        }
        match decode_extended_witness(w.as_slice()) {
            Ok(ExtendedWitness::SighashWithAction(s)) => {
                if result.is_some() {
                    proof {
                        lemma_count_take_succ(tx@.witnesses, i as int);
                        lemma_count_take_mono(tx@.witnesses, i as int + 1, total as int);
                        lemma_count_take_all(tx@.witnesses);
                    }
                    return Err(Error::MultipleActionWitnesses);
                }
                proof {
                    found_idx = i as int;
                    lemma_count_take_succ(tx@.witnesses, i as int);
                }
                result = Some(s);
            },
            _ => {
                proof {
                    lemma_count_take_succ(tx@.witnesses, i as int);
                }
            },
        }
        i += 1;
    }
    proof {
        lemma_count_take_all(tx@.witnesses);
    }
    match result {
        Some(s) => {
            proof {
                let ws = tx@.witnesses;
                assert(0 <= found_idx < ws.len() && is_action_witness(ws[found_idx]));
                assert(exists|k: int| 0 <= k < ws.len() && is_action_witness(ws[k]));
                let k = unique_action_index(ws);
                assert(0 <= k < ws.len() && is_action_witness(ws[k]));
                lemma_unique_action_index(ws, found_idx, k);
            }
            Ok(s)
        },
        None => Err(Error::MissingActionWitness),
    }
}

/// Check that every witness of the authorization group past the primary one
/// is empty.
pub fn check_others_in_group(tx: &TxEnv) -> (r: Result<(), Error>)
    ensures
        match r {
            Ok(_) => trailers_empty(tx@.group_witnesses),
            Err(e) => !trailers_empty(tx@.group_witnesses) && e == Error::UnexpectedTrailerData,
        },
{
    let total = tx.group_witnesses.len();
    if total <= 1 {
        return Ok(());
    }
    let mut i: usize = 1;
    while i < total
        invariant
            1 <= i <= total,
            total == tx.group_witnesses@.len(),
            tx@.group_witnesses.len() == total,
            forall|j: int| 1 <= j < i ==> (#[trigger] tx@.group_witnesses[j]).len() == 0,
        decreases total - i,
    {
        let w: &Vec<u8> = &tx.group_witnesses[i];
        proof {
            assert(tx@.group_witnesses[i as int] == tx.group_witnesses@[i as int]@);
        }
        if w.len() != 0 {
            return Err(Error::UnexpectedTrailerData);
        }
        i += 1;
    }
    Ok(())
}

/// The whole pipeline: enforce the trailer and uniqueness invariants,
/// resolve the authorization payload and message, and compute the final
/// digest.  Returns the digest to verify signatures against and the primary
/// witness's lock bytes, or the error of the first violated invariant.
pub fn parse_typed_message(tx: &TxEnv) -> (r: Result<([u8; 32], Vec<u8>), Error>)
    ensures
        match r {
            Ok(p) => spec_parse(tx@) == Ok::<(Seq<u8>, Seq<u8>), Error>((p.0@, p.1@)),
            Err(e) => spec_parse(tx@) == Err::<(Seq<u8>, Seq<u8>), Error>(e),
        },
{
    match check_others_in_group(tx) {
        Ok(_) => {},
        Err(e) => {
            return Err(e);
        },
    }
    let sighash_with_action = match fetch_sighash_with_action(tx) {
        Ok(s) => s,
        Err(e) => {
            return Err(e);
        },
    };
    let witness = match fetch_sighash(tx) {
        Ok(w) => w,
        Err(e) => {
            return Err(e);
        },
    };
    let ghost wv = witness@;
    let ghost swa_message = sighash_with_action@.message;
    let (lock, typed_message) = match witness {
        ExtendedWitness::SighashWithAction(s) => (s.lock, s.message),
        ExtendedWitness::Sighash(s) => (s.lock, sighash_with_action.message),
    };
    let skeleton_hash = match generate_skeleton_hash(tx) {
        Ok(d) => d,
        Err(e) => {
            return Err(e);
        },
    };
    let digest_message = generate_final_hash(&skeleton_hash, typed_message.as_slice());
    proof {
        if wv is Sighash {
            assert(unique_action_message(tx@.witnesses) == swa_message);
        }
    }
    Ok((digest_message, lock))
}

} // verus!

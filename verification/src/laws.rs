use crate::codec::{lock_of, spec_decode, ExtendedWitnessView};
use crate::digest::{
    encode_witnesses, frame_witness, spec_final_preimage, spec_skeleton_preimage, spec_surplus,
};
use crate::envelope::spec_inputs_len;
use crate::error::Error;
use crate::hash::blake2b_of;
use crate::pipeline::{
    count_action_witnesses, spec_parse, trailers_empty, unique_action_message,
};
use crate::tx::TxEnvView;
use vstd::bytes::{lemma_auto_spec_u64_to_from_le_bytes, spec_u64_to_le_bytes};
use vstd::prelude::*;

verus! {

/// The digest component of a successful pipeline run.
pub open spec fn parse_digest(tx: TxEnvView) -> Seq<u8> {
    match spec_parse(tx) {
        Ok(p) => p.0,
        Err(_) => Seq::empty(),
    }
}

/// The lock component of a successful pipeline run.
pub open spec fn parse_lock(tx: TxEnvView) -> Seq<u8> {
    match spec_parse(tx) {
        Ok(p) => p.1,
        Err(_) => Seq::empty(),
    }
}

/// Law (action uniqueness): with empty trailers, the pipeline fails with
/// `MissingActionWitness` when no witness carries an action, fails with
/// `MultipleActionWitnesses` when two or more do, and succeeds when exactly
/// one does, the primary witness decodes, and the envelope window is valid.
pub proof fn lemma_action_uniqueness(tx: TxEnvView)
    requires
        trailers_empty(tx.group_witnesses),
    ensures
        count_action_witnesses(tx.witnesses) == 0 ==> spec_parse(tx) == Err::<
            (Seq<u8>, Seq<u8>),
            Error,
        >(Error::MissingActionWitness),
        count_action_witnesses(tx.witnesses) >= 2 ==> spec_parse(tx) == Err::<
            (Seq<u8>, Seq<u8>),
            Error,
        >(Error::MultipleActionWitnesses),
        (count_action_witnesses(tx.witnesses) == 1 && tx.group_witnesses.len() > 0
            && spec_decode(tx.group_witnesses[0]) is Some && spec_inputs_len(tx.envelope_window)
            is Some) ==> spec_parse(tx) is Ok,
{
}

/// Law (trailer invariant): a non-empty witness anywhere past the primary
/// one makes the pipeline fail with `UnexpectedTrailerData`, whatever the
/// rest of the transaction holds.
pub proof fn lemma_trailer_rejection(tx: TxEnvView, i: int)
    requires
        1 <= i < tx.group_witnesses.len(),
        tx.group_witnesses[i].len() != 0,
    ensures
        spec_parse(tx) == Err::<(Seq<u8>, Seq<u8>), Error>(Error::UnexpectedTrailerData),
{
}

/// Law (message substitution): with a `Sighash` primary witness, the final
/// digest is computed from the message of the transaction-wide action
/// witness, while the returned lock is the primary witness's own.
pub proof fn lemma_message_substitution(tx: TxEnvView)
    requires
        trailers_empty(tx.group_witnesses),
        count_action_witnesses(tx.witnesses) == 1,
        tx.group_witnesses.len() > 0,
        spec_decode(tx.group_witnesses[0]) matches Some(ExtendedWitnessView::Sighash { .. }),
        spec_inputs_len(tx.envelope_window) is Some,
    ensures
        spec_parse(tx) is Ok,
        parse_digest(tx) == blake2b_of(
            spec_final_preimage(
                blake2b_of(spec_skeleton_preimage(tx)->Some_0),
                unique_action_message(tx.witnesses),
            ),
        ),
        parse_lock(tx) == lock_of(spec_decode(tx.group_witnesses[0])->Some_0),
{
}

/// Law (lock independence): two transactions that agree on the hash, the
/// envelope window, the surplus witnesses and the unique action message get
/// the same digest, even when their `Sighash` primary witnesses carry
/// different locks.
pub proof fn lemma_digest_ignores_primary_lock(tx1: TxEnvView, tx2: TxEnvView)
    requires
        trailers_empty(tx1.group_witnesses),
        trailers_empty(tx2.group_witnesses),
        count_action_witnesses(tx1.witnesses) == 1,
        count_action_witnesses(tx2.witnesses) == 1,
        tx1.group_witnesses.len() > 0,
        tx2.group_witnesses.len() > 0,
        spec_decode(tx1.group_witnesses[0]) matches Some(ExtendedWitnessView::Sighash { .. }),
        spec_decode(tx2.group_witnesses[0]) matches Some(ExtendedWitnessView::Sighash { .. }),
        tx1.tx_hash == tx2.tx_hash,
        tx1.envelope_window == tx2.envelope_window,
        spec_inputs_len(tx1.envelope_window) is Some,
        spec_surplus(tx1.witnesses, spec_inputs_len(tx1.envelope_window)->Some_0) == spec_surplus(
            tx2.witnesses,
            spec_inputs_len(tx2.envelope_window)->Some_0,
        ),
        unique_action_message(tx1.witnesses) == unique_action_message(tx2.witnesses),
    ensures
        spec_parse(tx1) is Ok,
        spec_parse(tx2) is Ok,
        parse_digest(tx1) == parse_digest(tx2),
{
}

/// Law (message framing): with the skeleton digest fixed, two different
/// messages always produce different final-digest preimages, so the message
/// cannot be changed without changing the bytes that are hashed.
pub proof fn lemma_final_preimage_injective(skeleton: Seq<u8>, m1: Seq<u8>, m2: Seq<u8>)
    requires
        spec_final_preimage(skeleton, m1) == spec_final_preimage(skeleton, m2),
    ensures
        m1 == m2,
{
    lemma_auto_spec_u64_to_from_le_bytes();
    let p1 = spec_final_preimage(skeleton, m1);
    let p2 = spec_final_preimage(skeleton, m2);
    assert(p1.len() == skeleton.len() + 8 + m1.len());
    assert(p2.len() == skeleton.len() + 8 + m2.len());
    assert(m1.len() == m2.len());
    assert forall|i: int| 0 <= i < m1.len() implies m1[i] == m2[i] by {
        assert(p1[skeleton.len() + 8 + i] == m1[i]);
        assert(p2[skeleton.len() + 8 + i] == m2[i]);
    }
    assert(m1 =~= m2);
}

/// Law (skeleton exclusion): the skeleton preimage depends only on the
/// transaction hash, the envelope window, and the surplus witnesses;
/// witnesses below the input count do not enter it.
pub proof fn lemma_skeleton_exclusion(tx1: TxEnvView, tx2: TxEnvView)
    requires
        tx1.tx_hash == tx2.tx_hash,
        tx1.envelope_window == tx2.envelope_window,
        spec_surplus(tx1.witnesses, spec_inputs_len(tx1.envelope_window)->Some_0) == spec_surplus(
            tx2.witnesses,
            spec_inputs_len(tx2.envelope_window)->Some_0,
        ),
    ensures
        spec_skeleton_preimage(tx1) == spec_skeleton_preimage(tx2),
{
}

proof fn lemma_encode_front(ws: Seq<Seq<u8>>)
    requires
        ws.len() > 0,
    ensures
        encode_witnesses(ws) == frame_witness(ws[0]) + encode_witnesses(ws.drop_first()),
    decreases ws.len(),
{
    if ws.len() == 1 {
        assert(ws.drop_last() =~= Seq::<Seq<u8>>::empty());
        assert(ws.drop_first() =~= Seq::<Seq<u8>>::empty());
        assert(ws.last() == ws[0]);
        assert(encode_witnesses(ws) =~= frame_witness(ws[0]) + encode_witnesses(ws.drop_first()));
    } else {
        let t = ws.drop_last();
        lemma_encode_front(t);
        assert(ws.drop_first().len() > 0);
        assert(ws.drop_first().drop_last() =~= t.drop_first());
        assert(ws.drop_first().last() == ws.last());
        assert(t[0] == ws[0]);
        assert(encode_witnesses(ws) =~= frame_witness(ws[0]) + encode_witnesses(ws.drop_first()));
    }
}

/// Law (surplus framing): the length-framed encoding of a witness list is
/// injective, so changing, adding or removing any surplus witness changes
/// the bytes the skeleton hash is taken over.
pub proof fn lemma_surplus_encoding_injective(a: Seq<Seq<u8>>, b: Seq<Seq<u8>>)
    requires
        forall|i: int| 0 <= i < a.len() ==> (#[trigger] a[i]).len() < 0x10000000000000000,
        forall|i: int| 0 <= i < b.len() ==> (#[trigger] b[i]).len() < 0x10000000000000000,
        encode_witnesses(a) == encode_witnesses(b),
    ensures
        a == b,
    decreases a.len(),
{
    lemma_auto_spec_u64_to_from_le_bytes();
    if a.len() == 0 {
        if b.len() > 0 {
            lemma_encode_front(b);
            assert(encode_witnesses(b).len() >= 8);
        }
        assert(a =~= b);
    } else if b.len() == 0 {
        lemma_encode_front(a);
        assert(encode_witnesses(a).len() >= 8);
        assert(a =~= b);
    } else {
        lemma_encode_front(a);
        lemma_encode_front(b);
        let ea = encode_witnesses(a);
        assert(ea.subrange(0, 8) =~= spec_u64_to_le_bytes(a[0].len() as u64));
        assert(ea.subrange(0, 8) =~= spec_u64_to_le_bytes(b[0].len() as u64));
        assert(a[0].len() as u64 == b[0].len() as u64);
        assert(a[0].len() == b[0].len());
        let l = a[0].len() as int;
        assert(a[0] =~= ea.subrange(8, 8 + l));
        assert(b[0] =~= ea.subrange(8, 8 + l));
        assert(encode_witnesses(a.drop_first()) =~= ea.subrange(8 + l, ea.len() as int));
        assert(encode_witnesses(b.drop_first()) =~= ea.subrange(8 + l, ea.len() as int));
        assert forall|i: int|
            0 <= i < a.drop_first().len() implies (#[trigger] a.drop_first()[i]).len()
            < 0x10000000000000000 by {
            assert(a.drop_first()[i] == a[i + 1]);
        }
        assert forall|i: int|
            0 <= i < b.drop_first().len() implies (#[trigger] b.drop_first()[i]).len()
            < 0x10000000000000000 by {
            assert(b.drop_first()[i] == b[i + 1]);
        }
        lemma_surplus_encoding_injective(a.drop_first(), b.drop_first());
        assert forall|i: int| 0 <= i < a.len() implies a[i] == b[i] by {
            if i > 0 {
                assert(a.drop_first()[i - 1] == a[i]);
                assert(b.drop_first()[i - 1] == b[i]);
            }
        }
        assert(a =~= b);
    }
}

/// Law (skeleton discrimination): with the same hash and envelope window,
/// equal skeleton preimages force equal surplus witness lists — so
/// modifying any surplus witness changes the skeleton preimage.
pub proof fn lemma_skeleton_discriminates(tx1: TxEnvView, tx2: TxEnvView)
    requires
        tx1.tx_hash == tx2.tx_hash,
        tx1.envelope_window == tx2.envelope_window,
        spec_inputs_len(tx1.envelope_window) is Some,
        forall|i: int| 0 <= i < tx1.witnesses.len() ==> (#[trigger] tx1.witnesses[i]).len()
            < 0x10000000000000000,
        forall|i: int| 0 <= i < tx2.witnesses.len() ==> (#[trigger] tx2.witnesses[i]).len()
            < 0x10000000000000000,
        spec_skeleton_preimage(tx1) == spec_skeleton_preimage(tx2),
    ensures
        spec_surplus(tx1.witnesses, spec_inputs_len(tx1.envelope_window)->Some_0) == spec_surplus(
            tx2.witnesses,
            spec_inputs_len(tx2.envelope_window)->Some_0,
        ),
{
    let n = spec_inputs_len(tx1.envelope_window)->Some_0;
    let s1 = spec_surplus(tx1.witnesses, n);
    let s2 = spec_surplus(tx2.witnesses, n);
    let p1 = spec_skeleton_preimage(tx1)->Some_0;
    let p2 = spec_skeleton_preimage(tx2)->Some_0;
    assert(p1 == tx1.tx_hash + encode_witnesses(s1));
    assert(p2 == tx2.tx_hash + encode_witnesses(s2));
    assert(encode_witnesses(s1).len() == encode_witnesses(s2).len());
    assert forall|i: int| 0 <= i < encode_witnesses(s1).len() implies encode_witnesses(s1)[i]
        == encode_witnesses(s2)[i] by {
        assert(p1[tx1.tx_hash.len() + i] == encode_witnesses(s1)[i]);
        assert(p2[tx2.tx_hash.len() + i] == encode_witnesses(s2)[i]);
    }
    assert(encode_witnesses(s1) =~= encode_witnesses(s2));
    assert forall|i: int| 0 <= i < s1.len() implies (#[trigger] s1[i]).len()
        < 0x10000000000000000 by {
        if n < tx1.witnesses.len() && 0 <= n {
            assert(s1[i] == tx1.witnesses[n + i]);
        }
    }
    assert forall|i: int| 0 <= i < s2.len() implies (#[trigger] s2[i]).len()
        < 0x10000000000000000 by {
        if n < tx2.witnesses.len() && 0 <= n {
            assert(s2[i] == tx2.witnesses[n + i]);
        }
    }
    lemma_surplus_encoding_injective(s1, s2);
}

/// Law (determinism): the pipeline's outcome is a function of the
/// transaction snapshot alone, so byte-identical snapshots yield identical
/// digest and lock results.
pub proof fn lemma_parse_deterministic(tx1: TxEnvView, tx2: TxEnvView)
    requires
        tx1 == tx2,
    ensures
        spec_parse(tx1) == spec_parse(tx2),
{
}

} // verus!

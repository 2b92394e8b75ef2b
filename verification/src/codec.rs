use crate::error::Error;
use vstd::bytes::{
    lemma_auto_spec_u32_to_from_le_bytes, spec_u32_from_le_bytes, spec_u32_to_le_bytes,
    u32_from_le_bytes, u32_to_le_bytes,
};
use vstd::prelude::*;
use vstd::slice::{slice_subrange, slice_to_vec};

verus! {

/// Wire tag of a plain sighash witness: a lock field only.
pub const WITNESS_ID_SIGHASH: u32 = 0;

/// Wire tag of a sighash witness that also embeds an action message.
pub const WITNESS_ID_SIGHASH_WITH_ACTION: u32 = 1;

/// An authorization witness that carries only the lock payload; the action
/// message is borrowed from the transaction-wide action witness.
pub struct Sighash {
    pub lock: Vec<u8>,
}

/// An authorization witness that carries both the lock payload and the
/// application-defined action message to be signed.
pub struct SighashWithAction {
    pub lock: Vec<u8>,
    pub message: Vec<u8>,
}

/// The tagged union stored in a witness blob.
pub enum ExtendedWitness {
    Sighash(Sighash),
    SighashWithAction(SighashWithAction),
}

pub struct SighashView {
    pub lock: Seq<u8>,
}

pub struct SighashWithActionView {
    pub lock: Seq<u8>,
    pub message: Seq<u8>,
}

pub enum ExtendedWitnessView {
    Sighash { lock: Seq<u8> },
    SighashWithAction { lock: Seq<u8>, message: Seq<u8> },
}

impl View for Sighash {
    type V = SighashView;

    open spec fn view(&self) -> SighashView {
        SighashView { lock: self.lock@ }
    }
}

impl View for SighashWithAction {
    type V = SighashWithActionView;

    open spec fn view(&self) -> SighashWithActionView {
        SighashWithActionView { lock: self.lock@, message: self.message@ }
    }
}

impl View for ExtendedWitness {
    type V = ExtendedWitnessView;

    open spec fn view(&self) -> ExtendedWitnessView {
        match self {
            ExtendedWitness::Sighash(s) => ExtendedWitnessView::Sighash { lock: s.lock@ },
            ExtendedWitness::SighashWithAction(s) => ExtendedWitnessView::SighashWithAction {
                lock: s.lock@,
                message: s.message@,
            },
        }
    }
}

/// The lock payload of a decoded witness, whichever variant it is.
pub open spec fn lock_of(w: ExtendedWitnessView) -> Seq<u8> {
    match w {
        ExtendedWitnessView::Sighash { lock } => lock,
        ExtendedWitnessView::SighashWithAction { lock, .. } => lock,
    }
}

/// What a witness blob decodes to, if anything.
///
/// The format is: a 4-byte little-endian tag, then each field as a 4-byte
/// little-endian length followed by that many bytes, with nothing trailing.
pub open spec fn spec_decode(b: Seq<u8>) -> Option<ExtendedWitnessView> {
    if b.len() < 8 {
        None
    } else {
        let id = spec_u32_from_le_bytes(b.subrange(0, 4));
        let lock_len = spec_u32_from_le_bytes(b.subrange(4, 8)) as int;
        if id == WITNESS_ID_SIGHASH {
            if b.len() == 8 + lock_len {
                Some(ExtendedWitnessView::Sighash { lock: b.subrange(8, b.len() as int) })
            } else {
                None
            }
        } else if id == WITNESS_ID_SIGHASH_WITH_ACTION {
            if b.len() >= 12 + lock_len {
                let msg_len = spec_u32_from_le_bytes(
                    b.subrange(8 + lock_len, 12 + lock_len),
                ) as int;
                if b.len() == 12 + lock_len + msg_len {
                    Some(ExtendedWitnessView::SighashWithAction {
                        lock: b.subrange(8, 8 + lock_len),
                        message: b.subrange(12 + lock_len, b.len() as int),
                    })
                } else {
                    None
                }
            } else {
                None
            }
        } else {
            None
        }
    }
}

/// The byte encoding of an extended witness.
pub open spec fn spec_encode(w: ExtendedWitnessView) -> Seq<u8> {
    match w {
        ExtendedWitnessView::Sighash { lock } => spec_u32_to_le_bytes(WITNESS_ID_SIGHASH)
            + spec_u32_to_le_bytes(lock.len() as u32) + lock,
        ExtendedWitnessView::SighashWithAction { lock, message } => spec_u32_to_le_bytes(
            WITNESS_ID_SIGHASH_WITH_ACTION,
        ) + spec_u32_to_le_bytes(lock.len() as u32) + lock
            + spec_u32_to_le_bytes(message.len() as u32) + message,
    }
}

/// Each field is short enough for its 4-byte length prefix.
pub open spec fn wf_extended_witness(w: ExtendedWitnessView) -> bool {
    match w {
        ExtendedWitnessView::Sighash { lock } => lock.len() <= u32::MAX,
        ExtendedWitnessView::SighashWithAction { lock, message } => lock.len() <= u32::MAX
            && message.len() <= u32::MAX,
    }
}

/// Decode a witness blob; fails exactly on the blobs that no extended
/// witness encodes to.
pub fn decode_extended_witness(b: &[u8]) -> (r: Result<ExtendedWitness, Error>)
    ensures
        match r {
            Ok(w) => spec_decode(b@) == Some(w@),
            Err(e) => spec_decode(b@) is None && e == Error::DecodeError,
        },
{
    if b.len() < 8 {
        return Err(Error::DecodeError);
    }
    let id = u32_from_le_bytes(slice_subrange(b, 0, 4));
    let lock_len: usize = u32_from_le_bytes(slice_subrange(b, 4, 8)) as usize;
    if id == WITNESS_ID_SIGHASH {
        if b.len() - 8 == lock_len {
            let lock = slice_to_vec(slice_subrange(b, 8, b.len()));
            return Ok(ExtendedWitness::Sighash(Sighash { lock }));
        }
        return Err(Error::DecodeError);
    }
    if id == WITNESS_ID_SIGHASH_WITH_ACTION {
        if b.len() >= 12 && b.len() - 12 >= lock_len {
            let msg_len: usize = u32_from_le_bytes(
                slice_subrange(b, 8 + lock_len, 12 + lock_len),
            ) as usize;
            if b.len() - 12 - lock_len == msg_len {
                let lock = slice_to_vec(slice_subrange(b, 8, 8 + lock_len));
                let message = slice_to_vec(slice_subrange(b, 12 + lock_len, b.len()));
                return Ok(ExtendedWitness::SighashWithAction(SighashWithAction {
                    lock,
                    message,
                }));
            }
        }
        return Err(Error::DecodeError);
    }
    Err(Error::DecodeError)
}

/// Encode an extended witness into the byte form that `decode` accepts.
pub fn encode_extended_witness(w: &ExtendedWitness) -> (r: Vec<u8>)
    requires
        wf_extended_witness(w@),
    ensures
        r@ == spec_encode(w@),
{
    let mut out: Vec<u8> = Vec::new();
    match w {
        ExtendedWitness::Sighash(s) => {
            let mut idb = u32_to_le_bytes(WITNESS_ID_SIGHASH);
            out.append(&mut idb);
            let mut lenb = u32_to_le_bytes(s.lock.len() as u32);
            out.append(&mut lenb);
            let mut lockb = slice_to_vec(s.lock.as_slice());
            out.append(&mut lockb);
        }
        ExtendedWitness::SighashWithAction(s) => {
            let mut idb = u32_to_le_bytes(WITNESS_ID_SIGHASH_WITH_ACTION);
            out.append(&mut idb);
            let mut lenb = u32_to_le_bytes(s.lock.len() as u32);
            out.append(&mut lenb);
            let mut lockb = slice_to_vec(s.lock.as_slice());
            out.append(&mut lockb);
            let mut mlenb = u32_to_le_bytes(s.message.len() as u32);
            out.append(&mut mlenb);
            let mut msgb = slice_to_vec(s.message.as_slice());
            out.append(&mut msgb);
        }
    }
    out
}

/// Law: decoding an encoded witness gives the witness back, so the wire
/// format is unambiguous for every well-formed witness.
pub proof fn lemma_decode_encode(w: ExtendedWitnessView)
    requires
        wf_extended_witness(w),
    ensures
        spec_decode(spec_encode(w)) == Some(w),
{
    lemma_auto_spec_u32_to_from_le_bytes();
    let e = spec_encode(w);
    match w {
        ExtendedWitnessView::Sighash { lock } => {
            let idb = spec_u32_to_le_bytes(WITNESS_ID_SIGHASH);
            let lenb = spec_u32_to_le_bytes(lock.len() as u32);
            assert(e.len() == 8 + lock.len());
            assert(e.subrange(0, 4) =~= idb);
            assert(e.subrange(4, 8) =~= lenb);
            assert((lock.len() as u32) as int == lock.len());
            assert(e.subrange(8, e.len() as int) =~= lock);
        }
        ExtendedWitnessView::SighashWithAction { lock, message } => {
            let idb = spec_u32_to_le_bytes(WITNESS_ID_SIGHASH_WITH_ACTION);
            let lenb = spec_u32_to_le_bytes(lock.len() as u32);
            let mlenb = spec_u32_to_le_bytes(message.len() as u32);
            let ll = lock.len() as int;
            assert(e.len() == 12 + lock.len() + message.len());
            assert(e.subrange(0, 4) =~= idb);
            assert(e.subrange(4, 8) =~= lenb);
            assert((lock.len() as u32) as int == lock.len());
            assert((message.len() as u32) as int == message.len());
            assert(e.subrange(8, 8 + ll) =~= lock);
            assert(e.subrange(8 + ll, 12 + ll) =~= mlenb);
            assert(e.subrange(12 + ll, e.len() as int) =~= message);
        }
    }
}

/// Law: a blob that decodes is exactly the encoding of its value, so each
/// witness value has one wire form and the format leaves no slack bytes to
/// smuggle data in.
pub proof fn lemma_decode_canonical(b: Seq<u8>, w: ExtendedWitnessView)
    requires
        spec_decode(b) == Some(w),
    ensures
        spec_encode(w) == b,
        wf_extended_witness(w),
{
    lemma_auto_spec_u32_to_from_le_bytes();
    let id = spec_u32_from_le_bytes(b.subrange(0, 4));
    let lock_len = spec_u32_from_le_bytes(b.subrange(4, 8)) as int;
    match w {
        ExtendedWitnessView::Sighash { lock } => {
            assert(id == WITNESS_ID_SIGHASH);
            assert(lock == b.subrange(8, b.len() as int));
            assert(lock.len() == lock_len);
            assert(spec_u32_to_le_bytes(WITNESS_ID_SIGHASH) =~= b.subrange(0, 4));
            assert(spec_u32_to_le_bytes(lock.len() as u32) =~= b.subrange(4, 8));
            assert(spec_encode(w) =~= b);
        },
        ExtendedWitnessView::SighashWithAction { lock, message } => {
            assert(id == WITNESS_ID_SIGHASH_WITH_ACTION);
            assert(lock == b.subrange(8, 8 + lock_len));
            assert(lock.len() == lock_len);
            let msg_len = spec_u32_from_le_bytes(b.subrange(8 + lock_len, 12 + lock_len)) as int;
            assert(message == b.subrange(12 + lock_len, b.len() as int));
            assert(message.len() == msg_len);
            assert(spec_u32_to_le_bytes(WITNESS_ID_SIGHASH_WITH_ACTION) =~= b.subrange(0, 4));
            assert(spec_u32_to_le_bytes(lock.len() as u32) =~= b.subrange(4, 8));
            assert(spec_u32_to_le_bytes(message.len() as u32) =~= b.subrange(
                8 + lock_len,
                12 + lock_len,
            ));
            assert(spec_encode(w) =~= b);
        },
    }
}

} // verus!

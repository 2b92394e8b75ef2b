use vstd::prelude::*;

verus! {

/// Every way a verification attempt can fail.  All variants are terminal for
/// the current attempt: the caller is expected to reject the transaction.
#[derive(Clone, Copy, Debug, PartialEq, Eq, Structural)]
pub enum Error {
    /// A witness the pipeline must read is absent.
    NotFound,
    /// The execution environment failed with the given raw code; the host
    /// glue maps its own error type into this variant.
    HostError(u64),
    /// A binary payload (witness bytes or the envelope offset window) is
    /// malformed.
    DecodeError,
    /// The primary witness of the authorization group does not decode as an
    /// extended witness.
    MalformedWitness,
    /// A witness of the authorization group at index one or beyond is
    /// non-empty.
    UnexpectedTrailerData,
    /// No witness in the transaction carries an action message.
    MissingActionWitness,
    /// More than one witness in the transaction carries an action message.
    MultipleActionWitnesses,
}

} // verus!

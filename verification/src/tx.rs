use vstd::prelude::*;

verus! {

/// An immutable snapshot of the transaction data the pipeline reads.  The
/// host glue fills it once per verification attempt; the library never
/// mutates it.
pub struct TxEnv {
    /// The 32-byte transaction hash; it excludes the witnesses by
    /// construction.
    pub tx_hash: [u8; 32],
    /// The 8 envelope bytes holding the inputs offset and the outputs
    /// offset of the serialized transaction.
    pub envelope_window: [u8; 8],
    /// Every witness of the transaction, by ascending global index.
    pub witnesses: Vec<Vec<u8>>,
    /// The witnesses of the authorization group under check, in transaction
    /// order; index 0 is the primary witness.
    pub group_witnesses: Vec<Vec<u8>>,
}

/// The mathematical model of a transaction snapshot.
pub struct TxEnvView {
    pub tx_hash: Seq<u8>,
    pub envelope_window: Seq<u8>,
    pub witnesses: Seq<Seq<u8>>,
    pub group_witnesses: Seq<Seq<u8>>,
}

impl View for TxEnv {
    type V = TxEnvView;

    open spec fn view(&self) -> TxEnvView {
        TxEnvView {
            tx_hash: self.tx_hash@,
            envelope_window: self.envelope_window@,
            witnesses: self.witnesses.deep_view(),
            group_witnesses: self.group_witnesses.deep_view(),
        }
    }
}

} // verus!

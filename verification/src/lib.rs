//! Signing-digest computation for typed-message transactions.
//!
//! The library locates the authorization witnesses attached to a transaction
//! snapshot, enforces the one-action and empty-trailer invariants, and hashes
//! a canonical subset of the transaction together with the application
//! message into the 32-byte digest that signatures are verified against.

pub mod codec;
pub mod digest;
pub mod envelope;
pub mod error;
pub mod hash;
pub mod laws;
pub mod pipeline;
pub mod tx;

pub use codec::{
    decode_extended_witness, encode_extended_witness, ExtendedWitness, ExtendedWitnessView,
    Sighash, SighashView, SighashWithAction, SighashWithActionView,
};
pub use digest::{generate_final_hash, generate_skeleton_hash};
pub use envelope::calculate_inputs_len;
pub use error::Error;
pub use hash::blake2b_256;
pub use laws::{
    lemma_action_uniqueness, lemma_digest_ignores_primary_lock, lemma_final_preimage_injective,
    lemma_message_substitution, lemma_parse_deterministic, lemma_skeleton_discriminates,
    lemma_skeleton_exclusion, lemma_surplus_encoding_injective, lemma_trailer_rejection,
    parse_digest, parse_lock,
};
pub use pipeline::{
    check_others_in_group, fetch_sighash, fetch_sighash_with_action, parse_typed_message,
};
pub use tx::{TxEnv, TxEnvView};

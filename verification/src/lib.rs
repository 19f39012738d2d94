//! Bilateral settlement of off-chain trades of data-access-control rights.
//!
//! A DID (decentralized identifier) names a data resource; an access
//! condition is an escrow record that tracks which of two counterparties
//! currently holds the right to grant access to that resource. The two
//! parties advance the record off-chain by exchanging co-signed state
//! proofs; `DIDOffchainTrade::intend_settle` validates such a proof
//! (signatures, nonce, sequence number, status) and applies one of three
//! transitions: finalize a grant, reset, or reset and swap the roles.

mod account;
mod crypto;
mod encoding;
mod engine;
mod interfaces;
mod laws;
mod registry;
mod signers;
mod state;

pub use account::AccountId;
pub use account::Signature;
pub use account::account_eq;
pub use crypto::sr25519_verified;
pub use encoding::app_state_bytes;
pub use encoding::encode_app_state;
pub use encoding::lemma_app_state_bytes_unambiguous;
pub use encoding::u32_le_bytes;
pub use engine::DIDOffchainTrade;
pub use engine::StoreView;
pub use engine::cond_after;
pub use engine::create_error;
pub use engine::create_next;
pub use engine::did_of_key;
pub use engine::new_did_error;
pub use engine::new_did_next;
pub use engine::pair_signed;
pub use engine::settle_error;
pub use engine::settle_next;
pub use engine::store_wf;
pub use interfaces::PaymentChannel;
pub use interfaces::SingleSessionBooleanOutcome;
pub use laws::lemma_anti_replay;
pub use laws::lemma_nonce_pinning;
pub use laws::lemma_status_gated_finalize;
pub use laws::lemma_status_gated_reset;
pub use registry::DidRegistry;
pub use registry::owner_lookup;
pub use signers::lemma_no_foreign_signature;
pub use signers::lemma_valid_signers_order_independent;
pub use signers::two_sig_ok;
pub use signers::valid_signers;
pub use state::AccessCondition;
pub use state::AppState;
pub use state::AppStatus;
pub use state::CondView;
pub use state::Error;
pub use state::Event;
pub use state::EventView;
pub use state::Op;
pub use state::State;
pub use state::StateProof;
pub use state::op_code;

//! The service-layer capability broker of LanternOS: mints attenuated,
//! badged capabilities through a kernel backend, hands them to clients, and
//! tracks per-badge revocation itself (deny by default).

mod backend;
mod broker;
mod error;
mod laws;
mod rights;

pub use backend::{pack_mint_argument, Abi, BrokerBackend};
pub use broker::{badge_known, reads_revoked, Broker, MintRequest, MAX_GRANTS};
pub use error::{CPtr, SyscallError};
pub use laws::{
    lemma_known_and_revoked_are_permanent, lemma_mint_refusals, lemma_mint_yields_fresh_live_badge,
    lemma_plan_names_first_free_slot, lemma_revoke_idempotent, lemma_revoke_then_revoked,
    lemma_successive_plans_advance, lemma_unknown_badge_reads_revoked,
};
pub use rights::Rights;

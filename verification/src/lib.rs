//! Verified core of an on-chain identity registry.
//!
//! Accounts publish a self-asserted identity (name, email, document hash),
//! other accounts attest to it, and the owner may revoke it. A [`Pallet`]
//! owns the whole state: the identity store, the verification relation and
//! an append-only event log. The hosting runtime authenticates callers and
//! serialises calls; every operation here is a total function of the state
//! and its arguments, with a contract over the mathematical model in
//! [`model`].

pub mod bounded;
pub mod config;
pub mod error;
pub mod event;
pub mod identity;
pub mod laws;
pub mod model;
pub mod pallet;
pub mod store;
pub mod verification;

pub use config::{AccountId, Config};
pub use error::{DispatchResult, Error};
pub use event::Event;
pub use identity::{IdentityInfo, IdentityView};
pub use model::{PalletView, Status};
pub use pallet::Pallet;
pub use store::IdentityStore;
pub use verification::VerificationRelation;

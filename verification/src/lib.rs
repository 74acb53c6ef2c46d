//! Verified core of the OnSocial relayer: the configuration state of the
//! relayer contract, the rules that guard every administrative change, the
//! decisions taken when a meta-transaction is relayed or a bridge transfer
//! settles, and the Borsh byte formats the relayer hashes, signs and decodes.
//!
//! Everything that touches the NEAR runtime (reading the caller, the balance,
//! storage, scheduling promises, emitting logs) happens outside this crate:
//! the functions here take those values as arguments and return the state
//! change, the event to emit and the promise chain to schedule.
pub mod errors;
pub mod types;
pub mod borsh;
pub mod crypto;
pub mod text;
pub mod events;
pub mod plan;
pub mod strmap;
pub mod state;
pub mod admin;
pub mod relay;
pub mod contract;
pub mod balance;
pub mod sponsor;
pub mod migration;
pub mod signing_tool;
pub mod decode;
pub mod laws;

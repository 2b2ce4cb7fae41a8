//! An attestation-gated ledger for virtual pets.
//!
//! Four sub-ledgers are advanced only by operations that carry a
//! structurally valid attestation: the vital-state record of each pet, an
//! append-only history of care activities, a registry of game sessions, and
//! the progress of users towards achievements. Every accepted operation
//! stores its attestation; every refused one leaves the ledger as it was.
//!
//! - [`attestation`]: the attestation and its structural validation.
//! - [`table`]: the keyed store that the sub-ledgers are built from.
//! - [`recent`]: newest-first selection, as the scans answer it.
//! - [`response`]: what an accepted operation reports.
//! - [`pet_interaction`]: vital state, care history and game sessions.
//! - [`achievement`]: the catalog and the progress records.
//! - [`pet_nft`]: what is decided before a request reaches the asset
//!   library.
//! - [`user_map`]: a plain store of one text value per key.
//!
//! Addresses reach the library as text that the caller has validated; time
//! reaches it as the seconds of the block in which the operation runs.

pub mod achievement;
pub mod attestation;
pub mod context;
pub mod error;
pub mod pet_interaction;
pub mod pet_nft;
pub mod recent;
pub mod response;
pub mod table;
pub mod user_map;

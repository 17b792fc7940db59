//! Ethereum Node Records: key material, signed records, node and peer
//! identifiers, dial addresses and the eth2 fork identifier.

pub mod addresses;
pub mod cli;
pub mod enr_ext;
pub mod error;
pub mod fork_id;
pub mod identity;
pub mod keys;
pub mod record;
pub mod report;
pub mod services;
pub mod text;

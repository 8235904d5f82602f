//! Verified core of the messaging endpoint: integrator configuration, adapter
//! registries, attestation and outbox state, and the rules that each
//! instruction applies to them.

pub mod bitmap;
pub mod encoding;
pub mod error;
pub mod event;
pub mod hash;
pub mod instructions;
pub mod mock_adapter;
pub mod pda;
pub mod program;
pub mod pubkey;
pub mod state;
pub mod universal_address;

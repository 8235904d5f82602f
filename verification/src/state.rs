pub mod adapter_info;
pub mod attestation_info;
pub mod integrator_chain_config;
pub mod integrator_config;
pub mod outbox_message;

pub mod add_adapter;
pub mod attest_message;
pub mod common;
pub mod disable_adapter;
pub mod discard_admin;
pub mod enable_adapter;
pub mod exec_message;
pub mod pick_up_message;
pub mod recv_message;
pub mod transfer_admin;
pub mod update_admin;

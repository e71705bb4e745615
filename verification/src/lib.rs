//! The decision core of a WebAssembly canister executor, and the client interface of the Bitcoin
//! adapter.
pub mod bitcoin_adapter_client;
pub mod canister_laws;
pub mod data_laws;
pub mod decimal;
pub mod execution_state;
pub mod executor;
pub mod initial_state;
pub mod laws;
pub mod message_laws;
pub mod metrics;
pub mod module_info;
pub mod page_delta;
pub mod platform;
pub mod process;
pub mod state_changes;
pub mod units;

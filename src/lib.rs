//! Builds fully signed transactions that spend outputs locked to one shared
//! script-hash redeem script, paying a list of recipients plus change.

pub mod btc;
pub mod fee;
pub mod state;
pub mod tx_builder;
pub mod types;

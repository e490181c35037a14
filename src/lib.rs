//! A ledger of client accounts driven by deposits, withdrawals, disputes,
//! resolutions and chargebacks.
pub mod account;
pub mod account_store;
pub mod amount;
pub mod engine;
pub mod input_file;
pub mod transaction;
pub mod transaction_processor;
pub mod transaction_store;

//! A ledger of client accounts driven by a stream of deposit, withdrawal,
//! dispute, resolve and chargeback records, with exact fixed-point funds.
pub mod account;
pub mod errors;
pub mod fixed_precision;
pub mod laws;
pub mod record;
pub mod state;
pub mod transaction;

//! A verified client-account payments engine: deposits, withdrawals,
//! disputes, resolutions and chargebacks over exact decimal amounts.
pub mod amount;
pub mod transaction;
pub mod account;
pub mod model;
pub mod engine;
pub mod laws;
pub mod soundness;
pub mod independence;
pub mod operations;

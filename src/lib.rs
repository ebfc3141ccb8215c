//! Fungible asset ledger dispatch and cross-chain asset transacting with fee trading.
pub mod location;
pub mod ledger;
pub mod assets;
pub mod holding;
pub mod trader;
pub mod transactor;
pub mod revenue;
pub mod memory;

//! Verified logic of the Moonriver runtime: its currency units and deposits,
//! the gas and weight mapping of its EVM, its proxy and maintenance call
//! filters, the treasury's share of fees and the priority of pooled
//! transactions.
pub mod currency;
pub mod gas;
pub mod numeric;
pub mod call;
pub mod proxy;
pub mod maintenance;
pub mod fees;
pub mod txpool;
pub mod params;
pub mod version;

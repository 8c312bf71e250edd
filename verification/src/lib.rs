//! Verified core of a deadline-gated crowdfunding protocol: a factory that
//! registers campaigns and a project that keeps one campaign's ledger.

pub mod address;
pub mod factory;
pub mod laws;
pub mod ledger;
pub mod project;
pub mod salt;

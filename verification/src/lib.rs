//! Core governance logic for a token-weighted DAO.
//!
//! A `DaoState` record holds the global parameters and a monotonic proposal
//! counter; each `Proposal` record carries weighted vote tallies and a
//! lifecycle outcome that is written exactly once. The host environment is
//! expected to supply timestamps, voter balances and persistent storage;
//! every operation here is a pure transition on plain values with an exact
//! contract.

pub mod instructions;
pub mod laws;
pub mod state;

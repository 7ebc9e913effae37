//! A custodial crowdfunding ledger.
//!
//! Creators register fundraising campaigns, donors fund them into a
//! program-held balance, and creators withdraw accumulated funds subject to
//! an authorization check and a platform fee split. The host runtime that
//! executes operations atomically, authenticates caller identities, stores
//! records and moves native currency is an external collaborator: its
//! contributions (the caller's identity, the current time, the outcome of a
//! native transfer, a record's held funds and rent reserve) enter the core
//! as plain values, and every state transition performed on the records
//! themselves is verified here.

pub mod errors;
pub mod identity;
pub mod instructions;
pub mod laws;
pub mod ledger;
pub mod states;

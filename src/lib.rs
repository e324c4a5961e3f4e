//! Time-based token vesting: organizations register a custody account, create
//! linear vesting grants for beneficiaries, and beneficiaries claim what has
//! vested, never more than the grant's total.
pub mod accounts;
pub mod address;
pub mod schedule;
pub mod ledger;

//! The records the program keeps and the errors its operations report.
use vstd::prelude::*;
use crate::address::Address;

verus! {

/// Why an operation was refused.
#[derive(Clone, Copy, Debug, PartialEq, Eq, Structural)]
pub enum ErrorCode {
    /// The current time precedes the grant's cliff.
    ClaimNotAvailableYet,
    /// The grant's schedule has zero duration.
    InvalidVestingPeriod,
    /// The vesting proportion does not fit in 64 bits.
    CalculationOverflow,
    /// Nothing has vested beyond what was already withdrawn.
    NothingToClaim,
    /// The derived address is already occupied.
    AlreadyExists,
    /// The signer is not the identity the operation requires.
    Unauthorized,
    /// No record is stored at the address given.
    AccountNotInitialized,
    /// The seeds admit no program-derived address.
    InvalidSeeds,
}

/// The vesting configuration of one organization.
#[derive(Clone, Debug, PartialEq, Eq)]
pub struct VestingAccount {
    /// May create grants under this entry.
    pub owner: Address,
    /// The token held in custody.
    pub mint: Address,
    /// The custody account, whose authority is its own derived address.
    pub treasury_token_account: Address,
    /// The organization's unique name, the seed of this entry's address.
    pub company_name: String,
    pub treasury_bump: u8,
    pub bump: u8,
}

/// The vesting schedule and claim history of one beneficiary.
#[derive(Clone, Copy, Debug, PartialEq, Eq)]
pub struct EmployeeAccount {
    pub beneficiary: Address,
    pub start_time: i64,
    pub end_time: i64,
    pub cliff_time: i64,
    /// Address of the registry entry this grant belongs to.
    pub vesting_account: Address,
    pub total_amount: u64,
    pub total_withdrawn: u64,
    pub bump: u8,
}

impl EmployeeAccount {
    /// Never more withdrawn than granted.
    pub open spec fn wf(self) -> bool {
        self.total_withdrawn <= self.total_amount
    }
}

} // verus!

use anchor_lang::prelude::Pubkey;
use vesting::accounts::{EmployeeAccount, ErrorCode};
use vesting::address::{derive_grant_address, derive_registry_address, derive_treasury_address, treasury_signer, Address};
use vesting::ledger::{
    claim_tokens, create_employee_account, create_vesting_account, ClaimTokens, CreateEmployeeAccount,
    CreateVestingAccount, Ledger,
};
use vesting::schedule::{claimable_amount, vested_amount};

fn addr(b: u8) -> Address {
    Address { bytes: [b; 32] }
}

fn grant(total: u64, start: i64, end: i64, cliff: i64, withdrawn: u64) -> EmployeeAccount {
    EmployeeAccount {
        beneficiary: addr(1),
        start_time: start,
        end_time: end,
        cliff_time: cliff,
        vesting_account: addr(2),
        total_amount: total,
        total_withdrawn: withdrawn,
        bump: 255,
    }
}

const PROGRAM: u8 = 9;
const OWNER: u8 = 10;
const MINT: u8 = 11;
const ALICE: u8 = 12;
const BOB: u8 = 13;

/// A ledger with organization "acme" registered by OWNER and a grant for
/// ALICE; returns the ledger, the registry address and the grant address.
fn setup(total: u64, start: i64, end: i64, cliff: i64) -> (Ledger, Address, Address) {
    let mut ledger = Ledger::new(addr(PROGRAM));
    let ctx = CreateVestingAccount { signer: addr(OWNER), mint: addr(MINT) };
    assert_eq!(create_vesting_account(&mut ledger, &ctx, "acme".to_string()), Ok(()));
    let (reg, _) = derive_registry_address("acme", &addr(PROGRAM)).unwrap();
    let ctx = CreateEmployeeAccount { owner: addr(OWNER), beneficiary: addr(ALICE), vesting_account: reg };
    assert_eq!(create_employee_account(&mut ledger, &ctx, start, end, total, cliff), Ok(()));
    let (ga, _) = derive_grant_address(&addr(ALICE), &reg, &addr(PROGRAM)).unwrap();
    (ledger, reg, ga)
}

#[test]
fn example_schedule_claims() {
    let g = grant(1000, 0, 1000, 0, 0);
    assert_eq!(vested_amount(&g, 250), Ok(250));
    assert_eq!(claimable_amount(&g, 250), Ok(250));
    let g = grant(1000, 0, 1000, 0, 250);
    assert_eq!(claimable_amount(&g, 250), Err(ErrorCode::NothingToClaim));
    assert_eq!(vested_amount(&g, 1000), Ok(1000));
    assert_eq!(claimable_amount(&g, 1000), Ok(750));
}

#[test]
fn example_schedule_through_ledger() {
    let (mut ledger, reg, ga) = setup(1000, 0, 1000, 0);
    let ctx = ClaimTokens { beneficiary: addr(ALICE), employee_account: ga };
    let order = claim_tokens(&mut ledger, &ctx, "acme".to_string(), 250).unwrap();
    assert_eq!(order.amount, 250);
    assert_eq!(order.to, addr(ALICE));
    assert_eq!(order.mint, addr(MINT));
    let registry = ledger.vesting_account(&reg).unwrap();
    assert_eq!(order.from, registry.treasury_token_account);
    assert_eq!(order.signer_seeds, treasury_signer("acme", registry.treasury_bump));
    assert_eq!(ledger.employee_account(&ga).unwrap().total_withdrawn, 250);
    assert_eq!(
        claim_tokens(&mut ledger, &ctx, "acme".to_string(), 250).err(),
        Some(ErrorCode::NothingToClaim)
    );
    let order = claim_tokens(&mut ledger, &ctx, "acme".to_string(), 1000).unwrap();
    assert_eq!(order.amount, 750);
    assert_eq!(ledger.employee_account(&ga).unwrap().total_withdrawn, 1000);
}

#[test]
fn nothing_vested_at_start() {
    assert_eq!(vested_amount(&grant(1000, 100, 200, 50, 0), 100), Ok(0));
    assert_eq!(vested_amount(&grant(u64::MAX, 100, 200, 100, 0), 100), Ok(0));
}

#[test]
fn everything_vested_after_end() {
    let g = grant(1000, 0, 1000, 0, 0);
    assert_eq!(vested_amount(&g, 1000), Ok(1000));
    assert_eq!(vested_amount(&g, 5000), Ok(1000));
    assert_eq!(vested_amount(&g, i64::MAX), Ok(1000));
}

#[test]
fn vested_never_decreases() {
    let g = grant(777, -50, 950, -100, 0);
    let mut last = 0;
    for now in -100..1100 {
        let v = vested_amount(&g, now).unwrap();
        assert!(v >= last);
        last = v;
    }
    assert_eq!(last, 777);
}

#[test]
fn linear_share_rounds_down() {
    let g = grant(10, 0, 3, 0, 0);
    assert_eq!(vested_amount(&g, 1), Ok(3));
    assert_eq!(vested_amount(&g, 2), Ok(6));
    assert_eq!(vested_amount(&g, 3), Ok(10));
}

#[test]
fn elapsed_time_saturates_at_zero_before_start() {
    let g = grant(1000, 500, 1000, 0, 0);
    assert_eq!(vested_amount(&g, 100), Ok(0));
    assert_eq!(claimable_amount(&g, 100), Err(ErrorCode::NothingToClaim));
}

#[test]
fn wide_schedule_uses_exact_duration() {
    let g = grant(1, i64::MIN, i64::MAX, i64::MIN, 0);
    assert_eq!(vested_amount(&g, i64::MAX - 1), Ok(0));
    assert_eq!(vested_amount(&g, i64::MAX), Ok(1));
}

#[test]
fn claim_before_cliff_fails() {
    let g = grant(1000, 0, 1000, 500, 0);
    assert_eq!(claimable_amount(&g, 499), Err(ErrorCode::ClaimNotAvailableYet));
    let (mut ledger, _, ga) = setup(1000, 0, 1000, 500);
    let ctx = ClaimTokens { beneficiary: addr(ALICE), employee_account: ga };
    assert_eq!(
        claim_tokens(&mut ledger, &ctx, "acme".to_string(), 499).err(),
        Some(ErrorCode::ClaimNotAvailableYet)
    );
    assert_eq!(ledger.employee_account(&ga).unwrap().total_withdrawn, 0);
    assert_eq!(claim_tokens(&mut ledger, &ctx, "acme".to_string(), 500).unwrap().amount, 500);
}

#[test]
fn zero_length_schedule_fails() {
    let g = grant(1000, 100, 100, 0, 0);
    assert_eq!(vested_amount(&g, 100), Err(ErrorCode::InvalidVestingPeriod));
    assert_eq!(claimable_amount(&g, 5000), Err(ErrorCode::InvalidVestingPeriod));
}

#[test]
fn overflowing_share_fails() {
    let g = grant(u64::MAX, 0, 1000, 0, 0);
    assert_eq!(vested_amount(&g, 2), Err(ErrorCode::CalculationOverflow));
    assert_eq!(vested_amount(&g, 1000), Ok(u64::MAX));
}

#[test]
fn withdrawn_stays_within_total() {
    let (mut ledger, _, ga) = setup(1001, 0, 1000, 0);
    let ctx = ClaimTokens { beneficiary: addr(ALICE), employee_account: ga };
    let mut sum: u64 = 0;
    for now in [1, 2, 333, 333, 334, 999, 1000, 1000, 4000] {
        if let Ok(order) = claim_tokens(&mut ledger, &ctx, "acme".to_string(), now) {
            sum += order.amount;
        }
        let g = ledger.employee_account(&ga).unwrap();
        assert!(g.total_withdrawn <= g.total_amount);
        assert_eq!(g.total_withdrawn, sum);
    }
    assert_eq!(sum, 1001);
}

#[test]
fn consecutive_claims_release_the_difference() {
    let g = grant(1000, 0, 1000, 0, 0);
    let first = claimable_amount(&g, 300).unwrap();
    assert_eq!(first, 300);
    let g = grant(1000, 0, 1000, 0, first);
    assert_eq!(claimable_amount(&g, 700), Ok(400));
}

#[test]
fn same_name_registers_once() {
    let mut ledger = Ledger::new(addr(PROGRAM));
    let ctx = CreateVestingAccount { signer: addr(OWNER), mint: addr(MINT) };
    assert_eq!(create_vesting_account(&mut ledger, &ctx, "acme".to_string()), Ok(()));
    let other = CreateVestingAccount { signer: addr(BOB), mint: addr(MINT) };
    assert_eq!(
        create_vesting_account(&mut ledger, &other, "acme".to_string()),
        Err(ErrorCode::AlreadyExists)
    );
    assert_eq!(create_vesting_account(&mut ledger, &other, "globex".to_string()), Ok(()));
    assert_eq!(ledger.vesting_accounts.len(), 2);
}

#[test]
fn registry_entry_records_creation() {
    let mut ledger = Ledger::new(addr(PROGRAM));
    let ctx = CreateVestingAccount { signer: addr(OWNER), mint: addr(MINT) };
    assert_eq!(create_vesting_account(&mut ledger, &ctx, "acme".to_string()), Ok(()));
    let (reg, bump) = derive_registry_address("acme", &addr(PROGRAM)).unwrap();
    let (treasury, treasury_bump) = derive_treasury_address("acme", &addr(PROGRAM)).unwrap();
    let entry = ledger.vesting_account(&reg).unwrap();
    assert_eq!(entry.owner, addr(OWNER));
    assert_eq!(entry.mint, addr(MINT));
    assert_eq!(entry.treasury_token_account, treasury);
    assert_eq!(entry.company_name, "acme");
    assert_eq!(entry.bump, bump);
    assert_eq!(entry.treasury_bump, treasury_bump);
    assert_ne!(reg, treasury);
}

#[test]
fn overlong_name_derives_no_address() {
    let mut ledger = Ledger::new(addr(PROGRAM));
    let ctx = CreateVestingAccount { signer: addr(OWNER), mint: addr(MINT) };
    let name = "a".repeat(33);
    assert_eq!(create_vesting_account(&mut ledger, &ctx, name), Err(ErrorCode::InvalidSeeds));
    assert_eq!(ledger.vesting_accounts.len(), 0);
}

#[test]
fn derived_addresses_match_the_scheme() {
    let program = Pubkey::new_from_array([PROGRAM; 32]);
    let (reg, bump) = derive_registry_address("acme", &addr(PROGRAM)).unwrap();
    assert_ne!(reg, addr(PROGRAM));
    let expected = Pubkey::create_program_address(&[b"acme".as_ref(), &[bump]], &program).unwrap();
    assert_eq!(reg.bytes, expected.to_bytes());
    let (ga, gbump) = derive_grant_address(&addr(ALICE), &reg, &addr(PROGRAM)).unwrap();
    let expected = Pubkey::create_program_address(
        &[b"employee_vesting".as_ref(), &[ALICE; 32], &reg.bytes, &[gbump]],
        &program,
    )
    .unwrap();
    assert_eq!(ga.bytes, expected.to_bytes());
    assert_eq!(derive_registry_address("acme", &addr(PROGRAM)), Some((reg, bump)));
    assert_ne!(derive_registry_address("acmf", &addr(PROGRAM)).unwrap().0, reg);
}

#[test]
fn grant_needs_registry_owner() {
    let (mut ledger, reg, _) = setup(1000, 0, 1000, 0);
    let ctx = CreateEmployeeAccount { owner: addr(BOB), beneficiary: addr(BOB), vesting_account: reg };
    assert_eq!(create_employee_account(&mut ledger, &ctx, 0, 10, 10, 0), Err(ErrorCode::Unauthorized));
    let ctx = CreateEmployeeAccount { owner: addr(OWNER), beneficiary: addr(BOB), vesting_account: addr(77) };
    assert_eq!(
        create_employee_account(&mut ledger, &ctx, 0, 10, 10, 0),
        Err(ErrorCode::AccountNotInitialized)
    );
    assert_eq!(ledger.employee_accounts.len(), 1);
}

#[test]
fn grant_created_once_per_beneficiary() {
    let (mut ledger, reg, ga) = setup(1000, 0, 1000, 0);
    let ctx = CreateEmployeeAccount { owner: addr(OWNER), beneficiary: addr(ALICE), vesting_account: reg };
    assert_eq!(create_employee_account(&mut ledger, &ctx, 5, 6, 7, 8), Err(ErrorCode::AlreadyExists));
    let g = ledger.employee_account(&ga).unwrap();
    assert_eq!((g.start_time, g.end_time, g.total_amount, g.cliff_time), (0, 1000, 1000, 0));
    assert_eq!(g.total_withdrawn, 0);
    assert_eq!(g.beneficiary, addr(ALICE));
    assert_eq!(g.vesting_account, reg);
}

#[test]
fn claim_by_other_identity_is_unauthorized() {
    let (mut ledger, _, ga) = setup(1000, 0, 1000, 0);
    let ctx = ClaimTokens { beneficiary: addr(BOB), employee_account: ga };
    assert_eq!(
        claim_tokens(&mut ledger, &ctx, "acme".to_string(), 500).err(),
        Some(ErrorCode::Unauthorized)
    );
    assert_eq!(ledger.employee_account(&ga).unwrap().total_withdrawn, 0);
}

#[test]
fn claim_under_other_organization_fails() {
    let (mut ledger, _, ga) = setup(1000, 0, 1000, 0);
    let ctx = CreateVestingAccount { signer: addr(BOB), mint: addr(MINT) };
    assert_eq!(create_vesting_account(&mut ledger, &ctx, "globex".to_string()), Ok(()));
    let claim = ClaimTokens { beneficiary: addr(ALICE), employee_account: ga };
    assert_eq!(
        claim_tokens(&mut ledger, &claim, "globex".to_string(), 500).err(),
        Some(ErrorCode::Unauthorized)
    );
    assert_eq!(
        claim_tokens(&mut ledger, &claim, "initech".to_string(), 500).err(),
        Some(ErrorCode::AccountNotInitialized)
    );
}

#[test]
fn address_comparison() {
    let mut b = [3u8; 32];
    assert!(addr(3).same_as(&Address { bytes: b }));
    b[31] = 4;
    assert!(!addr(3).same_as(&Address { bytes: b }));
}

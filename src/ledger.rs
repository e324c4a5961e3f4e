//! The program's records, keyed by derived address, and its three
//! operations: registering an organization, creating a grant, and claiming.
use vstd::prelude::*;
use crate::accounts::{EmployeeAccount, ErrorCode, VestingAccount};
use crate::address::{
    Address, derive_grant_address, derive_registry_address, derive_treasury_address,
    grant_seeds, program_address_of, registry_seeds, seeds_view, treasury_seeds,
    treasury_signer, treasury_signer_seeds,
};
use crate::schedule::{after_claim, claim_outcome, claimable_amount};

verus! {

/// Bytes of an organization name, as used in seeds.
pub open spec fn name_bytes(name: String) -> Seq<u8> {
    vstd::utf8::encode_utf8(name@)
}

/// The records of one program: registry entries and grants, each stored at
/// its derived address.
pub struct Ledger {
    pub program_id: Address,
    pub vesting_accounts: Vec<(Address, VestingAccount)>,
    pub employee_accounts: Vec<(Address, EmployeeAccount)>,
}

/// Signer and token of a new registry entry.
pub struct CreateVestingAccount {
    pub signer: Address,
    pub mint: Address,
}

/// Signer, beneficiary and registry entry of a new grant.
pub struct CreateEmployeeAccount {
    pub owner: Address,
    pub beneficiary: Address,
    pub vesting_account: Address,
}

/// Signer of a claim and the grant it claims against.
pub struct ClaimTokens {
    pub beneficiary: Address,
    pub employee_account: Address,
}

/// A transfer from a custody account that a successful claim authorizes.
pub struct TransferOrder {
    pub from: Address,
    pub to: Address,
    pub mint: Address,
    pub amount: u64,
    /// Seeds of the custody account's signing authority, bump last.
    pub signer_seeds: Vec<Vec<u8>>,
}

impl Ledger {
    pub open spec fn has_registry(self, a: Seq<u8>) -> bool {
        exists|i: int| 0 <= i < self.vesting_accounts@.len() && #[trigger] self.vesting_accounts@[i].0@ == a
    }

    pub open spec fn registry_index(self, a: Seq<u8>) -> int {
        choose|i: int| 0 <= i < self.vesting_accounts@.len() && #[trigger] self.vesting_accounts@[i].0@ == a
    }

    pub open spec fn registry(self, a: Seq<u8>) -> VestingAccount {
        self.vesting_accounts@[self.registry_index(a)].1
    }

    pub open spec fn has_grant(self, a: Seq<u8>) -> bool {
        exists|i: int| 0 <= i < self.employee_accounts@.len() && #[trigger] self.employee_accounts@[i].0@ == a
    }

    pub open spec fn grant_index(self, a: Seq<u8>) -> int {
        choose|i: int| 0 <= i < self.employee_accounts@.len() && #[trigger] self.employee_accounts@[i].0@ == a
    }

    pub open spec fn grant(self, a: Seq<u8>) -> EmployeeAccount {
        self.employee_accounts@[self.grant_index(a)].1
    }

    /// Some record is stored at the address.
    pub open spec fn occupied(self, a: Seq<u8>) -> bool {
        self.has_registry(a) || self.has_grant(a)
    }

    /// One record per address in each table, and every grant within its total.
    pub open spec fn wf(self) -> bool {
        &&& forall|i: int, j: int|
            0 <= i < j < self.vesting_accounts@.len() ==> #[trigger] self.vesting_accounts@[i].0@
                != #[trigger] self.vesting_accounts@[j].0@
        &&& forall|i: int, j: int|
            0 <= i < j < self.employee_accounts@.len() ==> #[trigger] self.employee_accounts@[i].0@
                != #[trigger] self.employee_accounts@[j].0@
        &&& forall|i: int| 0 <= i < self.employee_accounts@.len() ==> (#[trigger] self.employee_accounts@[i]).1.wf()
    }

    /// An empty ledger of a program.
    pub fn new(program_id: Address) -> (r: Ledger)
        ensures
            r.wf(),
            r.program_id == program_id,
            r.vesting_accounts@.len() == 0,
            r.employee_accounts@.len() == 0,
    {
        Ledger { program_id, vesting_accounts: Vec::new(), employee_accounts: Vec::new() }
    }

    fn find_registry(&self, a: &Address) -> (r: Option<usize>)
        requires
            self.wf(),
        ensures
            match r {
                Some(i) => self.has_registry(a@) && i == self.registry_index(a@),
                None => !self.has_registry(a@),
            },
    {
        let mut i: usize = 0;
        while i < self.vesting_accounts.len()
            invariant
                self.wf(),
                i <= self.vesting_accounts@.len(),
                forall|j: int| 0 <= j < i ==> #[trigger] self.vesting_accounts@[j].0@ != a@,
            decreases self.vesting_accounts@.len() - i,
        {
            if self.vesting_accounts[i].0.same_as(a) {
                assert(self.vesting_accounts@[i as int].0@ == a@);
                let ghost k = self.registry_index(a@);
                assert(self.vesting_accounts@[k].0@ == a@);
                assert(k == i) by {
                    if k < i {
                        assert(self.vesting_accounts@[k].0@ != a@);
                    } else if k > i {
                        assert(self.vesting_accounts@[i as int].0@ != self.vesting_accounts@[k].0@);
                    }
                }
                return Some(i);
            }
            i = i + 1;
        }
        None
    }

    fn find_grant(&self, a: &Address) -> (r: Option<usize>)
        requires
            self.wf(),
        ensures
            match r {
                Some(i) => self.has_grant(a@) && i == self.grant_index(a@),
                None => !self.has_grant(a@),
            },
    {
        let mut i: usize = 0;
        while i < self.employee_accounts.len()
            invariant
                self.wf(),
                i <= self.employee_accounts@.len(),
                forall|j: int| 0 <= j < i ==> #[trigger] self.employee_accounts@[j].0@ != a@,
            decreases self.employee_accounts@.len() - i,
        {
            if self.employee_accounts[i].0.same_as(a) {
                assert(self.employee_accounts@[i as int].0@ == a@);
                let ghost k = self.grant_index(a@);
                assert(self.employee_accounts@[k].0@ == a@);
                assert(k == i) by {
                    if k < i {
                        assert(self.employee_accounts@[k].0@ != a@);
                    } else if k > i {
                        assert(self.employee_accounts@[i as int].0@ != self.employee_accounts@[k].0@);
                    }
                }
                return Some(i);
            }
            i = i + 1;
        }
        None
    }
}

/// The account checks of a claim, in the order they run: the name derives a
/// registry address holding an entry, a grant is stored at the address
/// given, it belongs to the signer and to that entry, and it sits at the
/// address the signer and the entry derive.
pub open spec fn claim_accounts_check(l: Ledger, ctx: ClaimTokens, name: Seq<u8>) -> Result<(), ErrorCode> {
    match program_address_of(registry_seeds(name), l.program_id@) {
        None => Err(ErrorCode::InvalidSeeds),
        Some((reg, _)) => if !l.has_registry(reg) || !l.has_grant(ctx.employee_account@) {
            Err(ErrorCode::AccountNotInitialized)
        } else if l.grant(ctx.employee_account@).beneficiary@ != ctx.beneficiary@
            || l.grant(ctx.employee_account@).vesting_account@ != reg {
            Err(ErrorCode::Unauthorized)
        } else {
            match program_address_of(grant_seeds(ctx.beneficiary@, reg), l.program_id@) {
                None => Err(ErrorCode::InvalidSeeds),
                Some((ga, _)) => if ga != ctx.employee_account@ {
                    Err(ErrorCode::Unauthorized)
                } else {
                    Ok(())
                },
            }
        },
    }
}

/// What a claim returns: the amount released, or the first check that fails.
pub open spec fn claim_tokens_outcome(l: Ledger, ctx: ClaimTokens, name: Seq<u8>, now: i64) -> Result<u64, ErrorCode> {
    match claim_accounts_check(l, ctx, name) {
        Err(e) => Err(e),
        Ok(()) => claim_outcome(l.grant(ctx.employee_account@), now),
    }
}

/// The address of the registry entry that a name derives, when it derives one.
pub open spec fn registry_address(l: Ledger, name: Seq<u8>) -> Seq<u8> {
    program_address_of(registry_seeds(name), l.program_id@)->Some_0.0
}

/// Claims for `ctx.beneficiary` what has vested at `now` of the grant stored
/// at `ctx.employee_account` under the registry entry of `company_name`.
/// On success the grant's withdrawn total grows by the amount released, and
/// the returned order moves that amount out of custody, signed by the custody
/// account's derived authority; the host commits both or neither. On failure
/// nothing changes.
pub fn claim_tokens(ledger: &mut Ledger, ctx: &ClaimTokens, company_name: String, now: i64) -> (r: Result<TransferOrder, ErrorCode>)
    requires
        old(ledger).wf(),
    ensures
        final(ledger).wf(),
        final(ledger).program_id == old(ledger).program_id,
        final(ledger).vesting_accounts@ == old(ledger).vesting_accounts@,
        match r {
            Err(e) => {
                &&& claim_tokens_outcome(*old(ledger), *ctx, name_bytes(company_name), now) == Err::<u64, ErrorCode>(e)
                &&& final(ledger).employee_accounts@ == old(ledger).employee_accounts@
            },
            Ok(order) => {
                let reg = registry_address(*old(ledger), name_bytes(company_name));
                let registry = old(ledger).registry(reg);
                let i = old(ledger).grant_index(ctx.employee_account@);
                let g = old(ledger).grant(ctx.employee_account@);
                &&& claim_tokens_outcome(*old(ledger), *ctx, name_bytes(company_name), now) == Ok::<u64, ErrorCode>(order.amount)
                &&& final(ledger).employee_accounts@ == old(ledger).employee_accounts@.update(
                    i,
                    (old(ledger).employee_accounts@[i].0, after_claim(g, now)),
                )
                &&& order.from == registry.treasury_token_account
                &&& order.mint == registry.mint
                &&& order.to == ctx.beneficiary
                &&& seeds_view(order.signer_seeds@) == treasury_signer_seeds(name_bytes(company_name), registry.treasury_bump)
            },
        },
{
    let reg = match derive_registry_address(company_name.as_str(), &ledger.program_id) {
        Some((a, _)) => a,
        None => return Err(ErrorCode::InvalidSeeds),
    };
    let ri = match ledger.find_registry(&reg) {
        Some(i) => i,
        None => return Err(ErrorCode::AccountNotInitialized),
    };
    let gi = match ledger.find_grant(&ctx.employee_account) {
        Some(i) => i,
        None => return Err(ErrorCode::AccountNotInitialized),
    };
    let g = ledger.employee_accounts[gi].1;
    if !g.beneficiary.same_as(&ctx.beneficiary) || !g.vesting_account.same_as(&reg) {
        return Err(ErrorCode::Unauthorized);
    }
    match derive_grant_address(&ctx.beneficiary, &reg, &ledger.program_id) {
        Some((ga, _)) => {
            if !ga.same_as(&ctx.employee_account) {
                return Err(ErrorCode::Unauthorized);
            }
        },
        None => return Err(ErrorCode::InvalidSeeds),
    }
    let amount = claimable_amount(&g, now)?;
    proof {
        crate::schedule::lemma_claim_keeps_wf(g, now);
    }
    let updated = EmployeeAccount { total_withdrawn: g.total_withdrawn + amount, ..g };
    let key = ledger.employee_accounts[gi].0;
    ledger.employee_accounts.set(gi, (key, updated));
    proof {
        assert forall|i: int, j: int| 0 <= i < j < final(ledger).employee_accounts@.len()
            implies #[trigger] final(ledger).employee_accounts@[i].0@ != #[trigger] final(ledger).employee_accounts@[j].0@ by {
            assert(old(ledger).employee_accounts@[i].0@ != old(ledger).employee_accounts@[j].0@);
        }
        assert forall|i: int| 0 <= i < final(ledger).employee_accounts@.len()
            implies (#[trigger] final(ledger).employee_accounts@[i]).1.wf() by {
            if i != gi {
                assert(old(ledger).employee_accounts@[i].1.wf());
            }
        }
    }
    let registry = &ledger.vesting_accounts[ri].1;
    Ok(TransferOrder {
        from: registry.treasury_token_account,
        to: ctx.beneficiary,
        mint: registry.mint,
        amount,
        signer_seeds: treasury_signer(company_name.as_str(), registry.treasury_bump),
    })
}

/// Where a new registry entry and its custody account go, or why none can be
/// created: the name derives no address, or its address is occupied.
pub open spec fn create_vesting_outcome(l: Ledger, name: Seq<u8>) -> Result<((Seq<u8>, u8), (Seq<u8>, u8)), ErrorCode> {
    match program_address_of(registry_seeds(name), l.program_id@) {
        None => Err(ErrorCode::InvalidSeeds),
        Some(reg) => if l.occupied(reg.0) {
            Err(ErrorCode::AlreadyExists)
        } else {
            match program_address_of(treasury_seeds(name), l.program_id@) {
                None => Err(ErrorCode::InvalidSeeds),
                Some(treasury) => Ok((reg, treasury)),
            }
        },
    }
}

/// `new` is `old` with one registry entry added for `name`, owned by the
/// signer, at the address and with the custody account that `name` derives.
pub open spec fn registry_added(old: Ledger, new: Ledger, ctx: CreateVestingAccount, name: String) -> bool {
    let ((reg, bump), (treasury, treasury_bump)) = create_vesting_outcome(old, name_bytes(name))->Ok_0;
    let n = old.vesting_accounts@.len();
    &&& new.program_id == old.program_id
    &&& new.employee_accounts@ == old.employee_accounts@
    &&& new.vesting_accounts@.len() == n + 1
    &&& new.vesting_accounts@.take(n as int) == old.vesting_accounts@
    &&& new.vesting_accounts@[n as int].0@ == reg
    &&& new.vesting_accounts@[n as int].1.owner == ctx.signer
    &&& new.vesting_accounts@[n as int].1.mint == ctx.mint
    &&& new.vesting_accounts@[n as int].1.treasury_token_account@ == treasury
    &&& new.vesting_accounts@[n as int].1.company_name@ == name@
    &&& new.vesting_accounts@[n as int].1.treasury_bump == treasury_bump
    &&& new.vesting_accounts@[n as int].1.bump == bump
}

/// Registers an organization: stores a registry entry owned by the signer at
/// the address derived from `company_name`, with a custody account for the
/// signer's token whose authority is its own derived address.
pub fn create_vesting_account(ledger: &mut Ledger, ctx: &CreateVestingAccount, company_name: String) -> (r: Result<(), ErrorCode>)
    requires
        old(ledger).wf(),
    ensures
        final(ledger).wf(),
        match r {
            Err(e) => {
                &&& create_vesting_outcome(*old(ledger), name_bytes(company_name)) == Err::<((Seq<u8>, u8), (Seq<u8>, u8)), ErrorCode>(e)
                &&& *final(ledger) == *old(ledger)
            },
            Ok(()) => {
                &&& create_vesting_outcome(*old(ledger), name_bytes(company_name)) is Ok
                &&& registry_added(*old(ledger), *final(ledger), *ctx, company_name)
            },
        },
{
    let (reg, bump) = match derive_registry_address(company_name.as_str(), &ledger.program_id) {
        Some(d) => d,
        None => return Err(ErrorCode::InvalidSeeds),
    };
    if ledger.find_registry(&reg).is_some() || ledger.find_grant(&reg).is_some() {
        return Err(ErrorCode::AlreadyExists);
    }
    let (treasury, treasury_bump) = match derive_treasury_address(company_name.as_str(), &ledger.program_id) {
        Some(d) => d,
        None => return Err(ErrorCode::InvalidSeeds),
    };
    let entry = VestingAccount {
        owner: ctx.signer,
        mint: ctx.mint,
        treasury_token_account: treasury,
        company_name,
        treasury_bump,
        bump,
    };
    ledger.vesting_accounts.push((reg, entry));
    proof {
        let n = old(ledger).vesting_accounts@.len();
        assert(final(ledger).vesting_accounts@.take(n as int) =~= old(ledger).vesting_accounts@);
        assert forall|i: int, j: int| 0 <= i < j < final(ledger).vesting_accounts@.len()
            implies #[trigger] final(ledger).vesting_accounts@[i].0@ != #[trigger] final(ledger).vesting_accounts@[j].0@ by {
            if j < n {
                assert(old(ledger).vesting_accounts@[i].0@ != old(ledger).vesting_accounts@[j].0@);
            } else {
                assert(old(ledger).vesting_accounts@[i].0@ == final(ledger).vesting_accounts@[i].0@);
            }
        }
    }
    Ok(())
}

/// Where a new grant goes, or why none can be created: no registry entry at
/// the address given, a signer other than its owner, no derivable address,
/// or an occupied one.
pub open spec fn create_employee_outcome(l: Ledger, ctx: CreateEmployeeAccount) -> Result<(Seq<u8>, u8), ErrorCode> {
    if !l.has_registry(ctx.vesting_account@) {
        Err(ErrorCode::AccountNotInitialized)
    } else if l.registry(ctx.vesting_account@).owner@ != ctx.owner@ {
        Err(ErrorCode::Unauthorized)
    } else {
        match program_address_of(grant_seeds(ctx.beneficiary@, ctx.vesting_account@), l.program_id@) {
            None => Err(ErrorCode::InvalidSeeds),
            Some(ga) => if l.occupied(ga.0) {
                Err(ErrorCode::AlreadyExists)
            } else {
                Ok(ga)
            },
        }
    }
}

/// Creates the grant of `ctx.beneficiary` under the registry entry at
/// `ctx.vesting_account`, with nothing withdrawn yet. Only the entry's owner
/// may do so; the schedule itself is stored as given.
pub fn create_employee_account(
    ledger: &mut Ledger,
    ctx: &CreateEmployeeAccount,
    start_time: i64,
    end_time: i64,
    total_amount: u64,
    cliff_time: i64,
) -> (r: Result<(), ErrorCode>)
    requires
        old(ledger).wf(),
    ensures
        final(ledger).wf(),
        match r {
            Err(e) => {
                &&& create_employee_outcome(*old(ledger), *ctx) == Err::<(Seq<u8>, u8), ErrorCode>(e)
                &&& *final(ledger) == *old(ledger)
            },
            Ok(()) => {
                let (ga, bump) = create_employee_outcome(*old(ledger), *ctx)->Ok_0;
                let n = old(ledger).employee_accounts@.len();
                &&& create_employee_outcome(*old(ledger), *ctx) is Ok
                &&& final(ledger).program_id == old(ledger).program_id
                &&& final(ledger).vesting_accounts@ == old(ledger).vesting_accounts@
                &&& final(ledger).employee_accounts@.len() == n + 1
                &&& final(ledger).employee_accounts@.take(n as int) == old(ledger).employee_accounts@
                &&& final(ledger).employee_accounts@[n as int].0@ == ga
                &&& final(ledger).employee_accounts@[n as int].1 == (EmployeeAccount {
                    beneficiary: ctx.beneficiary,
                    start_time,
                    end_time,
                    cliff_time,
                    vesting_account: ctx.vesting_account,
                    total_amount,
                    total_withdrawn: 0,
                    bump,
                })
            },
        },
{
    let ri = match ledger.find_registry(&ctx.vesting_account) {
        Some(i) => i,
        None => return Err(ErrorCode::AccountNotInitialized),
    };
    if !ledger.vesting_accounts[ri].1.owner.same_as(&ctx.owner) {
        return Err(ErrorCode::Unauthorized);
    }
    let (ga, bump) = match derive_grant_address(&ctx.beneficiary, &ctx.vesting_account, &ledger.program_id) {
        Some(d) => d,
        None => return Err(ErrorCode::InvalidSeeds),
    };
    if ledger.find_registry(&ga).is_some() || ledger.find_grant(&ga).is_some() {
        return Err(ErrorCode::AlreadyExists);
    }
    let grant = EmployeeAccount {
        beneficiary: ctx.beneficiary,
        start_time,
        end_time,
        cliff_time,
        vesting_account: ctx.vesting_account,
        total_amount,
        total_withdrawn: 0,
        bump,
    };
    ledger.employee_accounts.push((ga, grant));
    proof {
        let n = old(ledger).employee_accounts@.len();
        assert(final(ledger).employee_accounts@.take(n as int) =~= old(ledger).employee_accounts@);
        assert forall|i: int, j: int| 0 <= i < j < final(ledger).employee_accounts@.len()
            implies #[trigger] final(ledger).employee_accounts@[i].0@ != #[trigger] final(ledger).employee_accounts@[j].0@ by {
            if j < n {
                assert(old(ledger).employee_accounts@[i].0@ != old(ledger).employee_accounts@[j].0@);
            } else {
                assert(old(ledger).employee_accounts@[i].0@ == final(ledger).employee_accounts@[i].0@);
            }
        }
        assert forall|i: int| 0 <= i < final(ledger).employee_accounts@.len()
            implies (#[trigger] final(ledger).employee_accounts@[i]).1.wf() by {
            if i < n {
                assert(old(ledger).employee_accounts@[i].1.wf());
            }
        }
    }
    Ok(())
}

impl VestingAccount {
    /// A copy of this entry.
    pub fn duplicate(&self) -> (r: VestingAccount)
        ensures
            r == *self,
    {
        VestingAccount {
            owner: self.owner,
            mint: self.mint,
            treasury_token_account: self.treasury_token_account,
            company_name: self.company_name.clone(),
            treasury_bump: self.treasury_bump,
            bump: self.bump,
        }
    }
}

impl Ledger {
    /// The registry entry stored at `a`, if any.
    pub fn vesting_account(&self, a: &Address) -> (r: Option<VestingAccount>)
        requires
            self.wf(),
        ensures
            r == (if self.has_registry(a@) { Some(self.registry(a@)) } else { None::<VestingAccount> }),
    {
        match self.find_registry(a) {
            Some(i) => Some(self.vesting_accounts[i].1.duplicate()),
            None => None,
        }
    }

    /// The grant stored at `a`, if any.
    pub fn employee_account(&self, a: &Address) -> (r: Option<EmployeeAccount>)
        requires
            self.wf(),
        ensures
            r == (if self.has_grant(a@) { Some(self.grant(a@)) } else { None::<EmployeeAccount> }),
    {
        match self.find_grant(a) {
            Some(i) => Some(self.employee_accounts[i].1),
            None => None,
        }
    }
}

/// Once an organization name is registered, registering it again fails with
/// `AlreadyExists`: the name derives the same address, which is now occupied.
pub proof fn lemma_name_registered_once(l1: Ledger, l2: Ledger, ctx: CreateVestingAccount, name: String)
    requires
        l1.wf(),
        create_vesting_outcome(l1, name_bytes(name)) is Ok,
        registry_added(l1, l2, ctx, name),
    ensures
        create_vesting_outcome(l2, name_bytes(name)) == Err::<((Seq<u8>, u8), (Seq<u8>, u8)), ErrorCode>(ErrorCode::AlreadyExists),
{
    let n = l1.vesting_accounts@.len() as int;
    assert(l2.vesting_accounts@[n].0@ == create_vesting_outcome(l1, name_bytes(name))->Ok_0.0.0);
    assert(l2.has_registry(l2.vesting_accounts@[n].0@));
}

/// Once a beneficiary has a grant under a registry entry, creating another
/// for the same pair fails with `AlreadyExists`.
pub proof fn lemma_grant_created_once(l1: Ledger, l2: Ledger, ctx: CreateEmployeeAccount)
    requires
        create_employee_outcome(l1, ctx) is Ok,
        l2.program_id == l1.program_id,
        l2.vesting_accounts@ == l1.vesting_accounts@,
        l2.employee_accounts@.len() == l1.employee_accounts@.len() + 1,
        l2.employee_accounts@[l1.employee_accounts@.len() as int].0@ == create_employee_outcome(l1, ctx)->Ok_0.0,
    ensures
        create_employee_outcome(l2, ctx) == Err::<(Seq<u8>, u8), ErrorCode>(ErrorCode::AlreadyExists),
{
    let n = l1.vesting_accounts@.len() as int;
    assert(l2.has_grant(l2.employee_accounts@[l1.employee_accounts@.len() as int].0@));
    assert(l2.has_registry(ctx.vesting_account@) == l1.has_registry(ctx.vesting_account@));
    assert(l2.registry(ctx.vesting_account@) == l1.registry(ctx.vesting_account@));
}

/// A claim on an existing grant of an existing registry entry, signed by
/// anyone but the grant's beneficiary, fails with `Unauthorized`.
pub proof fn lemma_claim_by_other_identity(l: Ledger, ctx: ClaimTokens, name: String, now: i64)
    requires
        program_address_of(registry_seeds(name_bytes(name)), l.program_id@) is Some,
        l.has_registry(registry_address(l, name_bytes(name))),
        l.has_grant(ctx.employee_account@),
        l.grant(ctx.employee_account@).beneficiary@ != ctx.beneficiary@,
    ensures
        claim_tokens_outcome(l, ctx, name_bytes(name), now) == Err::<u64, ErrorCode>(ErrorCode::Unauthorized),
{
}

/// A claim before the grant's cliff fails, with `ClaimNotAvailableYet` once
/// the account checks pass, and so never changes the ledger.
pub proof fn lemma_claim_tokens_before_cliff(l: Ledger, ctx: ClaimTokens, name: String, now: i64)
    requires
        l.has_grant(ctx.employee_account@),
        now < l.grant(ctx.employee_account@).cliff_time,
    ensures
        claim_tokens_outcome(l, ctx, name_bytes(name), now) is Err,
        claim_accounts_check(l, ctx, name_bytes(name)) is Ok ==> claim_tokens_outcome(l, ctx, name_bytes(name), now)
            == Err::<u64, ErrorCode>(ErrorCode::ClaimNotAvailableYet),
{
}

} // verus!

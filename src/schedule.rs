//! Linear vesting: how much of a grant has vested at a given time, and how
//! much a claim releases.
use vstd::prelude::*;
use crate::accounts::{EmployeeAccount, ErrorCode};

verus! {

/// Amount vested at `now`: nothing up to the start, everything from the end
/// on, and in between the floor of the elapsed share of the total.
pub open spec fn vested_at(g: EmployeeAccount, now: i64) -> int {
    if now >= g.end_time {
        g.total_amount as int
    } else if now <= g.start_time {
        0
    } else {
        (g.total_amount as int) * (now - g.start_time) / (g.end_time - g.start_time)
    }
}

/// The product of the total and the elapsed time leaves the range of `u64`.
pub open spec fn product_overflows(g: EmployeeAccount, now: i64) -> bool {
    g.start_time < now < g.end_time && (g.total_amount as int) * (now - g.start_time) > u64::MAX
}

/// Vested amount as the claim engine computes it, with its failures.
pub open spec fn vesting_outcome(g: EmployeeAccount, now: i64) -> Result<u64, ErrorCode> {
    if now < g.cliff_time {
        Err(ErrorCode::ClaimNotAvailableYet)
    } else if g.start_time == g.end_time {
        Err(ErrorCode::InvalidVestingPeriod)
    } else if product_overflows(g, now) {
        Err(ErrorCode::CalculationOverflow)
    } else {
        Ok(vested_at(g, now) as u64)
    }
}

/// Amount a claim at `now` releases, with its failures.
pub open spec fn claim_outcome(g: EmployeeAccount, now: i64) -> Result<u64, ErrorCode> {
    match vesting_outcome(g, now) {
        Err(e) => Err(e),
        Ok(v) => if v <= g.total_withdrawn {
            Err(ErrorCode::NothingToClaim)
        } else {
            Ok((v - g.total_withdrawn) as u64)
        },
    }
}

/// The grant after a claim at `now`: unchanged when the claim fails.
pub open spec fn after_claim(g: EmployeeAccount, now: i64) -> EmployeeAccount {
    match claim_outcome(g, now) {
        Ok(c) => EmployeeAccount { total_withdrawn: (g.total_withdrawn + c) as u64, ..g },
        Err(_) => g,
    }
}

/// The grant after claims at each time of `times` in turn.
pub open spec fn after_claims(g: EmployeeAccount, times: Seq<i64>) -> EmployeeAccount
    decreases times.len(),
{
    if times.len() == 0 {
        g
    } else {
        after_claims(after_claim(g, times[0]), times.drop_first())
    }
}

proof fn lemma_share_bounds(total: int, elapsed: int, duration: int)
    requires
        0 <= total,
        0 <= elapsed <= duration,
        0 < duration,
    ensures
        0 <= total * elapsed / duration <= total,
{
    assert(0 <= total * elapsed <= total * duration) by (nonlinear_arith)
        requires
            0 <= total,
            0 <= elapsed <= duration,
    ;
    vstd::arithmetic::div_mod::lemma_div_is_ordered(total * elapsed, total * duration, duration);
    vstd::arithmetic::div_mod::lemma_div_multiples_vanish(total, duration);
    vstd::arithmetic::div_mod::lemma_div_pos_is_pos(total * elapsed, duration);
    vstd::arithmetic::mul::lemma_mul_is_commutative(total, duration);
}

/// What has vested never exceeds the grant's total.
pub proof fn lemma_vested_bounds(g: EmployeeAccount, now: i64)
    ensures
        0 <= vested_at(g, now) <= g.total_amount,
{
    if g.start_time < now < g.end_time {
        lemma_share_bounds(g.total_amount as int, now - g.start_time, g.end_time - g.start_time);
    }
}

/// Nothing has vested at the start of a schedule that runs forward (or grants
/// nothing), whatever the cliff before it.
pub proof fn lemma_nothing_vested_at_start(g: EmployeeAccount)
    requires
        g.cliff_time <= g.start_time,
        g.start_time < g.end_time || g.total_amount == 0,
    ensures
        vested_at(g, g.start_time) == 0,
{
}

/// From the end of the schedule on, exactly the total has vested, and the
/// engine computes it without overflow once the cliff has passed.
pub proof fn lemma_fully_vested_after_end(g: EmployeeAccount, now: i64)
    requires
        now >= g.end_time,
    ensures
        vested_at(g, now) == g.total_amount,
        now >= g.cliff_time && g.start_time != g.end_time ==> vesting_outcome(g, now) == Ok::<u64, ErrorCode>(g.total_amount),
{
}

/// The vested amount never decreases as time goes on.
pub proof fn lemma_vested_monotonic(g: EmployeeAccount, a: i64, b: i64)
    requires
        a <= b,
    ensures
        vested_at(g, a) <= vested_at(g, b),
{
    lemma_vested_bounds(g, a);
    lemma_vested_bounds(g, b);
    if g.start_time < a && b < g.end_time {
        let t = g.total_amount as int;
        let d = g.end_time - g.start_time;
        assert(t * (a - g.start_time) <= t * (b - g.start_time)) by (nonlinear_arith)
            requires
                0 <= t,
                a - g.start_time <= b - g.start_time,
        ;
        vstd::arithmetic::div_mod::lemma_div_is_ordered(t * (a - g.start_time), t * (b - g.start_time), d);
    }
}

/// A claim before the cliff fails and leaves the grant as it was.
pub proof fn lemma_claim_before_cliff(g: EmployeeAccount, now: i64)
    requires
        now < g.cliff_time,
    ensures
        claim_outcome(g, now) == Err::<u64, ErrorCode>(ErrorCode::ClaimNotAvailableYet),
        after_claim(g, now) == g,
{
}

/// Past the cliff, a claim on a schedule of zero duration fails.
pub proof fn lemma_zero_period_rejected(g: EmployeeAccount, now: i64)
    requires
        g.start_time == g.end_time,
        now >= g.cliff_time,
    ensures
        claim_outcome(g, now) == Err::<u64, ErrorCode>(ErrorCode::InvalidVestingPeriod),
        after_claim(g, now) == g,
{
}

/// A claim keeps the withdrawn total within the grant's total.
pub proof fn lemma_claim_keeps_wf(g: EmployeeAccount, now: i64)
    requires
        g.wf(),
    ensures
        after_claim(g, now).wf(),
        claim_outcome(g, now) is Ok ==> g.total_withdrawn + claim_outcome(g, now)->Ok_0 == vested_at(g, now),
{
    lemma_vested_bounds(g, now);
}

/// However many claims are made, at whatever times, the withdrawn total never
/// exceeds the grant's total.
pub proof fn lemma_withdrawn_never_exceeds_total(g: EmployeeAccount, times: Seq<i64>)
    requires
        g.wf(),
    ensures
        after_claims(g, times).wf(),
    decreases times.len(),
{
    if times.len() > 0 {
        lemma_claim_keeps_wf(g, times[0]);
        lemma_withdrawn_never_exceeds_total(after_claim(g, times[0]), times.drop_first());
    }
}

/// Two claims in a row on a fresh grant: the first releases all that has
/// vested, the second what vested in between (or fails when that is nothing).
pub proof fn lemma_consecutive_claims(g: EmployeeAccount, now1: i64, now2: i64)
    requires
        g.total_withdrawn == 0,
        g.cliff_time <= now1 <= now2,
        g.start_time != g.end_time,
        !product_overflows(g, now1),
        !product_overflows(g, now2),
        vested_at(g, now1) > 0,
    ensures
        claim_outcome(g, now1) == Ok::<u64, ErrorCode>(vested_at(g, now1) as u64),
        vested_at(g, now2) > vested_at(g, now1) ==> claim_outcome(after_claim(g, now1), now2)
            == Ok::<u64, ErrorCode>((vested_at(g, now2) - vested_at(g, now1)) as u64),
        vested_at(g, now2) == vested_at(g, now1) ==> claim_outcome(after_claim(g, now1), now2)
            == Err::<u64, ErrorCode>(ErrorCode::NothingToClaim),
{
    lemma_vested_bounds(g, now1);
    lemma_vested_bounds(g, now2);
    lemma_vested_monotonic(g, now1, now2);
}

/// A claim from the end of the schedule on leaves exactly the total withdrawn.
pub proof fn lemma_claim_after_end_completes(g: EmployeeAccount, now: i64)
    requires
        g.wf(),
        now >= g.end_time,
        now >= g.cliff_time,
        g.start_time != g.end_time,
    ensures
        after_claim(g, now).total_withdrawn == g.total_amount,
{
}

/// Any run of claims whose last one comes at or after the end of the schedule
/// (and past the cliff) has withdrawn exactly the total in all.
pub proof fn lemma_claims_sum_to_total(g: EmployeeAccount, times: Seq<i64>)
    requires
        g.wf(),
        times.len() > 0,
        times.last() >= g.end_time,
        times.last() >= g.cliff_time,
        g.start_time != g.end_time,
    ensures
        after_claims(g, times).total_withdrawn == g.total_amount,
    decreases times.len(),
{
    if times.len() == 1 {
        lemma_claim_after_end_completes(g, times[0]);
        assert(times.drop_first().len() == 0);
        assert(after_claims(after_claim(g, times[0]), times.drop_first()) == after_claim(g, times[0]));
    } else {
        lemma_claim_keeps_wf(g, times[0]);
        assert(times.drop_first().last() == times.last());
        lemma_claims_sum_to_total(after_claim(g, times[0]), times.drop_first());
    }
}

/// The vested amount of a grant at `now`, or why it cannot be computed.
pub fn vested_amount(g: &EmployeeAccount, now: i64) -> (r: Result<u64, ErrorCode>)
    ensures
        r == vesting_outcome(*g, now),
{
    if now < g.cliff_time {
        return Err(ErrorCode::ClaimNotAvailableYet);
    }
    if g.start_time == g.end_time {
        return Err(ErrorCode::InvalidVestingPeriod);
    }
    if now >= g.end_time {
        return Ok(g.total_amount);
    }
    if now <= g.start_time {
        return Ok(0);
    }
    let elapsed: u64 = (now as i128 - g.start_time as i128) as u64;
    let duration: u64 = (g.end_time as i128 - g.start_time as i128) as u64;
    match g.total_amount.checked_mul(elapsed) {
        Some(product) => {
            proof {
                lemma_vested_bounds(*g, now);
            }
            Ok(product / duration)
        },
        None => Err(ErrorCode::CalculationOverflow),
    }
}

/// The amount a claim at `now` releases: what has vested beyond what was
/// already withdrawn, or why there is nothing to release.
pub fn claimable_amount(g: &EmployeeAccount, now: i64) -> (r: Result<u64, ErrorCode>)
    ensures
        r == claim_outcome(*g, now),
{
    let vested = vested_amount(g, now)?;
    if vested <= g.total_withdrawn {
        return Err(ErrorCode::NothingToClaim);
    }
    Ok(vested - g.total_withdrawn)
}

} // verus!

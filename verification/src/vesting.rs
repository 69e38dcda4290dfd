//! The vesting engine: linear vesting schedules whose tokens are released over
//! time out of a custody vault.

use crate::authority::{
    confirm, derive_authority, derived, governs, Address, DerivedAuthority, SeedTag,
};
use crate::error::EconomyError;
use crate::transfer::{carried_out, TokenAccount, TransferOrder};
use vstd::arithmetic::div_mod::{
    lemma_div_is_ordered, lemma_div_multiples_vanish, lemma_fundamental_div_mod,
};
use vstd::arithmetic::mul::{lemma_mul_inequality, lemma_mul_is_commutative};
use vstd::prelude::*;

verus! {

/// Whether the three times of a schedule are in order.
pub open spec fn valid_times(start_ts: int, cliff_ts: int, end_ts: int) -> bool {
    start_ts <= cliff_ts <= end_ts
}

/// The cumulative amount unlocked at `now`: nothing before the cliff, all of
/// it from the end on, and in between the share of the time elapsed since the
/// start, rounded down.
pub open spec fn vesting_curve(
    now: int,
    start_ts: int,
    cliff_ts: int,
    end_ts: int,
    total: nat,
) -> nat {
    if now < cliff_ts {
        0
    } else if now >= end_ts {
        total
    } else {
        (total * (now - start_ts) / (end_ts - start_ts)) as nat
    }
}

/// Whether the curve is defined at `now`: between cliff and end the time
/// elapsed since the start must not be negative. With valid times it is
/// defined everywhere.
pub open spec fn curve_defined(now: int, start_ts: int, cliff_ts: int, end_ts: int) -> bool {
    now < cliff_ts || now >= end_ts || start_ts <= now
}

/// The share `total * elapsed / duration` never exceeds `total`.
pub proof fn lemma_share_bounded(total: int, elapsed: int, duration: int)
    requires
        0 <= total,
        0 <= elapsed <= duration,
        0 < duration,
    ensures
        0 <= total * elapsed / duration <= total,
{
    lemma_mul_inequality(elapsed, duration, total);
    lemma_mul_is_commutative(elapsed, total);
    lemma_div_is_ordered(total * elapsed, total * duration, duration);
    lemma_div_multiples_vanish(total, duration);
}

/// The share grows with the time elapsed.
pub proof fn lemma_share_monotonic(total: int, earlier: int, later: int, duration: int)
    requires
        0 <= total,
        0 <= earlier <= later,
        0 < duration,
    ensures
        total * earlier / duration <= total * later / duration,
{
    lemma_mul_inequality(earlier, later, total);
    lemma_div_is_ordered(total * earlier, total * later, duration);
}

/// What [`calculate_vested_amount`] returns: the curve's value where it is
/// defined.
pub open spec fn vested_amount(
    current_ts: i64,
    start_ts: i64,
    cliff_ts: i64,
    end_ts: i64,
    total_amount: u64,
) -> Result<u64, EconomyError> {
    if curve_defined(current_ts as int, start_ts as int, cliff_ts as int, end_ts as int) {
        Ok(
            vesting_curve(
                current_ts as int,
                start_ts as int,
                cliff_ts as int,
                end_ts as int,
                total_amount as nat,
            ) as u64,
        )
    } else {
        Err(EconomyError::ArithmeticError)
    }
}

/// The amount of `total_amount` that has vested at `current_ts`.
///
/// [`EconomyError::ArithmeticError`] where the curve is not defined at
/// `current_ts`, which valid times rule out.
pub fn calculate_vested_amount(
    current_ts: i64,
    start_ts: i64,
    cliff_ts: i64,
    end_ts: i64,
    total_amount: u64,
) -> (vested: Result<u64, EconomyError>)
    ensures
        vested == vested_amount(current_ts, start_ts, cliff_ts, end_ts, total_amount),
        vested matches Ok(v) ==> v == vesting_curve(
            current_ts as int,
            start_ts as int,
            cliff_ts as int,
            end_ts as int,
            total_amount as nat,
        ) && v <= total_amount,
        valid_times(start_ts as int, cliff_ts as int, end_ts as int) ==> vested is Ok,
        current_ts < cliff_ts ==> vested == Ok::<u64, EconomyError>(0),
        valid_times(start_ts as int, cliff_ts as int, end_ts as int) && current_ts >= end_ts
            ==> vested == Ok::<u64, EconomyError>(total_amount),
{
    if current_ts < cliff_ts {
        return Ok(0);
    }
    if current_ts >= end_ts {
        return Ok(total_amount);
    }
    if current_ts < start_ts {
        return Err(EconomyError::ArithmeticError);
    }
    let duration: u128 = (end_ts as i128 - start_ts as i128) as u128;
    let elapsed: u128 = (current_ts as i128 - start_ts as i128) as u128;
    proof {
        assert(total_amount * elapsed <= 0xffff_ffff_ffff_ffff * 0xffff_ffff_ffff_ffff)
            by (nonlinear_arith)
            requires
                0 <= total_amount <= 0xffff_ffff_ffff_ffff,
                0 <= elapsed <= 0xffff_ffff_ffff_ffff,
        ;
        lemma_share_bounded(total_amount as int, elapsed as int, duration as int);
    }
    let share: u128 = (total_amount as u128) * elapsed / duration;
    Ok(share as u64)
}

/// One grant: `total_amount` of `mint` for `beneficiary`, unlocked linearly
/// between `cliff_ts` and `end_ts` on a line that starts at `start_ts`.
#[derive(Clone, Copy, Debug, PartialEq, Eq)]
pub struct VestingSchedule {
    /// Who created and funded the schedule.
    pub authority: Address,
    pub beneficiary: Address,
    pub mint: Address,
    pub total_amount: u64,
    pub start_ts: i64,
    pub cliff_ts: i64,
    pub end_ts: i64,
    /// What has been released so far; it only grows.
    pub released_amount: u64,
}

impl VestingSchedule {
    /// The times are in order and no more was released than was granted.
    pub open spec fn well_formed(self) -> bool {
        &&& valid_times(self.start_ts as int, self.cliff_ts as int, self.end_ts as int)
        &&& self.released_amount <= self.total_amount
    }

    /// The cumulative amount unlocked at `now`.
    pub open spec fn vested_at(self, now: int) -> nat {
        vesting_curve(
            now,
            self.start_ts as int,
            self.cliff_ts as int,
            self.end_ts as int,
            self.total_amount as nat,
        )
    }

    /// The record's invariant at `now`: what was released has vested, and
    /// what has vested was granted.
    pub open spec fn holds_at(self, now: int) -> bool {
        &&& self.well_formed()
        &&& self.released_amount <= self.vested_at(now) <= self.total_amount
    }

    /// What the schedule's vault still holds.
    pub open spec fn outstanding(self) -> int {
        self.total_amount - self.released_amount
    }
}

/// The accounts of [`create_vesting_schedule`].
#[derive(Clone, Copy, Debug, PartialEq, Eq)]
pub struct CreateVestingSchedule {
    /// The creator, who signs and funds.
    pub authority: Address,
    /// The address of the schedule's record.
    pub vesting_schedule: Address,
    /// The custody vault of this schedule.
    pub vesting_vault: Address,
    /// The token account that the funds come from.
    pub authority_token_account: Address,
    /// The asset that the vault holds.
    pub mint: Address,
}

/// The accounts of [`release_vested_tokens`].
#[derive(Clone, Copy, Debug, PartialEq, Eq)]
pub struct ReleaseVestedTokens {
    /// The address of the schedule's record.
    pub vesting_schedule: Address,
    /// The custody vault of this schedule.
    pub vesting_vault: Address,
    /// The beneficiary's token account, which the released tokens go to.
    pub beneficiary_token_account: TokenAccount,
}

/// What creating a schedule comes to, given the authority derived for its
/// vault: the new record and the transfer that funds the vault.
pub open spec fn creation_outcome(
    accounts: CreateVestingSchedule,
    vault_authority: Option<DerivedAuthority>,
    beneficiary: Address,
    mint: Address,
    total_amount: u64,
    start_ts: i64,
    cliff_ts: i64,
    end_ts: i64,
) -> Result<(VestingSchedule, TransferOrder), EconomyError> {
    if !valid_times(start_ts as int, cliff_ts as int, end_ts as int) || mint != accounts.mint {
        Err(EconomyError::InvalidSchedule)
    } else if !governs(
        vault_authority,
        SeedTag::VestingVault,
        accounts.vesting_schedule,
        accounts.vesting_vault,
    ) {
        Err(EconomyError::InvalidVault)
    } else {
        Ok(
            (
                VestingSchedule {
                    authority: accounts.authority,
                    beneficiary,
                    mint,
                    total_amount,
                    start_ts,
                    cliff_ts,
                    end_ts,
                    released_amount: 0,
                },
                TransferOrder::signed(
                    accounts.authority_token_account,
                    accounts.vesting_vault,
                    accounts.authority,
                    total_amount,
                ),
            ),
        )
    }
}

/// What a release at `now` comes to, given the authority derived for the
/// schedule's vault: the record with everything vested released, and the
/// transfer of the difference to the beneficiary's account.
pub open spec fn release_outcome(
    schedule: VestingSchedule,
    accounts: ReleaseVestedTokens,
    vault_authority: Option<DerivedAuthority>,
    now: i64,
) -> Result<(VestingSchedule, TransferOrder), EconomyError> {
    match vested_amount(
        now,
        schedule.start_ts,
        schedule.cliff_ts,
        schedule.end_ts,
        schedule.total_amount,
    ) {
        Err(e) => Err(e),
        Ok(vested) => if vested <= schedule.released_amount {
            Err(EconomyError::NoTokensToRelease)
        } else if !accounts.beneficiary_token_account.held_for(
            schedule.beneficiary,
            schedule.mint,
        ) {
            Err(EconomyError::InvalidTokenAccount)
        } else if !governs(
            vault_authority,
            SeedTag::VestingVault,
            accounts.vesting_schedule,
            accounts.vesting_vault,
        ) {
            Err(EconomyError::InvalidVault)
        } else {
            Ok(
                (
                    VestingSchedule { released_amount: vested, ..schedule },
                    TransferOrder::from_vault(
                        vault_authority.unwrap(),
                        accounts.beneficiary_token_account.address,
                        (vested - schedule.released_amount) as u64,
                    ),
                ),
            )
        },
    }
}

/// Creates a schedule with the vault authority already derived.
///
/// The times must be in order, `mint` must be the asset of the vault, and
/// `vault_authority` must govern the vault presented, scoped to this
/// schedule. Nothing is released yet, and the order returned moves
/// `total_amount` from the creator into the vault.
pub fn create_with_authority(
    accounts: &CreateVestingSchedule,
    vault_authority: Option<DerivedAuthority>,
    beneficiary: Address,
    mint: Address,
    total_amount: u64,
    start_ts: i64,
    cliff_ts: i64,
    end_ts: i64,
) -> (created: Result<(VestingSchedule, TransferOrder), EconomyError>)
    ensures
        created == creation_outcome(
            *accounts,
            vault_authority,
            beneficiary,
            mint,
            total_amount,
            start_ts,
            cliff_ts,
            end_ts,
        ),
        created matches Ok((schedule, funding)) ==> schedule.holds_at(start_ts as int)
            && schedule.outstanding() == funding.amount,
{
    if !(start_ts <= cliff_ts && cliff_ts <= end_ts) || mint != accounts.mint {
        return Err(EconomyError::InvalidSchedule);
    }
    if confirm(
        vault_authority,
        SeedTag::VestingVault,
        &accounts.vesting_schedule,
        &accounts.vesting_vault,
    ).is_none() {
        return Err(EconomyError::InvalidVault);
    }
    let schedule = VestingSchedule {
        authority: accounts.authority,
        beneficiary,
        mint,
        total_amount,
        start_ts,
        cliff_ts,
        end_ts,
        released_amount: 0,
    };
    let funding = TransferOrder::signed(
        accounts.authority_token_account,
        accounts.vesting_vault,
        accounts.authority,
        total_amount,
    );
    Ok((schedule, funding))
}

/// Creates a linear vesting schedule over `total_amount` of `mint` for
/// `beneficiary`, and orders the transfer that funds its vault.
pub fn create_vesting_schedule(
    accounts: &CreateVestingSchedule,
    program_id: &Address,
    beneficiary: Address,
    mint: Address,
    total_amount: u64,
    start_ts: i64,
    cliff_ts: i64,
    end_ts: i64,
) -> (created: Result<(VestingSchedule, TransferOrder), EconomyError>)
    ensures
        created == creation_outcome(
            *accounts,
            derived(SeedTag::VestingVault, accounts.vesting_schedule, *program_id),
            beneficiary,
            mint,
            total_amount,
            start_ts,
            cliff_ts,
            end_ts,
        ),
        !valid_times(start_ts as int, cliff_ts as int, end_ts as int) ==> created == Err::<
            (VestingSchedule, TransferOrder),
            EconomyError,
        >(EconomyError::InvalidSchedule),
{
    let vault_authority = derive_authority(
        SeedTag::VestingVault,
        &accounts.vesting_schedule,
        program_id,
    );
    create_with_authority(
        accounts,
        vault_authority,
        beneficiary,
        mint,
        total_amount,
        start_ts,
        cliff_ts,
        end_ts,
    )
}

/// Releases what has vested at `now`, with the vault authority already
/// derived.
///
/// The account presented must hold the schedule's asset on the beneficiary's
/// behalf. On success the schedule has released all that has vested, and the
/// order returned moves the newly released amount out of the vault to that
/// account. On an error the schedule is unchanged.
pub fn release_with_authority(
    schedule: &mut VestingSchedule,
    accounts: &ReleaseVestedTokens,
    vault_authority: Option<DerivedAuthority>,
    now: i64,
) -> (released: Result<TransferOrder, EconomyError>)
    ensures
        carried_out(
            release_outcome(*old(schedule), *accounts, vault_authority, now),
            *old(schedule),
            *final(schedule),
            released,
        ),
{
    let vested = match calculate_vested_amount(
        now,
        schedule.start_ts,
        schedule.cliff_ts,
        schedule.end_ts,
        schedule.total_amount,
    ) {
        Ok(vested) => vested,
        Err(e) => {
            return Err(e);
        },
    };
    if vested <= schedule.released_amount {
        return Err(EconomyError::NoTokensToRelease);
    }
    if !accounts.beneficiary_token_account.is_held_for(&schedule.beneficiary, &schedule.mint) {
        return Err(EconomyError::InvalidTokenAccount);
    }
    let authority = match confirm(
        vault_authority,
        SeedTag::VestingVault,
        &accounts.vesting_schedule,
        &accounts.vesting_vault,
    ) {
        Some(authority) => authority,
        None => {
            return Err(EconomyError::InvalidVault);
        },
    };
    let amount_to_release = vested - schedule.released_amount;
    let released_amount = match schedule.released_amount.checked_add(amount_to_release) {
        Some(sum) => sum,
        None => {
            return Err(EconomyError::ArithmeticError);
        },
    };
    schedule.released_amount = released_amount;
    Ok(
        TransferOrder::from_vault(
            authority,
            accounts.beneficiary_token_account.address,
            amount_to_release,
        ),
    )
}

/// Releases to the beneficiary what has vested at `now` and was not released
/// before.
pub fn release_vested_tokens(
    schedule: &mut VestingSchedule,
    accounts: &ReleaseVestedTokens,
    program_id: &Address,
    now: i64,
) -> (released: Result<TransferOrder, EconomyError>)
    ensures
        carried_out(
            release_outcome(
                *old(schedule),
                *accounts,
                derived(SeedTag::VestingVault, accounts.vesting_schedule, *program_id),
                now,
            ),
            *old(schedule),
            *final(schedule),
            released,
        ),
{
    let vault_authority = derive_authority(
        SeedTag::VestingVault,
        &accounts.vesting_schedule,
        program_id,
    );
    release_with_authority(schedule, accounts, vault_authority, now)
}

/// Vesting never runs backwards and never exceeds the grant: with valid
/// times, the curve at an earlier time is at most the curve at a later time,
/// which is at most the total.
pub proof fn lemma_vesting_monotonic(
    start_ts: int,
    cliff_ts: int,
    end_ts: int,
    total: nat,
    earlier: int,
    later: int,
)
    requires
        valid_times(start_ts, cliff_ts, end_ts),
        earlier <= later,
    ensures
        vesting_curve(earlier, start_ts, cliff_ts, end_ts, total) <= vesting_curve(
            later,
            start_ts,
            cliff_ts,
            end_ts,
            total,
        ) <= total,
{
    let duration = end_ts - start_ts;
    if cliff_ts <= earlier < end_ts {
        lemma_share_bounded(total as int, earlier - start_ts, duration);
    }
    if cliff_ts <= later < end_ts {
        lemma_share_bounded(total as int, later - start_ts, duration);
        if cliff_ts <= earlier {
            lemma_share_monotonic(total as int, earlier - start_ts, later - start_ts, duration);
        }
    }
}

/// Between cliff and end the curve is the exact share rounded down: it lags
/// the share `total * elapsed / duration` of the ideal line by less than one
/// unit.
pub proof fn lemma_vesting_rounds_down(
    start_ts: int,
    cliff_ts: int,
    end_ts: int,
    total: nat,
    now: int,
)
    requires
        valid_times(start_ts, cliff_ts, end_ts),
        cliff_ts <= now < end_ts,
    ensures
        vesting_curve(now, start_ts, cliff_ts, end_ts, total) * (end_ts - start_ts) <= total * (now
            - start_ts),
        total * (now - start_ts) < (vesting_curve(now, start_ts, cliff_ts, end_ts, total) + 1) * (
        end_ts - start_ts),
{
    let duration = end_ts - start_ts;
    let product = total * (now - start_ts);
    lemma_fundamental_div_mod(product, duration);
    let share = product / duration;
    assert(share * duration == duration * share) by (nonlinear_arith);
    assert((share + 1) * duration == duration * share + duration) by (nonlinear_arith);
}

/// Before the cliff nothing has vested, and from the end on everything has.
pub proof fn lemma_vesting_boundaries(
    start_ts: int,
    cliff_ts: int,
    end_ts: int,
    total: nat,
    now: int,
)
    requires
        valid_times(start_ts, cliff_ts, end_ts),
    ensures
        curve_defined(now, start_ts, cliff_ts, end_ts),
        now < cliff_ts ==> vesting_curve(now, start_ts, cliff_ts, end_ts, total) == 0,
        now >= end_ts ==> vesting_curve(now, start_ts, cliff_ts, end_ts, total) == total,
{
}

/// A schedule whose invariant holds at some time keeps it at every later
/// time, whatever happens in between short of a release.
pub proof fn lemma_invariant_persists(schedule: VestingSchedule, earlier: int, later: int)
    requires
        schedule.holds_at(earlier),
        earlier <= later,
    ensures
        schedule.holds_at(later),
{
    lemma_vesting_monotonic(
        schedule.start_ts as int,
        schedule.cliff_ts as int,
        schedule.end_ts as int,
        schedule.total_amount as nat,
        earlier,
        later,
    );
}

/// A release keeps the schedule's invariant, only ever raises what was
/// released, and takes out of the vault exactly what it adds to the released
/// amount. Nothing else in the record changes.
pub proof fn lemma_release_keeps_invariant(
    schedule: VestingSchedule,
    accounts: ReleaseVestedTokens,
    vault_authority: Option<DerivedAuthority>,
    now: i64,
)
    requires
        schedule.well_formed(),
    ensures
        release_outcome(schedule, accounts, vault_authority, now) matches Ok((next, order)) ==> {
            &&& next.holds_at(now as int)
            &&& next.released_amount == schedule.released_amount + order.amount
            &&& next.released_amount == schedule.vested_at(now as int)
            &&& order.amount > 0
            &&& next.outstanding() == schedule.outstanding() - order.amount
            &&& next == VestingSchedule { released_amount: next.released_amount, ..schedule }
            &&& order == TransferOrder::from_vault(
                vault_authority.unwrap(),
                accounts.beneficiary_token_account.address,
                order.amount,
            )
            &&& order.from == accounts.vesting_vault
            &&& accounts.beneficiary_token_account.owner == schedule.beneficiary
        },
{
    lemma_vesting_monotonic(
        schedule.start_ts as int,
        schedule.cliff_ts as int,
        schedule.end_ts as int,
        schedule.total_amount as nat,
        now as int,
        now as int,
    );
}

/// A second release at the same time releases nothing: after a release that
/// succeeded, another one at the same `now` ends in `NoTokensToRelease`.
pub proof fn lemma_release_twice(
    schedule: VestingSchedule,
    accounts: ReleaseVestedTokens,
    vault_authority: Option<DerivedAuthority>,
    second_authority: Option<DerivedAuthority>,
    now: i64,
)
    ensures
        release_outcome(schedule, accounts, vault_authority, now) matches Ok((next, order))
            ==> release_outcome(next, accounts, second_authority, now) == Err::<
            (VestingSchedule, TransferOrder),
            EconomyError,
        >(EconomyError::NoTokensToRelease),
{
}

/// From the end on, one release releases all that is left: the released
/// amount becomes exactly the total, and every later release ends in
/// `NoTokensToRelease`. A release succeeds there exactly if something is
/// left, the account presented is the beneficiary's and the vault authority
/// is the right one.
pub proof fn lemma_release_after_end(
    schedule: VestingSchedule,
    accounts: ReleaseVestedTokens,
    vault_authority: Option<DerivedAuthority>,
    now: i64,
    later_authority: Option<DerivedAuthority>,
    later: i64,
)
    requires
        schedule.well_formed(),
        schedule.end_ts <= now <= later,
    ensures
        release_outcome(schedule, accounts, vault_authority, now) is Ok <==> (
        schedule.released_amount < schedule.total_amount
            && accounts.beneficiary_token_account.held_for(schedule.beneficiary, schedule.mint)
            && governs(
            vault_authority,
            SeedTag::VestingVault,
            accounts.vesting_schedule,
            accounts.vesting_vault,
        )),
        schedule.released_amount == schedule.total_amount ==> release_outcome(
            schedule,
            accounts,
            vault_authority,
            now,
        ) == Err::<(VestingSchedule, TransferOrder), EconomyError>(
            EconomyError::NoTokensToRelease,
        ),
        release_outcome(schedule, accounts, vault_authority, now) matches Ok((next, order)) ==> {
            &&& next.released_amount == schedule.total_amount
            &&& order.amount == schedule.total_amount - schedule.released_amount
            &&& release_outcome(next, accounts, later_authority, later) == Err::<
                (VestingSchedule, TransferOrder),
                EconomyError,
            >(EconomyError::NoTokensToRelease)
        },
{
}

} // verus!

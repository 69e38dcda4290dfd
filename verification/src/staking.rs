//! The staking ledger: deposits into a pooled custody vault, tracked in one
//! stake account per depositor.

use crate::authority::{
    confirm, derive_authority, derived, governs, Address, DerivedAuthority, SeedTag,
};
use crate::error::EconomyError;
use crate::transfer::{carried_out, TransferOrder};
use vstd::prelude::*;

verus! {

/// What one depositor has in the pool.
#[derive(Clone, Copy, Debug, PartialEq, Eq)]
pub struct StakeAccount {
    pub owner: Address,
    pub balance: u64,
    /// When the owner last staked.
    pub last_staked_ts: i64,
}

impl StakeAccount {
    /// The record of a depositor who has not staked yet.
    pub open spec fn vacant_for(owner: Address) -> Self {
        StakeAccount { owner, balance: 0, last_staked_ts: 0 }
    }

    /// A fresh record for `owner`, with nothing staked.
    pub fn vacant(owner: Address) -> (account: Self)
        ensures
            account == Self::vacant_for(owner),
    {
        StakeAccount { owner, balance: 0, last_staked_ts: 0 }
    }
}

/// The accounts of [`stake`].
#[derive(Clone, Copy, Debug, PartialEq, Eq)]
pub struct Stake {
    /// The depositor, who signs.
    pub user: Address,
    /// The token account that the stake comes from.
    pub user_token_account: Address,
    /// The pooled custody vault of the staked asset.
    pub staking_vault: Address,
    /// The staked asset.
    pub stake_mint: Address,
}

/// The accounts of [`unstake`].
#[derive(Clone, Copy, Debug, PartialEq, Eq)]
pub struct Unstake {
    /// The depositor, who signs.
    pub user: Address,
    /// The token account that the stake returns to.
    pub user_token_account: Address,
    /// The pooled custody vault of the staked asset.
    pub staking_vault: Address,
    /// The staked asset.
    pub stake_mint: Address,
}

/// Whether `user` may stake into `account`: the record is the user's own, or
/// it holds nothing and so can become the user's.
pub open spec fn may_stake(account: StakeAccount, user: Address) -> bool {
    account.owner == user || account.balance == 0
}

/// What staking `amount` at `now` comes to, given the authority derived for
/// the pool's vault: the caller's record with the amount added, and the
/// transfer of the amount into the vault, signed by the caller.
pub open spec fn stake_outcome(
    account: StakeAccount,
    accounts: Stake,
    vault_authority: Option<DerivedAuthority>,
    amount: u64,
    now: i64,
) -> Result<(StakeAccount, TransferOrder), EconomyError> {
    if !may_stake(account, accounts.user) {
        Err(EconomyError::Unauthorized)
    } else if !governs(
        vault_authority,
        SeedTag::StakingVault,
        accounts.stake_mint,
        accounts.staking_vault,
    ) {
        Err(EconomyError::InvalidVault)
    } else if account.balance + amount > u64::MAX {
        Err(EconomyError::ArithmeticError)
    } else {
        Ok(
            (
                StakeAccount {
                    owner: accounts.user,
                    balance: (account.balance + amount) as u64,
                    last_staked_ts: now,
                },
                TransferOrder::signed(
                    accounts.user_token_account,
                    accounts.staking_vault,
                    accounts.user,
                    amount,
                ),
            ),
        )
    }
}

/// What unstaking `amount` comes to, given the authority derived for the
/// pool's vault: the owner's record with the amount taken off, and the
/// transfer of the amount out of the vault.
pub open spec fn unstake_outcome(
    account: StakeAccount,
    accounts: Unstake,
    vault_authority: Option<DerivedAuthority>,
    amount: u64,
) -> Result<(StakeAccount, TransferOrder), EconomyError> {
    if account.owner != accounts.user {
        Err(EconomyError::Unauthorized)
    } else if account.balance < amount {
        Err(EconomyError::InsufficientStake)
    } else if !governs(
        vault_authority,
        SeedTag::StakingVault,
        accounts.stake_mint,
        accounts.staking_vault,
    ) {
        Err(EconomyError::InvalidVault)
    } else {
        Ok(
            (
                StakeAccount { balance: (account.balance - amount) as u64, ..account },
                TransferOrder::from_vault(
                    vault_authority.unwrap(),
                    accounts.user_token_account,
                    amount,
                ),
            ),
        )
    }
}

/// Stakes `amount` with the vault authority already derived.
///
/// The record must be the caller's own or hold nothing. On success it belongs
/// to the caller, its balance has grown by `amount` and it remembers `now`;
/// the order returned moves `amount` from the caller into the vault. On an
/// error the record is unchanged.
pub fn stake_with_authority(
    stake_account: &mut StakeAccount,
    accounts: &Stake,
    vault_authority: Option<DerivedAuthority>,
    amount: u64,
    now: i64,
) -> (staked: Result<TransferOrder, EconomyError>)
    ensures
        carried_out(
            stake_outcome(*old(stake_account), *accounts, vault_authority, amount, now),
            *old(stake_account),
            *final(stake_account),
            staked,
        ),
{
    if stake_account.owner != accounts.user && stake_account.balance != 0 {
        return Err(EconomyError::Unauthorized);
    }
    if confirm(
        vault_authority,
        SeedTag::StakingVault,
        &accounts.stake_mint,
        &accounts.staking_vault,
    ).is_none() {
        return Err(EconomyError::InvalidVault);
    }
    let balance = match stake_account.balance.checked_add(amount) {
        Some(balance) => balance,
        None => {
            return Err(EconomyError::ArithmeticError);
        },
    };
    stake_account.owner = accounts.user;
    stake_account.balance = balance;
    stake_account.last_staked_ts = now;
    Ok(
        TransferOrder::signed(
            accounts.user_token_account,
            accounts.staking_vault,
            accounts.user,
            amount,
        ),
    )
}

/// Stakes `amount` of the caller's tokens at `now`.
pub fn stake(
    stake_account: &mut StakeAccount,
    accounts: &Stake,
    program_id: &Address,
    amount: u64,
    now: i64,
) -> (staked: Result<TransferOrder, EconomyError>)
    ensures
        carried_out(
            stake_outcome(
                *old(stake_account),
                *accounts,
                derived(SeedTag::StakingVault, accounts.stake_mint, *program_id),
                amount,
                now,
            ),
            *old(stake_account),
            *final(stake_account),
            staked,
        ),
{
    let vault_authority = derive_authority(
        SeedTag::StakingVault,
        &accounts.stake_mint,
        program_id,
    );
    stake_with_authority(stake_account, accounts, vault_authority, amount, now)
}

/// Unstakes `amount` with the vault authority already derived.
///
/// Only the record's owner may unstake, and no more than the balance. On
/// success the balance has shrunk by `amount`, and the order returned moves
/// `amount` out of the vault to the owner. On an error the record is
/// unchanged.
pub fn unstake_with_authority(
    stake_account: &mut StakeAccount,
    accounts: &Unstake,
    vault_authority: Option<DerivedAuthority>,
    amount: u64,
) -> (unstaked: Result<TransferOrder, EconomyError>)
    ensures
        carried_out(
            unstake_outcome(*old(stake_account), *accounts, vault_authority, amount),
            *old(stake_account),
            *final(stake_account),
            unstaked,
        ),
        old(stake_account).owner == accounts.user && amount > old(stake_account).balance ==> {
            &&& unstaked == Err::<TransferOrder, EconomyError>(EconomyError::InsufficientStake)
            &&& *final(stake_account) == *old(stake_account)
        },
{
    if stake_account.owner != accounts.user {
        return Err(EconomyError::Unauthorized);
    }
    if stake_account.balance < amount {
        return Err(EconomyError::InsufficientStake);
    }
    let authority = match confirm(
        vault_authority,
        SeedTag::StakingVault,
        &accounts.stake_mint,
        &accounts.staking_vault,
    ) {
        Some(authority) => authority,
        None => {
            return Err(EconomyError::InvalidVault);
        },
    };
    let balance = match stake_account.balance.checked_sub(amount) {
        Some(balance) => balance,
        None => {
            return Err(EconomyError::ArithmeticError);
        },
    };
    stake_account.balance = balance;
    Ok(TransferOrder::from_vault(authority, accounts.user_token_account, amount))
}

/// Returns `amount` of the caller's stake.
pub fn unstake(
    stake_account: &mut StakeAccount,
    accounts: &Unstake,
    program_id: &Address,
    amount: u64,
) -> (unstaked: Result<TransferOrder, EconomyError>)
    ensures
        carried_out(
            unstake_outcome(
                *old(stake_account),
                *accounts,
                derived(SeedTag::StakingVault, accounts.stake_mint, *program_id),
                amount,
            ),
            *old(stake_account),
            *final(stake_account),
            unstaked,
        ),
        old(stake_account).owner == accounts.user && amount > old(stake_account).balance ==> {
            &&& unstaked == Err::<TransferOrder, EconomyError>(EconomyError::InsufficientStake)
            &&& *final(stake_account) == *old(stake_account)
        },
{
    let vault_authority = derive_authority(
        SeedTag::StakingVault,
        &accounts.stake_mint,
        program_id,
    );
    unstake_with_authority(stake_account, accounts, vault_authority, amount)
}

/// One call on a stake record, with the accounts of whoever makes it.
#[derive(Clone, Copy, Debug, PartialEq, Eq)]
pub enum StakingCall {
    Stake { accounts: Stake, vault_authority: Option<DerivedAuthority>, amount: u64, now: i64 },
    Unstake { accounts: Unstake, vault_authority: Option<DerivedAuthority>, amount: u64 },
}

impl StakingCall {
    /// Who makes the call.
    pub open spec fn caller(self) -> Address {
        match self {
            StakingCall::Stake { accounts, .. } => accounts.user,
            StakingCall::Unstake { accounts, .. } => accounts.user,
        }
    }
}

/// What one call on `account` comes to.
pub open spec fn call_outcome(account: StakeAccount, call: StakingCall) -> Result<
    (StakeAccount, TransferOrder),
    EconomyError,
> {
    match call {
        StakingCall::Stake { accounts, vault_authority, amount, now } => stake_outcome(
            account,
            accounts,
            vault_authority,
            amount,
            now,
        ),
        StakingCall::Unstake { accounts, vault_authority, amount } => unstake_outcome(
            account,
            accounts,
            vault_authority,
            amount,
        ),
    }
}

/// What a call deposits: the amount of a stake that went through, minus the
/// amount of an unstake that went through, and nothing for a call that failed.
pub open spec fn deposit_of(account: StakeAccount, call: StakingCall) -> int {
    match call_outcome(account, call) {
        Ok((_, order)) => match call {
            StakingCall::Stake { .. } => order.amount as int,
            StakingCall::Unstake { .. } => -(order.amount as int),
        },
        Err(_) => 0,
    }
}

/// The record after a sequence of calls, each failed call leaving it as it
/// was.
pub open spec fn account_after(account: StakeAccount, calls: Seq<StakingCall>) -> StakeAccount
    decreases calls.len(),
{
    if calls.len() == 0 {
        account
    } else {
        let before = account_after(account, calls.drop_last());
        match call_outcome(before, calls.last()) {
            Ok((next, _)) => next,
            Err(_) => before,
        }
    }
}

/// What `user` has in `account`: its balance if the record is the user's,
/// and nothing otherwise.
pub open spec fn stake_of(user: Address, account: StakeAccount) -> int {
    if account.owner == user {
        account.balance as int
    } else {
        0
    }
}

/// The net deposits that `user` makes in a sequence of calls on `account`:
/// what the user's calls deposit, the calls of others left out.
pub open spec fn deposits_by(user: Address, account: StakeAccount, calls: Seq<StakingCall>) -> int
    decreases calls.len(),
{
    if calls.len() == 0 {
        0
    } else {
        let before = account_after(account, calls.drop_last());
        deposits_by(user, account, calls.drop_last()) + if calls.last().caller() == user {
            deposit_of(before, calls.last())
        } else {
            0
        }
    }
}

/// A call that goes through orders the transfer of exactly its amount: into
/// the vault for a stake, out of it for an unstake. The balance moves by that
/// amount, and the record changes hands only when it holds nothing.
pub proof fn lemma_call_moves_its_amount(account: StakeAccount, call: StakingCall)
    ensures
        call_outcome(account, call) matches Ok((next, order)) ==> {
            &&& next.balance == account.balance + deposit_of(account, call)
            &&& next.owner == call.caller()
            &&& next.owner != account.owner ==> account.balance == 0
            &&& call matches StakingCall::Stake { accounts, vault_authority, amount, now } ==> {
                &&& order == TransferOrder::signed(
                    accounts.user_token_account,
                    accounts.staking_vault,
                    accounts.user,
                    amount,
                )
                &&& next.last_staked_ts == now
            }
            &&& call matches StakingCall::Unstake { accounts, vault_authority, amount } ==> {
                &&& order == TransferOrder::from_vault(
                    vault_authority.unwrap(),
                    accounts.user_token_account,
                    amount,
                )
                &&& order.from == accounts.staking_vault
                &&& next.last_staked_ts == account.last_staked_ts
            }
        },
{
}

/// Staking conserves, whoever calls: after any sequence of calls on a
/// record, what a user has in it is what the user had before plus the net
/// deposits of the user's own calls. So a balance never exceeds what its
/// owner put in, and never falls below zero.
pub proof fn lemma_staking_conserves(user: Address, account: StakeAccount, calls: Seq<StakingCall>)
    ensures
        stake_of(user, account_after(account, calls)) == stake_of(user, account) + deposits_by(
            user,
            account,
            calls,
        ),
        stake_of(user, account) + deposits_by(user, account, calls) >= 0,
    decreases calls.len(),
{
    if calls.len() > 0 {
        lemma_staking_conserves(user, account, calls.drop_last());
        lemma_call_moves_its_amount(account_after(account, calls.drop_last()), calls.last());
    }
}

/// For the calls of one depositor on the depositor's own record, the balance
/// is what it was plus the net deposits; from a vacant record on, it is
/// exactly the net deposits. The record stays the depositor's.
pub proof fn lemma_one_depositor_conserves(
    user: Address,
    account: StakeAccount,
    calls: Seq<StakingCall>,
)
    requires
        account.owner == user,
        forall|i: int| 0 <= i < calls.len() ==> (#[trigger] calls[i]).caller() == user,
    ensures
        account_after(account, calls).owner == user,
        account_after(account, calls).balance == account.balance + deposits_by(
            user,
            account,
            calls,
        ),
        account == StakeAccount::vacant_for(user) ==> account_after(account, calls).balance
            == deposits_by(user, account, calls),
    decreases calls.len(),
{
    if calls.len() > 0 {
        lemma_one_depositor_conserves(user, account, calls.drop_last());
        lemma_call_moves_its_amount(account_after(account, calls.drop_last()), calls.last());
    }
    lemma_staking_conserves(user, account, calls);
}

} // verus!

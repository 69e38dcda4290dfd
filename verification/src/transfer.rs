//! Transfer orders: what an operation asks the ledger's transfer primitive to
//! carry out. The ledger performs the orders of one operation within one
//! atomic unit; where it declines one, the whole unit is discarded, the record
//! written by the operation included: see [`settle`].

use crate::authority::{Address, DerivedAuthority};
use vstd::prelude::*;

verus! {

/// A token account as the ledger shows it.
#[derive(Clone, Copy, Debug, PartialEq, Eq)]
pub struct TokenAccount {
    pub address: Address,
    /// The asset that the account holds.
    pub mint: Address,
    /// On whose behalf it holds it.
    pub owner: Address,
    pub amount: u64,
}

impl TokenAccount {
    /// Whether the account holds the asset `mint` on behalf of `owner`.
    pub open spec fn held_for(self, owner: Address, mint: Address) -> bool {
        self.owner == owner && self.mint == mint
    }

    /// Whether the account holds the asset `mint` on behalf of `owner`.
    pub fn is_held_for(&self, owner: &Address, mint: &Address) -> (held: bool)
        ensures
            held == self.held_for(*owner, *mint),
    {
        self.owner == *owner && self.mint == *mint
    }
}

/// Who authorizes a transfer.
#[derive(Clone, Copy, Debug, PartialEq, Eq)]
pub enum Authorizer {
    /// The caller's own signature.
    Signer(Address),
    /// The program itself, by re-asserting a derivation.
    Derived(DerivedAuthority),
}

/// What a transfer moves.
#[derive(Clone, Copy, Debug, PartialEq, Eq, Structural)]
pub enum Asset {
    /// Units of a token, moved between token accounts.
    Token,
    /// The ledger's native currency, moved between wallets.
    Native,
}

/// One movement of `amount` units from `from` to `to`.
#[derive(Clone, Copy, Debug, PartialEq, Eq)]
pub struct TransferOrder {
    pub asset: Asset,
    pub from: Address,
    pub to: Address,
    pub authorizer: Authorizer,
    pub amount: u64,
}

impl TransferOrder {
    /// A token transfer that `signer` signs for.
    pub open spec fn signed_order(
        from: Address,
        to: Address,
        signer: Address,
        amount: u64,
    ) -> Self {
        TransferOrder {
            asset: Asset::Token,
            from,
            to,
            authorizer: Authorizer::Signer(signer),
            amount,
        }
    }

    /// A token transfer out of the vault that `authority` governs.
    pub open spec fn vault_order(authority: DerivedAuthority, to: Address, amount: u64) -> Self {
        TransferOrder {
            asset: Asset::Token,
            from: authority.address,
            to,
            authorizer: Authorizer::Derived(authority),
            amount,
        }
    }

    /// A payment in native currency out of the wallet `payer`.
    pub open spec fn payment_order(payer: Address, to: Address, amount: u64) -> Self {
        TransferOrder {
            asset: Asset::Native,
            from: payer,
            to,
            authorizer: Authorizer::Signer(payer),
            amount,
        }
    }

    /// Orders a token transfer that `signer` signs for.
    #[verifier::when_used_as_spec(signed_order)]
    pub fn signed(from: Address, to: Address, signer: Address, amount: u64) -> (order: Self)
        ensures
            order == Self::signed_order(from, to, signer, amount),
    {
        TransferOrder {
            asset: Asset::Token,
            from,
            to,
            authorizer: Authorizer::Signer(signer),
            amount,
        }
    }

    /// Orders a token transfer out of the vault that `authority` governs.
    #[verifier::when_used_as_spec(vault_order)]
    pub fn from_vault(authority: DerivedAuthority, to: Address, amount: u64) -> (order: Self)
        ensures
            order == Self::vault_order(authority, to, amount),
    {
        TransferOrder {
            asset: Asset::Token,
            from: authority.address,
            to,
            authorizer: Authorizer::Derived(authority),
            amount,
        }
    }

    /// Orders a payment in native currency out of the wallet `payer`.
    #[verifier::when_used_as_spec(payment_order)]
    pub fn payment(payer: Address, to: Address, amount: u64) -> (order: Self)
        ensures
            order == Self::payment_order(payer, to, amount),
    {
        TransferOrder {
            asset: Asset::Native,
            from: payer,
            to,
            authorizer: Authorizer::Signer(payer),
            amount,
        }
    }
}

/// Whether an operation did what `outcome` says: on success the record is the
/// next one and the action is returned; on an error the record is as it was.
pub open spec fn carried_out<S, A, E>(
    outcome: Result<(S, A), E>,
    before: S,
    after: S,
    returned: Result<A, E>,
) -> bool {
    match outcome {
        Ok((next, action)) => after == next && returned == Ok::<A, E>(action),
        Err(e) => after == before && returned == Err::<A, E>(e),
    }
}

/// Closes the atomic unit of one operation once the ledger has answered its
/// orders. Where the ledger carried them all out, the record stays as the
/// operation left it. Where it declined one, the record goes back to `before`,
/// what it was when the operation began, and the ledger's error is handed on
/// as it came.
pub fn settle<S, E>(record: &mut S, before: S, answer: Result<(), E>) -> (settled: Result<(), E>)
    ensures
        settled == answer,
        answer is Ok ==> *final(record) == *old(record),
        answer is Err ==> *final(record) == before,
{
    if answer.is_err() {
        *record = before;
    }
    answer
}

} // verus!

//! Derived authorities: keyless addresses that only the owning program can
//! sign for, computed from a seed tag, a discriminating key and the program's
//! identity.
//!
//! No private key exists for a derived address. The program authorizes a
//! transfer out of it by presenting the same seeds again, together with the
//! bump that the derivation found.

use anchor_lang::prelude::Pubkey;
use vstd::prelude::*;

verus! {

/// A 32-byte account address.
#[derive(Clone, Copy, Debug)]
pub struct Address {
    pub bytes: [u8; 32],
}

impl PartialEq for Address {
    fn eq(&self, other: &Self) -> (same: bool) {
        let mut i: usize = 0;
        while i < 32
            invariant
                i <= 32,
                forall|j: int| 0 <= j < i ==> self.bytes@[j] == other.bytes@[j],
            decreases 32 - i,
        {
            if self.bytes[i] != other.bytes[i] {
                return false;
            }
            i += 1;
        }
        assert(self.bytes =~= other.bytes);
        true
    }
}

impl vstd::std_specs::cmp::PartialEqSpecImpl for Address {
    open spec fn obeys_eq_spec() -> bool {
        true
    }

    open spec fn eq_spec(&self, other: &Self) -> bool {
        self.bytes == other.bytes
    }
}

impl Eq for Address {

}

/// The address that holds the given bytes.
pub open spec fn address_of(bytes: [u8; 32]) -> Address {
    Address { bytes }
}

/// The purpose a derived authority serves; each purpose has its own seed.
#[derive(Clone, Copy, Debug, PartialEq, Eq, Structural)]
pub enum SeedTag {
    /// Custody of one vesting schedule; discriminated by the schedule's address.
    VestingVault,
    /// Pooled custody of stakes; discriminated by the staked asset.
    StakingVault,
    /// Custody of one listed asset; discriminated by the asset instance.
    Escrow,
}

impl SeedTag {
    /// The seed text of this tag.
    pub open spec fn text(self) -> Seq<char> {
        match self {
            SeedTag::VestingVault => "vesting-vault"@,
            SeedTag::StakingVault => "staking-vault"@,
            SeedTag::Escrow => "escrow"@,
        }
    }

    pub fn as_str(&self) -> (text: &'static str)
        ensures
            text@ == self.text(),
    {
        match self {
            SeedTag::VestingVault => "vesting-vault",
            SeedTag::StakingVault => "staking-vault",
            SeedTag::Escrow => "escrow",
        }
    }
}

/// The capability to move funds out of a custody vault: the vault's address
/// and the seeds and bump that re-assert its derivation.
#[derive(Clone, Copy, Debug, PartialEq, Eq)]
pub struct DerivedAuthority {
    pub address: Address,
    pub tag: SeedTag,
    pub discriminator: Address,
    pub bump: u8,
}

/// What `Pubkey::try_find_program_address` yields for the seeds `tag` (as
/// UTF-8 bytes) and `discriminator` under the program `program_id`: the
/// derived address's bytes and the bump seed, or `None` where a seed is too
/// long or no bump gives an address off the curve.
pub uninterp spec fn program_address(
    tag: Seq<char>,
    discriminator: Seq<u8>,
    program_id: Seq<u8>,
) -> Option<([u8; 32], u8)>;

/// The derived authority for `tag` and `discriminator` under `program_id`,
/// if there is one.
pub open spec fn derived(
    tag: SeedTag,
    discriminator: Address,
    program_id: Address,
) -> Option<DerivedAuthority> {
    assembled(
        tag,
        discriminator,
        located(program_address(tag.text(), discriminator.bytes@, program_id.bytes@)),
    )
}

/// The outcome of a derivation, with the address bytes as an `Address`.
pub open spec fn located(found: Option<([u8; 32], u8)>) -> Option<(Address, u8)> {
    match found {
        Some((bytes, bump)) => Some((address_of(bytes), bump)),
        None => None,
    }
}

/// The capability made of a derivation's outcome and the seeds it was made from.
pub open spec fn assembled(
    tag: SeedTag,
    discriminator: Address,
    found: Option<(Address, u8)>,
) -> Option<DerivedAuthority> {
    match found {
        Some((address, bump)) => Some(DerivedAuthority { address, tag, discriminator, bump }),
        None => None,
    }
}

/// Calls `Pubkey::try_find_program_address` with the seeds `tag` (its UTF-8
/// bytes) and `discriminator`, under the program `program_id`. The contract
/// only gives the result its name: the same seeds and program always derive
/// the same address and bump. The call does not panic: seeds that are too
/// many or too long give `None`.
#[verifier::external_body]
fn try_find_program_address(
    tag: &str,
    discriminator: &Address,
    program_id: &Address,
) -> (found: Option<(Address, u8)>)
    ensures
        found == located(program_address(tag@, discriminator.bytes@, program_id.bytes@)),
{
    let program = Pubkey::new_from_array(program_id.bytes);
    Pubkey::try_find_program_address(&[tag.as_bytes(), &discriminator.bytes], &program).map(
        |(address, bump)| (Address { bytes: address.to_bytes() }, bump),
    )
}

/// Packs a derivation's outcome with the seeds it was made from.
pub fn assemble(
    tag: SeedTag,
    discriminator: &Address,
    found: Option<(Address, u8)>,
) -> (authority: Option<DerivedAuthority>)
    ensures
        authority == assembled(tag, *discriminator, found),
{
    match found {
        Some((address, bump)) => Some(
            DerivedAuthority { address, tag, discriminator: *discriminator, bump },
        ),
        None => None,
    }
}

/// Derives the authority for `seed_tag` and `discriminator` that only the
/// program `program_identity` can sign for.
pub fn derive_authority(
    seed_tag: SeedTag,
    discriminator: &Address,
    program_identity: &Address,
) -> (authority: Option<DerivedAuthority>)
    ensures
        authority == derived(seed_tag, *discriminator, *program_identity),
{
    let found = try_find_program_address(seed_tag.as_str(), discriminator, program_identity);
    assemble(seed_tag, discriminator, found)
}

/// Whether `authority` is the capability for the vault at `vault`, scoped to
/// `tag` and `discriminator`.
pub open spec fn governs(
    authority: Option<DerivedAuthority>,
    tag: SeedTag,
    discriminator: Address,
    vault: Address,
) -> bool {
    authority matches Some(a) && a.tag == tag && a.discriminator == discriminator && a.address
        == vault
}

/// Re-validates a capability before it is used: it is confirmed only if it
/// is scoped to `tag` and `discriminator` and its address is the vault
/// presented.
pub fn confirm(
    authority: Option<DerivedAuthority>,
    tag: SeedTag,
    discriminator: &Address,
    vault: &Address,
) -> (confirmed: Option<DerivedAuthority>)
    ensures
        governs(authority, tag, *discriminator, *vault) ==> confirmed == authority,
        !governs(authority, tag, *discriminator, *vault) ==> confirmed.is_none(),
{
    match authority {
        Some(a) => if a.tag == tag && a.discriminator == *discriminator && a.address == *vault {
            Some(a)
        } else {
            None
        },
        None => None,
    }
}

} // verus!

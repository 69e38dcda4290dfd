//! The marketplace escrow: a unique asset is held in custody while it is
//! listed, and a sale pays the seller and the fee recipient and hands the
//! asset to the buyer, all in one atomic unit.

use crate::authority::{
    confirm, derive_authority, derived, governs, Address, DerivedAuthority, SeedTag,
};
use crate::error::MarketplaceError;
use crate::transfer::{carried_out, TokenAccount, TransferOrder};
use vstd::prelude::*;

verus! {

/// The fee that stands for the whole price: 10000 basis points.
pub const FEE_DENOMINATOR: u16 = 10000;

/// The marketplace's settings; there is one such record.
#[derive(Clone, Copy, Debug, PartialEq, Eq)]
pub struct MarketplaceState {
    /// Who receives the fees.
    pub authority: Address,
    /// The fee in basis points of the price.
    pub fee: u16,
}

impl MarketplaceState {
    /// The fee is at most the whole price.
    pub open spec fn well_formed(self) -> bool {
        self.fee <= FEE_DENOMINATOR
    }
}

/// One listed asset instance.
#[derive(Clone, Copy, Debug, PartialEq, Eq)]
pub struct Listing {
    pub seller: Address,
    /// The asset instance.
    pub mint: Address,
    pub price: u64,
    /// Whether the asset's unit is in escrow, waiting for a buyer.
    pub is_listed: bool,
}

impl Listing {
    /// The units of the asset that the escrow vault holds for this listing.
    pub open spec fn escrowed_units(self) -> nat {
        if self.is_listed {
            1
        } else {
            0
        }
    }
}

/// The accounts of [`initialize_marketplace`].
#[derive(Clone, Copy, Debug, PartialEq, Eq)]
pub struct InitializeMarketplace {
    /// Who initializes the marketplace, and receives its fees from then on.
    pub authority: Address,
}

/// The accounts of [`list_nft`].
#[derive(Clone, Copy, Debug, PartialEq, Eq)]
pub struct ListNft {
    /// The seller, who signs.
    pub seller: Address,
    /// The token account that holds the seller's unit of the asset.
    pub seller_token_account: TokenAccount,
    /// The asset instance.
    pub nft_mint: Address,
    /// The escrow vault of this asset.
    pub escrow_token_account: Address,
}

/// The accounts of [`delist_nft`].
#[derive(Clone, Copy, Debug, PartialEq, Eq)]
pub struct DelistNft {
    /// The caller, who signs.
    pub seller: Address,
    /// The token account that the asset returns to.
    pub seller_token_account: Address,
    /// The escrow vault of the listed asset.
    pub escrow_token_account: Address,
}

/// The accounts of [`buy_nft`].
#[derive(Clone, Copy, Debug, PartialEq, Eq)]
pub struct BuyNft {
    /// The buyer, who signs and pays.
    pub buyer: Address,
    /// The token account that the asset goes to.
    pub buyer_token_account: Address,
    /// The escrow vault of the listed asset.
    pub escrow_token_account: Address,
}

/// The transfers of one sale, in the order in which they are carried out.
#[derive(Clone, Copy, Debug, PartialEq, Eq)]
pub struct Purchase {
    /// The price, from the buyer to the seller.
    pub payment: TransferOrder,
    /// The fee, from the buyer to the fee recipient, on top of the price;
    /// none where the fee is zero.
    pub fee: Option<TransferOrder>,
    /// The asset's unit, out of escrow to the buyer.
    pub delivery: TransferOrder,
}

impl Purchase {
    /// What the buyer pays in all: the price and the fee.
    pub open spec fn outlay(self) -> int {
        self.payment.amount + match self.fee {
            Some(fee) => fee.amount as int,
            None => 0,
        }
    }

    /// What the buyer pays in all.
    pub fn total_outlay(&self) -> (total: u128)
        ensures
            total == self.outlay(),
    {
        let fee: u64 = match self.fee {
            Some(fee) => fee.amount,
            None => 0,
        };
        self.payment.amount as u128 + fee as u128
    }
}

/// The fee on `price` at `fee_bps` basis points, rounded down.
pub open spec fn fee_for(price: u64, fee_bps: u16) -> nat {
    (price as nat * fee_bps as nat) / (FEE_DENOMINATOR as nat)
}

/// A fee of at most 10000 basis points is at most the price.
pub proof fn lemma_fee_within_price(price: u64, fee_bps: u16)
    requires
        fee_bps <= FEE_DENOMINATOR,
    ensures
        fee_for(price, fee_bps) <= price,
{
    assert(price as nat * fee_bps as nat <= price as nat * 10000) by (nonlinear_arith)
        requires
            fee_bps <= 10000,
    ;
}

/// The fee on `price` at `fee_bps` basis points, computed in a wider type.
///
/// [`MarketplaceError::ArithmeticError`] where the fee does not fit the
/// amount type, which a fee of at most 10000 basis points rules out.
pub fn compute_fee(price: u64, fee_bps: u16) -> (fee: Result<u64, MarketplaceError>)
    ensures
        fee_for(price, fee_bps) <= u64::MAX ==> fee == Ok::<u64, MarketplaceError>(
            fee_for(price, fee_bps) as u64,
        ),
        fee_for(price, fee_bps) > u64::MAX ==> fee == Err::<u64, MarketplaceError>(
            MarketplaceError::ArithmeticError,
        ),
        fee_bps <= FEE_DENOMINATOR ==> fee is Ok,
{
    proof {
        assert(price as nat * fee_bps as nat <= 0xffff_ffff_ffff_ffff * 0xffff) by (nonlinear_arith)
            requires
                price <= 0xffff_ffff_ffff_ffff,
                fee_bps <= 0xffff,
        ;
        if fee_bps <= FEE_DENOMINATOR {
            lemma_fee_within_price(price, fee_bps);
        }
    }
    let fee: u128 = price as u128 * fee_bps as u128 / FEE_DENOMINATOR as u128;
    if fee > u64::MAX as u128 {
        Err(MarketplaceError::ArithmeticError)
    } else {
        Ok(fee as u64)
    }
}

/// Sets the marketplace up with `fee` basis points, to be paid to the caller.
///
/// [`MarketplaceError::InvalidFee`] exactly if `fee` exceeds 10000.
pub fn initialize_marketplace(accounts: &InitializeMarketplace, fee: u16) -> (initialized: Result<
    MarketplaceState,
    MarketplaceError,
>)
    ensures
        fee <= FEE_DENOMINATOR ==> initialized == Ok::<MarketplaceState, MarketplaceError>(
            MarketplaceState { authority: accounts.authority, fee },
        ),
        fee > FEE_DENOMINATOR ==> initialized == Err::<MarketplaceState, MarketplaceError>(
            MarketplaceError::InvalidFee,
        ),
        initialized matches Ok(state) ==> state.well_formed(),
{
    if fee > FEE_DENOMINATOR {
        return Err(MarketplaceError::InvalidFee);
    }
    Ok(MarketplaceState { authority: accounts.authority, fee })
}

/// Whether the seller's token account holds exactly one unit of the asset on
/// the seller's behalf.
pub open spec fn holds_the_unit(accounts: ListNft) -> bool {
    &&& accounts.seller_token_account.held_for(accounts.seller, accounts.nft_mint)
    &&& accounts.seller_token_account.amount == 1
}

/// What listing at `price` comes to, given the authority derived for the
/// asset's escrow: the listing's record, and the transfer of the unit from
/// the seller into escrow.
pub open spec fn list_outcome(
    accounts: ListNft,
    escrow_authority: Option<DerivedAuthority>,
    price: u64,
) -> Result<(Listing, TransferOrder), MarketplaceError> {
    if !holds_the_unit(accounts) {
        Err(MarketplaceError::InvalidTokenAccount)
    } else if !governs(
        escrow_authority,
        SeedTag::Escrow,
        accounts.nft_mint,
        accounts.escrow_token_account,
    ) {
        Err(MarketplaceError::InvalidEscrow)
    } else {
        Ok(
            (
                Listing {
                    seller: accounts.seller,
                    mint: accounts.nft_mint,
                    price,
                    is_listed: true,
                },
                TransferOrder::signed(
                    accounts.seller_token_account.address,
                    accounts.escrow_token_account,
                    accounts.seller,
                    1,
                ),
            ),
        )
    }
}

/// What delisting comes to, given the authority derived for the asset's
/// escrow: the listing no longer listed, and the transfer of the unit out of
/// escrow back to the seller.
pub open spec fn delist_outcome(
    listing: Listing,
    accounts: DelistNft,
    escrow_authority: Option<DerivedAuthority>,
) -> Result<(Listing, TransferOrder), MarketplaceError> {
    if listing.seller != accounts.seller {
        Err(MarketplaceError::Unauthorized)
    } else if !governs(
        escrow_authority,
        SeedTag::Escrow,
        listing.mint,
        accounts.escrow_token_account,
    ) {
        Err(MarketplaceError::InvalidEscrow)
    } else {
        Ok(
            (
                Listing { is_listed: false, ..listing },
                TransferOrder::from_vault(
                    escrow_authority.unwrap(),
                    accounts.seller_token_account,
                    1,
                ),
            ),
        )
    }
}

/// What buying comes to, given the authority derived for the asset's escrow:
/// the listing no longer listed, and the sale's transfers. The buyer pays the
/// price to the seller and, on top of it, the fee to the fee recipient.
pub open spec fn buy_outcome(
    listing: Listing,
    marketplace: MarketplaceState,
    accounts: BuyNft,
    escrow_authority: Option<DerivedAuthority>,
) -> Result<(Listing, Purchase), MarketplaceError> {
    if !listing.is_listed {
        Err(MarketplaceError::NotListed)
    } else if listing.price == 0 {
        Err(MarketplaceError::InvalidPrice)
    } else if fee_for(listing.price, marketplace.fee) > u64::MAX {
        Err(MarketplaceError::ArithmeticError)
    } else if !governs(
        escrow_authority,
        SeedTag::Escrow,
        listing.mint,
        accounts.escrow_token_account,
    ) {
        Err(MarketplaceError::InvalidEscrow)
    } else {
        let fee = fee_for(listing.price, marketplace.fee) as u64;
        Ok(
            (
                Listing { is_listed: false, ..listing },
                Purchase {
                    payment: TransferOrder::payment(accounts.buyer, listing.seller, listing.price),
                    fee: if fee > 0 {
                        Some(TransferOrder::payment(accounts.buyer, marketplace.authority, fee))
                    } else {
                        None
                    },
                    delivery: TransferOrder::from_vault(
                        escrow_authority.unwrap(),
                        accounts.buyer_token_account,
                        1,
                    ),
                },
            ),
        )
    }
}

/// Lists the asset at `price`, with the escrow authority already derived.
///
/// The seller's token account must hold exactly one unit of the asset on the
/// seller's behalf, and `escrow_authority` must govern the escrow vault
/// presented, scoped to this asset. The order returned moves the unit from
/// the seller into escrow.
pub fn list_with_authority(
    accounts: &ListNft,
    escrow_authority: Option<DerivedAuthority>,
    price: u64,
) -> (listed: Result<(Listing, TransferOrder), MarketplaceError>)
    ensures
        listed == list_outcome(*accounts, escrow_authority, price),
{
    let held = &accounts.seller_token_account;
    if !(held.is_held_for(&accounts.seller, &accounts.nft_mint) && held.amount == 1) {
        return Err(MarketplaceError::InvalidTokenAccount);
    }
    if confirm(
        escrow_authority,
        SeedTag::Escrow,
        &accounts.nft_mint,
        &accounts.escrow_token_account,
    ).is_none() {
        return Err(MarketplaceError::InvalidEscrow);
    }
    let listing = Listing {
        seller: accounts.seller,
        mint: accounts.nft_mint,
        price,
        is_listed: true,
    };
    let deposit = TransferOrder::signed(
        held.address,
        accounts.escrow_token_account,
        accounts.seller,
        1,
    );
    Ok((listing, deposit))
}

/// Lists the seller's asset at `price` and orders its transfer into escrow.
pub fn list_nft(accounts: &ListNft, program_id: &Address, price: u64) -> (listed: Result<
    (Listing, TransferOrder),
    MarketplaceError,
>)
    ensures
        listed == list_outcome(
            *accounts,
            derived(SeedTag::Escrow, accounts.nft_mint, *program_id),
            price,
        ),
{
    let escrow_authority = derive_authority(SeedTag::Escrow, &accounts.nft_mint, program_id);
    list_with_authority(accounts, escrow_authority, price)
}

/// Delists the asset, with the escrow authority already derived.
///
/// Only the listing's seller may delist. On success the listing is no longer
/// listed, and the order returned moves the unit out of escrow back to the
/// seller. On an error the listing is unchanged.
pub fn delist_with_authority(
    listing: &mut Listing,
    accounts: &DelistNft,
    escrow_authority: Option<DerivedAuthority>,
) -> (delisted: Result<TransferOrder, MarketplaceError>)
    ensures
        carried_out(
            delist_outcome(*old(listing), *accounts, escrow_authority),
            *old(listing),
            *final(listing),
            delisted,
        ),
        old(listing).seller != accounts.seller ==> {
            &&& delisted == Err::<TransferOrder, MarketplaceError>(MarketplaceError::Unauthorized)
            &&& *final(listing) == *old(listing)
        },
{
    if listing.seller != accounts.seller {
        return Err(MarketplaceError::Unauthorized);
    }
    let authority = match confirm(
        escrow_authority,
        SeedTag::Escrow,
        &listing.mint,
        &accounts.escrow_token_account,
    ) {
        Some(authority) => authority,
        None => {
            return Err(MarketplaceError::InvalidEscrow);
        },
    };
    listing.is_listed = false;
    Ok(TransferOrder::from_vault(authority, accounts.seller_token_account, 1))
}

/// Takes the asset off the market and orders its return to the seller.
pub fn delist_nft(listing: &mut Listing, accounts: &DelistNft, program_id: &Address) -> (delisted:
    Result<TransferOrder, MarketplaceError>)
    ensures
        carried_out(
            delist_outcome(
                *old(listing),
                *accounts,
                derived(SeedTag::Escrow, old(listing).mint, *program_id),
            ),
            *old(listing),
            *final(listing),
            delisted,
        ),
        old(listing).seller != accounts.seller ==> {
            &&& delisted == Err::<TransferOrder, MarketplaceError>(MarketplaceError::Unauthorized)
            &&& *final(listing) == *old(listing)
        },
{
    let escrow_authority = derive_authority(SeedTag::Escrow, &listing.mint, program_id);
    delist_with_authority(listing, accounts, escrow_authority)
}

/// Buys the listed asset, with the escrow authority already derived.
///
/// The asset must be listed at a price above zero. On success the listing is
/// no longer listed, and the purchase returned pays the price to the seller,
/// the fee on top of it to the fee recipient, and hands the unit out of
/// escrow to the buyer. On an error the listing is unchanged.
pub fn buy_with_authority(
    listing: &mut Listing,
    marketplace: &MarketplaceState,
    accounts: &BuyNft,
    escrow_authority: Option<DerivedAuthority>,
) -> (bought: Result<Purchase, MarketplaceError>)
    ensures
        carried_out(
            buy_outcome(*old(listing), *marketplace, *accounts, escrow_authority),
            *old(listing),
            *final(listing),
            bought,
        ),
        !old(listing).is_listed ==> bought == Err::<Purchase, MarketplaceError>(
            MarketplaceError::NotListed,
        ),
{
    if !listing.is_listed {
        return Err(MarketplaceError::NotListed);
    }
    if listing.price == 0 {
        return Err(MarketplaceError::InvalidPrice);
    }
    let price = listing.price;
    let fee_amount = match compute_fee(price, marketplace.fee) {
        Ok(fee_amount) => fee_amount,
        Err(e) => {
            return Err(e);
        },
    };
    let authority = match confirm(
        escrow_authority,
        SeedTag::Escrow,
        &listing.mint,
        &accounts.escrow_token_account,
    ) {
        Some(authority) => authority,
        None => {
            return Err(MarketplaceError::InvalidEscrow);
        },
    };
    let payment = TransferOrder::payment(accounts.buyer, listing.seller, price);
    let fee = if fee_amount > 0 {
        Some(
            TransferOrder::payment(accounts.buyer, marketplace.authority, fee_amount),
        )
    } else {
        None
    };
    let delivery = TransferOrder::from_vault(authority, accounts.buyer_token_account, 1);
    listing.is_listed = false;
    Ok(Purchase { payment, fee, delivery })
}

/// Buys the listed asset: orders the payment, the fee and the asset's
/// delivery, and takes the asset off the market.
pub fn buy_nft(
    listing: &mut Listing,
    marketplace: &MarketplaceState,
    accounts: &BuyNft,
    program_id: &Address,
) -> (bought: Result<Purchase, MarketplaceError>)
    ensures
        carried_out(
            buy_outcome(
                *old(listing),
                *marketplace,
                *accounts,
                derived(SeedTag::Escrow, old(listing).mint, *program_id),
            ),
            *old(listing),
            *final(listing),
            bought,
        ),
        !old(listing).is_listed ==> bought == Err::<Purchase, MarketplaceError>(
            MarketplaceError::NotListed,
        ),
{
    let escrow_authority = derive_authority(SeedTag::Escrow, &listing.mint, program_id);
    buy_with_authority(listing, marketplace, accounts, escrow_authority)
}

/// A sale charges the buyer the price and, on top of it, the fee: the payment
/// is the price and goes to the seller, the fee goes to the fee recipient and
/// is ordered exactly if it is above zero, and the buyer's outlay is their
/// sum. Exactly one unit leaves escrow for the buyer.
pub proof fn lemma_purchase_charges_price_and_fee(
    listing: Listing,
    marketplace: MarketplaceState,
    accounts: BuyNft,
    escrow_authority: Option<DerivedAuthority>,
)
    ensures
        buy_outcome(listing, marketplace, accounts, escrow_authority) matches Ok(
            (next, purchase),
        ) ==> {
            &&& purchase.payment == TransferOrder::payment(
                accounts.buyer,
                listing.seller,
                listing.price,
            )
            &&& purchase.fee is Some <==> fee_for(listing.price, marketplace.fee) > 0
            &&& purchase.fee matches Some(fee) ==> fee == TransferOrder::payment(
                accounts.buyer,
                marketplace.authority,
                fee_for(listing.price, marketplace.fee) as u64,
            )
            &&& purchase.outlay() == listing.price + fee_for(listing.price, marketplace.fee)
            &&& purchase.delivery.amount == 1
            &&& purchase.delivery.from == accounts.escrow_token_account
            &&& purchase.delivery.to == accounts.buyer_token_account
            &&& next == Listing { is_listed: false, ..listing }
        },
        marketplace.well_formed() ==> buy_outcome(listing, marketplace, accounts, escrow_authority)
            != Err::<(Listing, Purchase), MarketplaceError>(MarketplaceError::ArithmeticError),
{
    if marketplace.well_formed() {
        lemma_fee_within_price(listing.price, marketplace.fee);
    }
}

/// An asset is sold once: after a sale that went through, every further
/// attempt to buy it ends in `NotListed`, whoever makes it.
pub proof fn lemma_sold_once(
    listing: Listing,
    marketplace: MarketplaceState,
    accounts: BuyNft,
    escrow_authority: Option<DerivedAuthority>,
    later_marketplace: MarketplaceState,
    later_accounts: BuyNft,
    later_authority: Option<DerivedAuthority>,
)
    ensures
        buy_outcome(listing, marketplace, accounts, escrow_authority) matches Ok((next, _))
            ==> buy_outcome(next, later_marketplace, later_accounts, later_authority) == Err::<
            (Listing, Purchase),
            MarketplaceError,
        >(MarketplaceError::NotListed),
{
}

/// Only the seller delists: for any other caller the attempt ends in
/// `Unauthorized`, whatever the listing's state.
pub proof fn lemma_only_seller_delists(
    listing: Listing,
    accounts: DelistNft,
    escrow_authority: Option<DerivedAuthority>,
)
    requires
        listing.seller != accounts.seller,
    ensures
        delist_outcome(listing, accounts, escrow_authority) == Err::<
            (Listing, TransferOrder),
            MarketplaceError,
        >(MarketplaceError::Unauthorized),
{
}

/// The escrow follows the listing: listing moves one unit into the escrow
/// vault and marks the asset listed; delisting and buying move one unit out
/// of it and mark the asset not listed.
pub proof fn lemma_escrow_follows_listing(
    list_accounts: ListNft,
    price: u64,
    listing: Listing,
    delist_accounts: DelistNft,
    marketplace: MarketplaceState,
    buy_accounts: BuyNft,
    escrow_authority: Option<DerivedAuthority>,
)
    ensures
        list_outcome(list_accounts, escrow_authority, price) matches Ok((listed, deposit)) ==> {
            &&& listed.escrowed_units() == 1
            &&& deposit.amount == 1
            &&& deposit.to == list_accounts.escrow_token_account
            &&& deposit.to == escrow_authority.unwrap().address
        },
        delist_outcome(listing, delist_accounts, escrow_authority) matches Ok((delisted, refund))
            ==> {
            &&& delisted.escrowed_units() == 0
            &&& refund.amount == 1
            &&& refund.from == delist_accounts.escrow_token_account
        },
        buy_outcome(listing, marketplace, buy_accounts, escrow_authority) matches Ok(
            (sold, purchase),
        ) ==> {
            &&& listing.escrowed_units() == 1
            &&& sold.escrowed_units() == 0
            &&& purchase.delivery.amount == 1
            &&& purchase.delivery.from == buy_accounts.escrow_token_account
        },
{
}

} // verus!

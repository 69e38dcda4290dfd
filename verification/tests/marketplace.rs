use token_custody::authority::{derive_authority, Address, DerivedAuthority, SeedTag};
use token_custody::error::MarketplaceError;
use token_custody::marketplace::{
    buy_nft, buy_with_authority, compute_fee, delist_nft, delist_with_authority,
    initialize_marketplace, list_nft, list_with_authority, BuyNft, DelistNft,
    InitializeMarketplace, ListNft, Listing, MarketplaceState, Purchase,
    FEE_DENOMINATOR,
};
use token_custody::transfer::{Asset, Authorizer, TokenAccount, TransferOrder};

fn who(n: u8) -> Address {
    Address { bytes: [n; 32] }
}

fn escrow_authority() -> DerivedAuthority {
    DerivedAuthority { address: who(20), tag: SeedTag::Escrow, discriminator: who(3), bump: 252 }
}

fn listing(price: u64, is_listed: bool) -> Listing {
    Listing { seller: who(1), mint: who(3), price, is_listed }
}

fn marketplace(fee: u16) -> MarketplaceState {
    MarketplaceState { authority: who(9), fee }
}

fn list_accounts() -> ListNft {
    ListNft {
        seller: who(1),
        seller_token_account: TokenAccount {
            address: who(40),
            mint: who(3),
            owner: who(1),
            amount: 1,
        },
        nft_mint: who(3),
        escrow_token_account: who(20),
    }
}

fn delist_accounts() -> DelistNft {
    DelistNft { seller: who(1), seller_token_account: who(40), escrow_token_account: who(20) }
}

fn buy_accounts() -> BuyNft {
    BuyNft { buyer: who(2), buyer_token_account: who(50), escrow_token_account: who(20) }
}

#[test]
fn fee_denominator_is_ten_thousand() {
    assert_eq!(FEE_DENOMINATOR, 10000);
}

#[test]
fn fee_is_the_rounded_down_share() {
    assert_eq!(compute_fee(1000, 250), Ok(25));
    assert_eq!(compute_fee(999, 250), Ok(24));
    assert_eq!(compute_fee(39, 250), Ok(0));
    assert_eq!(compute_fee(40, 250), Ok(1));
    assert_eq!(compute_fee(1000, 0), Ok(0));
    assert_eq!(compute_fee(1000, 10000), Ok(1000));
    assert_eq!(compute_fee(u64::MAX, 10000), Ok(u64::MAX));
    assert_eq!(compute_fee(u64::MAX, 1), Ok(u64::MAX / 10000));
}

#[test]
fn fee_beyond_the_amount_type_is_an_arithmetic_error() {
    assert_eq!(compute_fee(u64::MAX, 10001), Err(MarketplaceError::ArithmeticError));
    assert_eq!(compute_fee(u64::MAX, u16::MAX), Err(MarketplaceError::ArithmeticError));
    assert_eq!(compute_fee(1000, u16::MAX), Ok(6553));
}

#[test]
fn initialize_sets_recipient_and_fee() {
    let accounts = InitializeMarketplace { authority: who(9) };
    assert_eq!(initialize_marketplace(&accounts, 250), Ok(marketplace(250)));
    assert_eq!(initialize_marketplace(&accounts, 0), Ok(marketplace(0)));
    assert_eq!(initialize_marketplace(&accounts, 10000), Ok(marketplace(10000)));
}

#[test]
fn initialize_rejects_a_fee_above_the_whole_price() {
    let accounts = InitializeMarketplace { authority: who(9) };
    assert_eq!(initialize_marketplace(&accounts, 10001), Err(MarketplaceError::InvalidFee));
    assert_eq!(initialize_marketplace(&accounts, u16::MAX), Err(MarketplaceError::InvalidFee));
}

#[test]
fn list_escrows_the_unit() {
    let (listed, deposit) =
        list_with_authority(&list_accounts(), Some(escrow_authority()), 1000).unwrap();
    assert_eq!(listed, listing(1000, true));
    assert_eq!(
        deposit,
        TransferOrder {
            asset: Asset::Token,
            from: who(40),
            to: who(20),
            authorizer: Authorizer::Signer(who(1)),
            amount: 1,
        }
    );
}

#[test]
fn list_accepts_any_price() {
    let authority = Some(escrow_authority());
    assert_eq!(list_with_authority(&list_accounts(), authority, 0).unwrap().0.price, 0);
    assert_eq!(
        list_with_authority(&list_accounts(), authority, u64::MAX).unwrap().0.price,
        u64::MAX
    );
}

#[test]
fn list_needs_exactly_one_unit_of_the_asset_held_by_the_seller() {
    let authority = Some(escrow_authority());
    let mut none_held = list_accounts();
    none_held.seller_token_account.amount = 0;
    assert_eq!(
        list_with_authority(&none_held, authority, 5),
        Err(MarketplaceError::InvalidTokenAccount)
    );
    let mut two_held = list_accounts();
    two_held.seller_token_account.amount = 2;
    assert_eq!(
        list_with_authority(&two_held, authority, 5),
        Err(MarketplaceError::InvalidTokenAccount)
    );
    let mut other_asset = list_accounts();
    other_asset.seller_token_account.mint = who(4);
    assert_eq!(
        list_with_authority(&other_asset, authority, 5),
        Err(MarketplaceError::InvalidTokenAccount)
    );
    let mut other_owner = list_accounts();
    other_owner.seller_token_account.owner = who(2);
    assert_eq!(
        list_with_authority(&other_owner, authority, 5),
        Err(MarketplaceError::InvalidTokenAccount)
    );
}

#[test]
fn list_rejects_an_escrow_that_was_not_derived() {
    let mut elsewhere = escrow_authority();
    elsewhere.address = who(21);
    assert_eq!(
        list_with_authority(&list_accounts(), Some(elsewhere), 5),
        Err(MarketplaceError::InvalidEscrow)
    );
    assert_eq!(
        list_with_authority(&list_accounts(), None, 5),
        Err(MarketplaceError::InvalidEscrow)
    );
}

#[test]
fn delist_returns_the_unit_to_the_seller() {
    let mut record = listing(1000, true);
    let refund =
        delist_with_authority(&mut record, &delist_accounts(), Some(escrow_authority())).unwrap();
    assert_eq!(record, listing(1000, false));
    assert_eq!(
        refund,
        TransferOrder {
            asset: Asset::Token,
            from: who(20),
            to: who(40),
            authorizer: Authorizer::Derived(escrow_authority()),
            amount: 1,
        }
    );
}

#[test]
fn delist_by_a_stranger_is_unauthorized() {
    let mut record = listing(1000, true);
    let mut accounts = delist_accounts();
    accounts.seller = who(2);
    assert_eq!(
        delist_with_authority(&mut record, &accounts, Some(escrow_authority())),
        Err(MarketplaceError::Unauthorized)
    );
    assert_eq!(record, listing(1000, true));
}

#[test]
fn delist_rejects_an_escrow_that_was_not_derived() {
    let mut record = listing(1000, true);
    let mut other_asset = escrow_authority();
    other_asset.discriminator = who(4);
    assert_eq!(
        delist_with_authority(&mut record, &delist_accounts(), Some(other_asset)),
        Err(MarketplaceError::InvalidEscrow)
    );
    assert_eq!(record, listing(1000, true));
}

#[test]
fn buy_charges_the_price_plus_the_fee() {
    let mut record = listing(1000, true);
    let purchase = buy_with_authority(
        &mut record,
        &marketplace(250),
        &buy_accounts(),
        Some(escrow_authority()),
    )
    .unwrap();
    assert_eq!(record, listing(1000, false));
    assert_eq!(
        purchase,
        Purchase {
            payment: TransferOrder {
                asset: Asset::Native,
                from: who(2),
                to: who(1),
                authorizer: Authorizer::Signer(who(2)),
                amount: 1000,
            },
            fee: Some(TransferOrder {
                asset: Asset::Native,
                from: who(2),
                to: who(9),
                authorizer: Authorizer::Signer(who(2)),
                amount: 25,
            }),
            delivery: TransferOrder {
                asset: Asset::Token,
                from: who(20),
                to: who(50),
                authorizer: Authorizer::Derived(escrow_authority()),
                amount: 1,
            },
        }
    );
    assert_eq!(purchase.total_outlay(), 1025);
}

#[test]
fn buy_orders_no_fee_transfer_for_a_zero_fee() {
    let mut record = listing(39, true);
    let purchase = buy_with_authority(
        &mut record,
        &marketplace(250),
        &buy_accounts(),
        Some(escrow_authority()),
    )
    .unwrap();
    assert_eq!(purchase.fee, None);
    assert_eq!(purchase.payment.amount, 39);
    assert_eq!(purchase.total_outlay(), 39);
}

#[test]
fn buy_outlay_can_exceed_the_amount_type() {
    let mut record = listing(u64::MAX, true);
    let purchase = buy_with_authority(
        &mut record,
        &marketplace(10000),
        &buy_accounts(),
        Some(escrow_authority()),
    )
    .unwrap();
    assert_eq!(purchase.total_outlay(), 2 * (u64::MAX as u128));
}

#[test]
fn second_buy_finds_the_asset_not_listed() {
    let mut record = listing(1000, true);
    let authority = Some(escrow_authority());
    assert!(buy_with_authority(&mut record, &marketplace(250), &buy_accounts(), authority).is_ok());
    let mut rival = buy_accounts();
    rival.buyer = who(6);
    rival.buyer_token_account = who(60);
    assert_eq!(
        buy_with_authority(&mut record, &marketplace(250), &rival, authority),
        Err(MarketplaceError::NotListed)
    );
    assert_eq!(record, listing(1000, false));
}

#[test]
fn buy_after_delist_finds_the_asset_not_listed() {
    let mut record = listing(1000, true);
    let authority = Some(escrow_authority());
    assert!(delist_with_authority(&mut record, &delist_accounts(), authority).is_ok());
    assert_eq!(
        buy_with_authority(&mut record, &marketplace(250), &buy_accounts(), authority),
        Err(MarketplaceError::NotListed)
    );
}

#[test]
fn buy_rejects_a_zero_price() {
    let mut record = listing(0, true);
    assert_eq!(
        buy_with_authority(
            &mut record,
            &marketplace(250),
            &buy_accounts(),
            Some(escrow_authority())
        ),
        Err(MarketplaceError::InvalidPrice)
    );
    assert_eq!(record, listing(0, true));
}

#[test]
fn buy_reports_a_fee_beyond_the_amount_type() {
    let mut record = listing(u64::MAX, true);
    assert_eq!(
        buy_with_authority(
            &mut record,
            &marketplace(20000),
            &buy_accounts(),
            Some(escrow_authority())
        ),
        Err(MarketplaceError::ArithmeticError)
    );
    assert_eq!(record, listing(u64::MAX, true));
}

#[test]
fn buy_rejects_an_escrow_that_was_not_derived() {
    let mut record = listing(1000, true);
    assert_eq!(
        buy_with_authority(&mut record, &marketplace(250), &buy_accounts(), None),
        Err(MarketplaceError::InvalidEscrow)
    );
    let mut accounts = buy_accounts();
    accounts.escrow_token_account = who(21);
    assert_eq!(
        buy_with_authority(&mut record, &marketplace(250), &accounts, Some(escrow_authority())),
        Err(MarketplaceError::InvalidEscrow)
    );
    assert_eq!(record, listing(1000, true));
}

#[test]
fn listing_life_cycle_through_the_derived_escrow() {
    let program = who(99);
    let derived = derive_authority(SeedTag::Escrow, &who(3), &program).unwrap();
    let mut accounts = list_accounts();
    assert_eq!(list_nft(&accounts, &program, 1000), Err(MarketplaceError::InvalidEscrow));
    accounts.escrow_token_account = derived.address;
    let (mut record, deposit) = list_nft(&accounts, &program, 1000).unwrap();
    assert!(record.is_listed);
    assert_eq!(deposit.to, derived.address);

    let mut buyer = buy_accounts();
    assert_eq!(
        buy_nft(&mut record, &marketplace(250), &buyer, &program),
        Err(MarketplaceError::InvalidEscrow)
    );
    buyer.escrow_token_account = derived.address;
    let purchase = buy_nft(&mut record, &marketplace(250), &buyer, &program).unwrap();
    assert_eq!(purchase.delivery.from, derived.address);
    assert_eq!(purchase.delivery.authorizer, Authorizer::Derived(derived));
    assert!(!record.is_listed);
    assert_eq!(
        buy_nft(&mut record, &marketplace(250), &buyer, &program),
        Err(MarketplaceError::NotListed)
    );
}

#[test]
fn delist_signs_with_the_derived_escrow() {
    let program = who(99);
    let derived = derive_authority(SeedTag::Escrow, &who(3), &program).unwrap();
    let mut record = listing(1000, true);
    let mut accounts = delist_accounts();
    assert_eq!(
        delist_nft(&mut record, &accounts, &program),
        Err(MarketplaceError::InvalidEscrow)
    );
    accounts.escrow_token_account = derived.address;
    let refund = delist_nft(&mut record, &accounts, &program).unwrap();
    assert_eq!(refund.from, derived.address);
    assert_eq!(refund.authorizer, Authorizer::Derived(derived));
    assert!(!record.is_listed);
    let mut stranger = accounts;
    stranger.seller = who(7);
    assert_eq!(
        delist_nft(&mut record, &stranger, &program),
        Err(MarketplaceError::Unauthorized)
    );
}

use stallion_nft::ledger::StallionNFT;
use stallion_nft::model::{Address, Error};

fn addr(id: u64) -> Address {
    Address { id }
}

const METADATA: &str =
    "https://ipfs.io/ipfs/bafkreibzw25uz3cxnpd4ditc2s7ngyea2hpq45s7psbs27dm3z6r57rzbe";
const IMAGE: &str =
    "https://ipfs.io/ipfs/bafybeichocyvocmrrixgunzlrcnj4u7sbg3cst54mp3e3begu4qiphe3jq";

#[test]
fn constants() {
    assert_eq!(StallionNFT::name(), "StallionNFT");
    assert_eq!(StallionNFT::symbol(), "SNFT");
    assert_eq!(StallionNFT::token_uri(), METADATA);
    assert_eq!(StallionNFT::token_image(), IMAGE);
}

#[test]
fn fresh_ledger_is_empty() {
    let ledger = StallionNFT::construct(addr(1));
    assert!(ledger.get_whitelist().is_empty());
    assert_eq!(ledger.owner_of(1), Address::zero());
    assert!(!ledger.is_approved(addr(2), 1));
    assert_eq!(ledger.get_token_image(1), Err(Error::TokenNotFound));
    assert_eq!(ledger.get_token_metadata(1), Err(Error::TokenNotFound));
    assert!(ledger.get_nft_by_address(addr(2)).is_none());
}

#[test]
fn whitelist_keeps_insertion_order() {
    let mut ledger = StallionNFT::construct(addr(1));
    assert_eq!(ledger.add_to_whitelist(addr(2)), Ok(()));
    assert_eq!(ledger.add_to_whitelist(addr(3)), Ok(()));
    assert_eq!(ledger.add_to_whitelist(addr(4)), Ok(()));
    assert_eq!(ledger.get_whitelist(), vec![addr(2), addr(3), addr(4)]);
}

#[test]
fn whitelist_rejects_duplicates() {
    let mut ledger = StallionNFT::construct(addr(1));
    assert_eq!(ledger.add_to_whitelist(addr(2)), Ok(()));
    assert_eq!(ledger.add_to_whitelist(addr(2)), Err(Error::AlreadyWhitelisted));
    assert_eq!(ledger.get_whitelist(), vec![addr(2)]);
}

#[test]
fn whitelist_removal_is_admin_gated() {
    let admin = addr(1);
    let mut ledger = StallionNFT::construct(admin);
    ledger.add_to_whitelist(addr(2)).unwrap();
    ledger.add_to_whitelist(addr(3)).unwrap();
    ledger.add_to_whitelist(addr(4)).unwrap();
    assert_eq!(
        ledger.remove_from_whitelist(addr(2), addr(3)),
        Err(Error::NotAuthorized)
    );
    assert_eq!(ledger.remove_from_whitelist(admin, addr(5)), Err(Error::NotWhitelisted));
    assert_eq!(ledger.remove_from_whitelist(admin, addr(3)), Ok(()));
    assert_eq!(ledger.get_whitelist(), vec![addr(2), addr(4)]);
    assert_eq!(ledger.remove_from_whitelist(admin, addr(3)), Err(Error::NotWhitelisted));
}

#[test]
fn mint_assigns_dense_ids() {
    let mut ledger = StallionNFT::construct(addr(1));
    for id in 2..5u64 {
        ledger.add_to_whitelist(addr(id)).unwrap();
    }
    assert_eq!(ledger.mint(addr(2)), Ok(1));
    assert_eq!(ledger.mint(addr(3)), Ok(2));
    assert_eq!(ledger.mint(addr(4)), Ok(3));
    assert_eq!(ledger.owner_of(1), addr(2));
    assert_eq!(ledger.owner_of(2), addr(3));
    assert_eq!(ledger.owner_of(3), addr(4));
    assert_eq!(ledger.owner_of(4), Address::zero());
}

#[test]
fn mint_requires_whitelisting() {
    let mut ledger = StallionNFT::construct(addr(1));
    assert_eq!(ledger.mint(addr(2)), Err(Error::NotWhitelisted));
    assert_eq!(ledger.owner_of(1), Address::zero());
}

#[test]
fn mint_at_most_once_per_address() {
    let mut ledger = StallionNFT::construct(addr(1));
    ledger.add_to_whitelist(addr(2)).unwrap();
    ledger.add_to_whitelist(addr(3)).unwrap();
    assert_eq!(ledger.mint(addr(2)), Ok(1));
    assert_eq!(ledger.mint(addr(2)), Err(Error::AlreadyMinted));
    assert_eq!(ledger.owner_of(1), addr(2));
    assert_eq!(ledger.mint(addr(3)), Ok(2));
}

#[test]
fn mint_stops_at_max_supply() {
    let mut ledger = StallionNFT::construct(addr(1));
    for id in 1..=2001u64 {
        ledger.add_to_whitelist(addr(id)).unwrap();
    }
    for id in 1..=2000u64 {
        assert_eq!(ledger.mint(addr(id)), Ok(id as i128));
    }
    assert_eq!(ledger.mint(addr(2001)), Err(Error::SupplyExhausted));
    assert_eq!(ledger.mint(addr(2001)), Err(Error::SupplyExhausted));
    assert_eq!(ledger.owner_of(2000), addr(2000));
    assert_eq!(ledger.owner_of(2001), Address::zero());
}

#[test]
fn approve_is_idempotent() {
    let mut ledger = StallionNFT::construct(addr(1));
    ledger.add_to_whitelist(addr(2)).unwrap();
    ledger.mint(addr(2)).unwrap();
    assert_eq!(ledger.approve(addr(2), addr(3), 1), Ok(true));
    assert_eq!(ledger.approve(addr(2), addr(3), 1), Ok(false));
    assert!(ledger.is_approved(addr(3), 1));
    assert!(!ledger.is_approved(addr(4), 1));
}

#[test]
fn approve_requires_ownership() {
    let mut ledger = StallionNFT::construct(addr(1));
    ledger.add_to_whitelist(addr(2)).unwrap();
    ledger.mint(addr(2)).unwrap();
    assert_eq!(ledger.approve(addr(3), addr(4), 1), Err(Error::NotTokenOwner));
    assert_eq!(ledger.approve(addr(2), addr(4), 7), Err(Error::NotTokenOwner));
    assert!(!ledger.is_approved(addr(4), 1));
}

#[test]
fn transfer_clears_all_approvals() {
    let mut ledger = StallionNFT::construct(addr(1));
    ledger.add_to_whitelist(addr(2)).unwrap();
    ledger.mint(addr(2)).unwrap();
    ledger.approve(addr(2), addr(3), 1).unwrap();
    ledger.approve(addr(2), addr(4), 1).unwrap();
    assert_eq!(ledger.transfer(addr(2), addr(5), 1), Ok(()));
    assert_eq!(ledger.owner_of(1), addr(5));
    assert!(!ledger.is_approved(addr(3), 1));
    assert!(!ledger.is_approved(addr(4), 1));
}

#[test]
fn transfer_requires_ownership() {
    let mut ledger = StallionNFT::construct(addr(1));
    ledger.add_to_whitelist(addr(2)).unwrap();
    ledger.mint(addr(2)).unwrap();
    assert_eq!(ledger.transfer(addr(3), addr(4), 1), Err(Error::NotTokenOwner));
    assert_eq!(ledger.owner_of(1), addr(2));
}

#[test]
fn transfer_from_moves_and_cannot_be_replayed() {
    let mut ledger = StallionNFT::construct(addr(1));
    ledger.add_to_whitelist(addr(2)).unwrap();
    ledger.mint(addr(2)).unwrap();
    ledger.approve(addr(2), addr(3), 1).unwrap();
    assert_eq!(ledger.transfer_from(addr(3), addr(2), addr(4), 1), Ok(()));
    assert_eq!(ledger.owner_of(1), addr(4));
    assert_eq!(
        ledger.transfer_from(addr(3), addr(2), addr(4), 1),
        Err(Error::FromNotOwner)
    );
}

#[test]
fn transfer_from_to_self_clears_approval() {
    let mut ledger = StallionNFT::construct(addr(1));
    ledger.add_to_whitelist(addr(2)).unwrap();
    ledger.mint(addr(2)).unwrap();
    ledger.approve(addr(2), addr(3), 1).unwrap();
    assert_eq!(ledger.transfer_from(addr(3), addr(2), addr(2), 1), Ok(()));
    assert_eq!(ledger.owner_of(1), addr(2));
    assert_eq!(
        ledger.transfer_from(addr(3), addr(2), addr(2), 1),
        Err(Error::SpenderNotApproved)
    );
}

#[test]
fn transfer_from_requires_owner_and_approval() {
    let mut ledger = StallionNFT::construct(addr(1));
    ledger.add_to_whitelist(addr(2)).unwrap();
    ledger.mint(addr(2)).unwrap();
    assert_eq!(
        ledger.transfer_from(addr(3), addr(5), addr(4), 1),
        Err(Error::FromNotOwner)
    );
    assert_eq!(
        ledger.transfer_from(addr(3), addr(2), addr(4), 1),
        Err(Error::SpenderNotApproved)
    );
    assert_eq!(ledger.owner_of(1), addr(2));
}

#[test]
fn whitelist_removal_precedes_mint_once_check() {
    let admin = addr(1);
    let b = addr(2);
    let mut ledger = StallionNFT::construct(admin);
    assert_eq!(ledger.add_to_whitelist(b), Ok(()));
    assert_eq!(ledger.mint(b), Ok(1));
    assert_eq!(ledger.owner_of(1), b);
    assert_eq!(ledger.remove_from_whitelist(admin, b), Ok(()));
    assert!(ledger.get_whitelist().is_empty());
    assert_eq!(ledger.mint(b), Err(Error::NotWhitelisted));
}

#[test]
fn record_lookup_by_address() {
    let mut ledger = StallionNFT::construct(addr(1));
    ledger.add_to_whitelist(addr(2)).unwrap();
    ledger.add_to_whitelist(addr(3)).unwrap();
    ledger.mint(addr(2)).unwrap();
    ledger.mint(addr(3)).unwrap();
    let record = ledger.get_nft_by_address(addr(3)).unwrap();
    assert_eq!(record.address, addr(3));
    assert_eq!(record.token_id, 2);
    assert_eq!(record.metadata, METADATA);
    assert_eq!(record.image, IMAGE);
    assert!(ledger.get_nft_by_address(addr(4)).is_none());
    // The record keeps the mint target, not the current owner.
    ledger.transfer(addr(3), addr(4), 2).unwrap();
    let record = ledger.get_nft_by_address(addr(3)).unwrap();
    assert_eq!(record.token_id, 2);
    assert!(ledger.get_nft_by_address(addr(4)).is_none());
}

#[test]
fn token_uris_after_mint() {
    let mut ledger = StallionNFT::construct(addr(1));
    ledger.add_to_whitelist(addr(2)).unwrap();
    ledger.mint(addr(2)).unwrap();
    assert_eq!(ledger.get_token_image(1), Ok(IMAGE.to_string()));
    assert_eq!(ledger.get_token_metadata(1), Ok(METADATA.to_string()));
    assert_eq!(ledger.get_token_image(2), Err(Error::TokenNotFound));
}

use std::collections::HashMap;

use pallet_site::{Balance, Error, Event, Pallet, Site, TransferError};

fn bytes(s: &str) -> Vec<u8> {
    s.as_bytes().to_vec()
}

fn test_site() -> Site {
    Site::new(bytes("test"), bytes("test"))
}

/// A pallet in which account 100 has created the record 0.
fn with_one_site() -> Pallet {
    let mut p = Pallet::new();
    assert_eq!(p.create(100, bytes("test"), bytes("test")), Ok(0));
    p
}

/// A stand-in currency ledger that refuses to leave the payer below `minimum`.
struct Ledger {
    free: HashMap<u64, Balance>,
    minimum: Balance,
}

impl Ledger {
    fn balance(&self, who: u64) -> Balance {
        *self.free.get(&who).unwrap_or(&0)
    }

    fn transfer(&mut self, from: u64, to: u64, amount: Balance) -> Result<(), TransferError> {
        let have = self.balance(from);
        if have < amount {
            return Err(TransferError::InsufficientFunds);
        }
        if have - amount < self.minimum {
            return Err(TransferError::BelowMinimum);
        }
        self.free.insert(from, have - amount);
        let got = self.balance(to);
        self.free.insert(to, got + amount);
        Ok(())
    }
}

/// Runs a purchase the way a host does: ask the price, pay it, settle.
fn purchase(p: &mut Pallet, ledger: &mut Ledger, buyer: u64, owner: u64, id: u32, max_price: Balance) -> Result<(), Error> {
    let price = p.sale_price(buyer, owner, id, max_price)?;
    let paid = ledger.transfer(buyer, owner, price);
    p.buy(buyer, owner, id, max_price, paid)
}

#[test]
fn can_create() {
    let p = with_one_site();
    let site = test_site();
    assert_eq!(p.sites(100, 0), Some(site.clone()));
    assert_eq!(p.next_site_id(), 1);
    assert_eq!(p.events().last(), Some(&Event::SiteCreated(100, 0, site)));
}

#[test]
fn can_transfer() {
    let mut p = with_one_site();
    assert_eq!(p.transfer(100, 200, 0), Ok(()));
    assert_eq!(p.events().last(), Some(&Event::SiteTransferred(100, 200, 0)));
    assert_eq!(p.sites(100, 0), None);
    assert_eq!(p.sites(200, 0), Some(test_site()));
}

#[test]
fn can_set_listing() {
    let mut p = with_one_site();
    let events_before = p.events().len();
    assert_eq!(p.listing(200, 0, Some(10)), Err(Error::NotOwner));
    assert_eq!(p.site_prices(0), None);
    assert_eq!(p.events().len(), events_before);

    assert_eq!(p.listing(100, 0, Some(10)), Ok(()));
    assert_eq!(p.events().last(), Some(&Event::SitePriceUpdated(100, 0, Some(10))));
    assert_eq!(p.site_prices(0), Some(10));

    assert_eq!(p.listing(100, 0, None), Ok(()));
    assert_eq!(p.site_prices(0), None);
    assert_eq!(p.events().last(), Some(&Event::SitePriceUpdated(100, 0, None)));
}

#[test]
fn can_buy() {
    let mut p = with_one_site();
    let mut ledger = Ledger { free: HashMap::from([(200, 500)]), minimum: 0 };
    let site = p.sites(100, 0).unwrap();

    assert_eq!(purchase(&mut p, &mut ledger, 100, 100, 0, 10), Err(Error::BuyFromSelf));
    assert_eq!(purchase(&mut p, &mut ledger, 200, 100, 1, 10), Err(Error::InvalidSiteId));
    assert_eq!(purchase(&mut p, &mut ledger, 200, 100, 0, 10), Err(Error::NotForSale));

    assert_eq!(p.listing(100, 0, Some(400)), Ok(()));
    assert_eq!(purchase(&mut p, &mut ledger, 200, 100, 0, 500), Ok(()));

    assert_eq!(p.site_prices(0), None);
    assert!(!p.contains_site(100, 0));
    assert_eq!(p.sites(200, 0), Some(site));
    assert_eq!(ledger.balance(100), 400);
    assert_eq!(ledger.balance(200), 100);
    assert_eq!(p.events().last(), Some(&Event::SiteSold(100, 200, 0, 400)));
}

#[test]
fn buy_below_listed_price_is_refused() {
    let mut p = with_one_site();
    assert_eq!(p.listing(100, 0, Some(400)), Ok(()));
    assert_eq!(p.sale_price(200, 100, 0, 399), Err(Error::PriceTooLow));
    assert_eq!(p.buy(200, 100, 0, 399, Ok(())), Err(Error::PriceTooLow));
    assert_eq!(p.sale_price(200, 100, 0, 400), Ok(400));
    assert!(p.contains_site(100, 0));
    assert_eq!(p.site_prices(0), Some(400));
}

#[test]
fn failed_payment_changes_nothing() {
    let mut p = with_one_site();
    assert_eq!(p.listing(100, 0, Some(400)), Ok(()));
    let events_before = p.events().len();
    let mut ledger = Ledger { free: HashMap::from([(200, 300)]), minimum: 0 };
    assert_eq!(
        purchase(&mut p, &mut ledger, 200, 100, 0, 500),
        Err(Error::Transfer(TransferError::InsufficientFunds))
    );
    let mut ledger = Ledger { free: HashMap::from([(200, 400)]), minimum: 1 };
    assert_eq!(
        purchase(&mut p, &mut ledger, 200, 100, 0, 500),
        Err(Error::Transfer(TransferError::BelowMinimum))
    );
    assert_eq!(ledger.balance(200), 400);
    assert_eq!(ledger.balance(100), 0);
    assert_eq!(p.sites(100, 0), Some(test_site()));
    assert_eq!(p.sites(200, 0), None);
    assert_eq!(p.site_prices(0), Some(400));
    assert_eq!(p.events().len(), events_before);
}

#[test]
fn creations_hand_out_distinct_identifiers() {
    let mut p = Pallet::new();
    for n in 0..5u32 {
        assert_eq!(p.create(100 + n as u64, bytes("cid"), bytes("name")), Ok(n));
    }
    assert_eq!(p.next_site_id(), 5);
    assert_eq!(p.burn(100, 0), Ok(()));
    assert_eq!(p.create(100, bytes("cid"), bytes("name")), Ok(5));
    assert_eq!(p.sites(100, 0), None);
    assert_eq!(p.sites(100, 5), Some(Site::new(bytes("cid"), bytes("name"))));
}

#[test]
fn create_clears_a_stale_listing() {
    let mut p = with_one_site();
    assert_eq!(p.listing(100, 0, Some(7)), Ok(()));
    assert_eq!(p.burn(100, 0), Ok(()));
    assert_eq!(p.site_prices(0), Some(7));
    assert_eq!(p.events().last(), Some(&Event::SiteBurned(100, 0)));
    assert_eq!(p.create(100, bytes("a"), bytes("b")), Ok(1));
    assert_eq!(p.site_prices(1), None);
}

#[test]
fn only_one_owner_at_a_time() {
    let mut p = with_one_site();
    assert_eq!(p.transfer(100, 200, 0), Ok(()));
    assert_eq!(p.transfer(200, 300, 0), Ok(()));
    let holders: Vec<u64> = [100, 200, 300].into_iter().filter(|a| p.contains_site(*a, 0)).collect();
    assert_eq!(holders, vec![300]);
    assert_eq!(p.transfer(100, 400, 0), Err(Error::InvalidSiteId));
}

#[test]
fn listing_twice_gives_two_equal_events() {
    let mut p = with_one_site();
    assert_eq!(p.listing(100, 0, Some(10)), Ok(()));
    assert_eq!(p.listing(100, 0, Some(10)), Ok(()));
    assert_eq!(p.site_prices(0), Some(10));
    let n = p.events().len();
    assert_eq!(p.events()[n - 1], Event::SitePriceUpdated(100, 0, Some(10)));
    assert_eq!(p.events()[n - 2], p.events()[n - 1]);
}

#[test]
fn transfer_there_and_back_restores_the_store() {
    let mut p = with_one_site();
    assert_eq!(p.transfer(100, 200, 0), Ok(()));
    assert_eq!(p.transfer(200, 100, 0), Ok(()));
    assert_eq!(p.sites(100, 0), Some(test_site()));
    assert_eq!(p.sites(200, 0), None);
}

#[test]
fn transfer_to_self_checks_ownership_only() {
    let mut p = with_one_site();
    let n = p.events().len();
    assert_eq!(p.transfer(100, 100, 0), Ok(()));
    assert_eq!(p.events().len(), n);
    assert_eq!(p.sites(100, 0), Some(test_site()));
    assert_eq!(p.transfer(200, 200, 0), Err(Error::InvalidSiteId));
}

#[test]
fn modify_changes_only_the_content_pointer() {
    let mut p = with_one_site();
    assert_eq!(p.modify(200, bytes("new"), bytes("other"), 0), Err(Error::InvalidSiteId));
    assert_eq!(p.modify(100, bytes("new"), bytes("other"), 0), Ok(()));
    let changed = Site::new(bytes("new"), bytes("test"));
    assert_eq!(p.sites(100, 0), Some(changed.clone()));
    assert_eq!(p.events().last(), Some(&Event::SiteCreated(100, 0, changed)));
}

#[test]
fn burn_needs_the_owner() {
    let mut p = with_one_site();
    assert_eq!(p.burn(200, 0), Err(Error::InvalidSiteId));
    assert_eq!(p.burn(100, 1), Err(Error::InvalidSiteId));
    assert_eq!(p.burn(100, 0), Ok(()));
    assert_eq!(p.burn(100, 0), Err(Error::InvalidSiteId));
    assert_eq!(p.sites(100, 0), None);
    assert_eq!(p.next_site_id(), 1);
}

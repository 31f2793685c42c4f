//! The marketplace as an abstract state machine: the state that callers can
//! observe, and one transition per operation.
use vstd::prelude::*;

use crate::types::{AccountId, Balance, Error, EventView, SiteIndex, SiteView, TransferError};

verus! {

/// The observable state of the marketplace.
pub struct MarketView {
    /// The record store: a site under each (owner, identifier) key.
    pub sites: Map<(AccountId, SiteIndex), SiteView>,
    /// The identifier that the next creation hands out.
    pub next_site_id: SiteIndex,
    /// The listing ledger: the asking price of each listed identifier.
    pub site_prices: Map<SiteIndex, Balance>,
    /// Every event announced so far, oldest first.
    pub events: Seq<EventView>,
}

/// No identifier is held under two owners at once.
pub open spec fn exclusive(s: MarketView) -> bool {
    forall|a: AccountId, b: AccountId, id: SiteIndex|
        #![trigger s.sites.contains_key((a, id)), s.sites.contains_key((b, id))]
        s.sites.contains_key((a, id)) && s.sites.contains_key((b, id)) ==> a == b
}

/// `who` holds the record `id`.
pub open spec fn owns(s: MarketView, who: AccountId, id: SiteIndex) -> bool {
    s.sites.contains_key((who, id))
}

pub open spec fn create_step(
    s: MarketView,
    caller: AccountId,
    ipfs_cid: Seq<u8>,
    site_name: Seq<u8>,
) -> (MarketView, Result<SiteIndex, Error>) {
    if s.next_site_id == u32::MAX {
        (s, Err(Error::ArithmeticOverflow))
    } else {
        let id = s.next_site_id;
        let site = SiteView { ipfs_cid, site_name };
        (
            MarketView {
                sites: s.sites.insert((caller, id), site),
                next_site_id: (id + 1) as u32,
                site_prices: s.site_prices.remove(id),
                events: s.events.push(EventView::SiteCreated(caller, id, site)),
            },
            Ok(id),
        )
    }
}

pub open spec fn burn_step(s: MarketView, caller: AccountId, id: SiteIndex) -> (
    MarketView,
    Result<(), Error>,
) {
    if !owns(s, caller, id) {
        (s, Err(Error::InvalidSiteId))
    } else {
        (
            MarketView {
                sites: s.sites.remove((caller, id)),
                events: s.events.push(EventView::SiteBurned(caller, id)),
                ..s
            },
            Ok(()),
        )
    }
}

/// Only the content pointer changes; the display name stays as it was created.
pub open spec fn modify_step(s: MarketView, caller: AccountId, ipfs_cid: Seq<u8>, id: SiteIndex) -> (
    MarketView,
    Result<(), Error>,
) {
    if !owns(s, caller, id) {
        (s, Err(Error::InvalidSiteId))
    } else {
        let site = SiteView { ipfs_cid, site_name: s.sites[(caller, id)].site_name };
        (
            MarketView {
                sites: s.sites.insert((caller, id), site),
                events: s.events.push(EventView::SiteCreated(caller, id, site)),
                ..s
            },
            Ok(()),
        )
    }
}

/// The ledger entry after setting the listing of `id` to `price`.
pub open spec fn set_price(
    prices: Map<SiteIndex, Balance>,
    id: SiteIndex,
    price: Option<Balance>,
) -> Map<SiteIndex, Balance> {
    match price {
        Some(p) => prices.insert(id, p),
        None => prices.remove(id),
    }
}

pub open spec fn listing_step(
    s: MarketView,
    caller: AccountId,
    id: SiteIndex,
    price: Option<Balance>,
) -> (MarketView, Result<(), Error>) {
    if !owns(s, caller, id) {
        (s, Err(Error::NotOwner))
    } else {
        (
            MarketView {
                site_prices: set_price(s.site_prices, id, price),
                events: s.events.push(EventView::SitePriceUpdated(caller, id, price)),
                ..s
            },
            Ok(()),
        )
    }
}

/// A transfer to oneself only checks ownership.
pub open spec fn transfer_step(s: MarketView, caller: AccountId, to: AccountId, id: SiteIndex) -> (
    MarketView,
    Result<(), Error>,
) {
    if !owns(s, caller, id) {
        (s, Err(Error::InvalidSiteId))
    } else if caller == to {
        (s, Ok(()))
    } else {
        (
            MarketView {
                sites: s.sites.remove((caller, id)).insert((to, id), s.sites[(caller, id)]),
                events: s.events.push(EventView::SiteTransferred(caller, to, id)),
                ..s
            },
            Ok(()),
        )
    }
}

/// The price that `buyer` pays to buy `id` from `owner`, or why the purchase
/// is refused; the checks come in this order.
pub open spec fn purchase_price(
    s: MarketView,
    buyer: AccountId,
    owner: AccountId,
    id: SiteIndex,
    max_price: Balance,
) -> Result<Balance, Error> {
    if buyer == owner {
        Err(Error::BuyFromSelf)
    } else if !owns(s, owner, id) {
        Err(Error::InvalidSiteId)
    } else if !s.site_prices.contains_key(id) {
        Err(Error::NotForSale)
    } else if max_price < s.site_prices[id] {
        Err(Error::PriceTooLow)
    } else {
        Ok(s.site_prices[id])
    }
}

/// A purchase, given what the currency ledger answered to the payment of the
/// price from buyer to owner. It changes nothing unless every check passes and
/// the payment went through.
pub open spec fn buy_step(
    s: MarketView,
    buyer: AccountId,
    owner: AccountId,
    id: SiteIndex,
    max_price: Balance,
    payment: Result<(), TransferError>,
) -> (MarketView, Result<(), Error>) {
    match purchase_price(s, buyer, owner, id, max_price) {
        Err(e) => (s, Err(e)),
        Ok(price) => match payment {
            Err(t) => (s, Err(Error::Transfer(t))),
            Ok(()) => (
                MarketView {
                    sites: s.sites.remove((owner, id)).insert((buyer, id), s.sites[(owner, id)]),
                    site_prices: s.site_prices.remove(id),
                    events: s.events.push(EventView::SiteSold(owner, buyer, id, price)),
                    ..s
                },
                Ok(()),
            ),
        },
    }
}

} // verus!

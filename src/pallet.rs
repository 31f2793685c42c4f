//! The marketplace on executable storage.
use std::collections::HashMap;

use vstd::prelude::*;

use crate::machine::{
    buy_step, burn_step, create_step, exclusive, listing_step, modify_step, purchase_price,
    transfer_step, MarketView,
};
use crate::types::{
    AccountId, Balance, Error, Event, EventView, Site, SiteIndex, SiteView, TransferError,
};

verus! {

broadcast use vstd::std_specs::hash::group_hash_axioms;

/// A record together with the account that holds it.
pub struct Holding {
    pub owner: AccountId,
    pub site: Site,
}

/// The record store seen as a map from (owner, identifier).
pub open spec fn store_view(m: Map<SiteIndex, Holding>) -> Map<(AccountId, SiteIndex), SiteView> {
    Map::new(
        |k: (AccountId, SiteIndex)| m.contains_key(k.1) && m[k.1].owner == k.0,
        |k: (AccountId, SiteIndex)| m[k.1].site@,
    )
}

pub open spec fn events_view(v: Seq<Event>) -> Seq<EventView> {
    v.map_values(|e: Event| e@)
}

/// The marketplace state: records indexed by identifier, each with its owner,
/// the listing ledger, the identifier counter and the announced events.
pub struct Pallet {
    sites: HashMap<SiteIndex, Holding>,
    next_site_id: SiteIndex,
    site_prices: HashMap<SiteIndex, Balance>,
    events: Vec<Event>,
}

impl View for Pallet {
    type V = MarketView;

    closed spec fn view(&self) -> MarketView {
        MarketView {
            sites: store_view(self.sites@),
            next_site_id: self.next_site_id,
            site_prices: self.site_prices@,
            events: events_view(self.events@),
        }
    }
}

proof fn lemma_store_insert(m: Map<SiteIndex, Holding>, id: SiteIndex, h: Holding)
    ensures
        store_view(m.insert(id, h)) == store_view(m.remove(id)).insert((h.owner, id), h.site@),
{
    assert(store_view(m.insert(id, h)) =~= store_view(m.remove(id)).insert((h.owner, id), h.site@));
}

proof fn lemma_store_remove(m: Map<SiteIndex, Holding>, id: SiteIndex)
    requires
        m.contains_key(id),
    ensures
        store_view(m.remove(id)) == store_view(m).remove((m[id].owner, id)),
{
    assert(store_view(m.remove(id)) =~= store_view(m).remove((m[id].owner, id)));
}

proof fn lemma_events_push(v: Seq<Event>, e: Event)
    ensures
        events_view(v.push(e)) == events_view(v).push(e@),
{
    assert(events_view(v.push(e)) =~= events_view(v).push(e@));
}

impl Pallet {
    /// Every stored identifier was handed out by the counter.
    pub closed spec fn wf(&self) -> bool {
        forall|id: SiteIndex| #[trigger] self.sites@.contains_key(id) ==> id < self.next_site_id
    }

    /// An empty marketplace whose first identifier is zero.
    pub fn new() -> (r: Pallet)
        ensures
            r.wf(),
            r@.sites == Map::<(AccountId, SiteIndex), SiteView>::empty(),
            r@.next_site_id == 0,
            r@.site_prices == Map::<SiteIndex, Balance>::empty(),
            r@.events == Seq::<EventView>::empty(),
    {
        let r = Pallet {
            sites: HashMap::new(),
            next_site_id: 0,
            site_prices: HashMap::new(),
            events: Vec::new(),
        };
        assert(r@.sites =~= Map::<(AccountId, SiteIndex), SiteView>::empty());
        assert(r@.events =~= Seq::<EventView>::empty());
        r
    }

    /// A well-formed marketplace never holds one identifier under two owners.
    pub proof fn lemma_wf_exclusive(&self)
        ensures
            exclusive(self@),
    {
    }

    fn deposit_event(&mut self, e: Event)
        ensures
            final(self).sites == old(self).sites,
            final(self).next_site_id == old(self).next_site_id,
            final(self).site_prices == old(self).site_prices,
            final(self)@.events == old(self)@.events.push(e@),
    {
        proof {
            lemma_events_push(self.events@, e);
        }
        self.events.push(e);
    }

    /// `who` holds the record `id`.
    fn holds(&self, who: AccountId, id: SiteIndex) -> (r: bool)
        ensures
            r == self@.sites.contains_key((who, id)),
    {
        match self.sites.get(&id) {
            Some(h) => h.owner == who,
            None => false,
        }
    }

    /// Hands out the current counter value and advances the counter, unless it
    /// is at its largest value.
    fn get_next_note_id(&mut self) -> (r: Result<SiteIndex, Error>)
        ensures
            final(self).sites == old(self).sites,
            final(self).site_prices == old(self).site_prices,
            final(self).events == old(self).events,
            old(self).next_site_id == u32::MAX ==> r == Err::<SiteIndex, Error>(Error::ArithmeticOverflow)
                && final(self).next_site_id == old(self).next_site_id,
            old(self).next_site_id < u32::MAX ==> r == Ok::<SiteIndex, Error>(old(self).next_site_id)
                && final(self).next_site_id == old(self).next_site_id + 1,
    {
        let current_id = self.next_site_id;
        match current_id.checked_add(1) {
            Some(n) => {
                self.next_site_id = n;
                Ok(current_id)
            },
            None => Err(Error::ArithmeticOverflow),
        }
    }

    /// Creates a record owned by `caller` under a fresh identifier, clears any
    /// listing left under that identifier, and returns the identifier.
    pub fn create(&mut self, caller: AccountId, ipfs_cid: Vec<u8>, site_name: Vec<u8>) -> (r: Result<SiteIndex, Error>)
        requires
            old(self).wf(),
        ensures
            final(self).wf(),
            (final(self)@, r) == create_step(old(self)@, caller, ipfs_cid@, site_name@),
            r matches Ok(id) ==> forall|o: AccountId| !old(self)@.sites.contains_key((o, id)),
    {
        let site_id = match self.get_next_note_id() {
            Ok(id) => id,
            Err(e) => {
                return Err(e);
            },
        };
        let site = Site::new(ipfs_cid, site_name);
        let ghost m = self.sites@;
        let ev = Event::SiteCreated(caller, site_id, site.duplicate());
        proof {
            lemma_store_insert(m, site_id, Holding { owner: caller, site });
            assert(m.remove(site_id) =~= m);
        }
        self.sites.insert(site_id, Holding { owner: caller, site });
        self.site_prices.remove(&site_id);
        self.deposit_event(ev);
        proof {
            let post = create_step(old(self)@, caller, ipfs_cid@, site_name@).0;
            assert(self@.site_prices =~= post.site_prices);
            assert(self@.sites =~= post.sites);
        }
        Ok(site_id)
    }

    /// The price that `buyer` must pay to buy `site_id` from `owner` for at
    /// most `max_price`, or why the purchase is refused. The caller moves that
    /// amount through the currency ledger and hands the outcome to [`Pallet::buy`].
    pub fn sale_price(&self, buyer: AccountId, owner: AccountId, site_id: SiteIndex, max_price: Balance) -> (r: Result<Balance, Error>)
        ensures
            r == purchase_price(self@, buyer, owner, site_id, max_price),
    {
        if buyer == owner {
            return Err(Error::BuyFromSelf);
        }
        if !self.holds(owner, site_id) {
            return Err(Error::InvalidSiteId);
        }
        match self.site_prices.get(&site_id) {
            None => Err(Error::NotForSale),
            Some(price) => {
                if max_price < *price {
                    Err(Error::PriceTooLow)
                } else {
                    Ok(*price)
                }
            },
        }
    }

    /// Settles a purchase of `site_id` from `owner` by `buyer`, where `payment`
    /// is what the currency ledger answered when asked to move the price that
    /// [`Pallet::sale_price`] gives from buyer to owner. The record moves to the
    /// buyer and its listing is cleared only if every check passes and the
    /// payment went through; otherwise nothing changes.
    pub fn buy(
        &mut self,
        buyer: AccountId,
        owner: AccountId,
        site_id: SiteIndex,
        max_price: Balance,
        payment: Result<(), TransferError>,
    ) -> (r: Result<(), Error>)
        requires
            old(self).wf(),
        ensures
            final(self).wf(),
            (final(self)@, r) == buy_step(old(self)@, buyer, owner, site_id, max_price, payment),
    {
        let price = match self.sale_price(buyer, owner, site_id, max_price) {
            Ok(p) => p,
            Err(e) => {
                return Err(e);
            },
        };
        if let Err(t) = payment {
            return Err(Error::Transfer(t));
        }
        let ghost m = self.sites@;
        let held = match self.sites.remove(&site_id) {
            Some(h) => h,
            None => {
                return Err(Error::InvalidSiteId);
            },
        };
        let moved = Holding { owner: buyer, site: held.site };
        proof {
            lemma_store_remove(m, site_id);
            lemma_store_insert(m.remove(site_id), site_id, moved);
            assert(m.remove(site_id).remove(site_id) =~= m.remove(site_id));
        }
        self.sites.insert(site_id, moved);
        self.site_prices.remove(&site_id);
        self.deposit_event(Event::SiteSold(owner, buyer, site_id, price));
        proof {
            let post = buy_step(old(self)@, buyer, owner, site_id, max_price, payment).0;
            assert(self@.site_prices =~= post.site_prices);
            assert(self@.sites =~= post.sites);
        }
        Ok(())
    }

    /// Hands `site_id` from `caller` to `to`. A transfer to oneself only checks
    /// that the caller holds the record.
    pub fn transfer(&mut self, caller: AccountId, to: AccountId, site_id: SiteIndex) -> (r: Result<(), Error>)
        requires
            old(self).wf(),
        ensures
            final(self).wf(),
            (final(self)@, r) == transfer_step(old(self)@, caller, to, site_id),
    {
        if !self.holds(caller, site_id) {
            return Err(Error::InvalidSiteId);
        }
        if caller == to {
            return Ok(());
        }
        let ghost m = self.sites@;
        let held = match self.sites.remove(&site_id) {
            Some(h) => h,
            None => {
                return Err(Error::InvalidSiteId);
            },
        };
        let moved = Holding { owner: to, site: held.site };
        proof {
            lemma_store_remove(m, site_id);
            lemma_store_insert(m.remove(site_id), site_id, moved);
            assert(m.remove(site_id).remove(site_id) =~= m.remove(site_id));
        }
        self.sites.insert(site_id, moved);
        self.deposit_event(Event::SiteTransferred(caller, to, site_id));
        proof {
            let post = transfer_step(old(self)@, caller, to, site_id).0;
            assert(self@.sites =~= post.sites);
        }
        Ok(())
    }

    /// Replaces the content pointer of a record that `caller` holds. The display
    /// name is accepted and ignored: it stays as it was created.
    pub fn modify(&mut self, caller: AccountId, ipfs_cid: Vec<u8>, _site_name: Vec<u8>, site_id: SiteIndex) -> (r: Result<(), Error>)
        requires
            old(self).wf(),
        ensures
            final(self).wf(),
            (final(self)@, r) == modify_step(old(self)@, caller, ipfs_cid@, site_id),
    {
        if !self.holds(caller, site_id) {
            return Err(Error::InvalidSiteId);
        }
        let ghost m = self.sites@;
        let held = match self.sites.remove(&site_id) {
            Some(h) => h,
            None => {
                return Err(Error::InvalidSiteId);
            },
        };
        let site = Site::new(ipfs_cid, held.site.site_name);
        let ev = Event::SiteCreated(caller, site_id, site.duplicate());
        let changed = Holding { owner: caller, site };
        proof {
            lemma_store_remove(m, site_id);
            lemma_store_insert(m.remove(site_id), site_id, changed);
            assert(m.remove(site_id).remove(site_id) =~= m.remove(site_id));
        }
        self.sites.insert(site_id, changed);
        self.deposit_event(ev);
        proof {
            let post = modify_step(old(self)@, caller, ipfs_cid@, site_id).0;
            assert(self@.sites =~= post.sites);
        }
        Ok(())
    }

    /// Removes a record that `caller` holds; its identifier is never handed out
    /// again. A listing under the identifier is left in place.
    pub fn burn(&mut self, caller: AccountId, site_id: SiteIndex) -> (r: Result<(), Error>)
        requires
            old(self).wf(),
        ensures
            final(self).wf(),
            (final(self)@, r) == burn_step(old(self)@, caller, site_id),
    {
        if !self.holds(caller, site_id) {
            return Err(Error::InvalidSiteId);
        }
        let ghost m = self.sites@;
        self.sites.remove(&site_id);
        proof {
            lemma_store_remove(m, site_id);
        }
        self.deposit_event(Event::SiteBurned(caller, site_id));
        Ok(())
    }

    /// Lists `site_id` at `new_price`, or clears its listing when it is `None`;
    /// only the holder of the record may do so.
    pub fn listing(&mut self, caller: AccountId, site_id: SiteIndex, new_price: Option<Balance>) -> (r: Result<(), Error>)
        requires
            old(self).wf(),
        ensures
            final(self).wf(),
            (final(self)@, r) == listing_step(old(self)@, caller, site_id, new_price),
    {
        if !self.holds(caller, site_id) {
            return Err(Error::NotOwner);
        }
        match new_price {
            Some(p) => {
                self.site_prices.insert(site_id, p);
            },
            None => {
                self.site_prices.remove(&site_id);
            },
        }
        self.deposit_event(Event::SitePriceUpdated(caller, site_id, new_price));
        proof {
            let post = listing_step(old(self)@, caller, site_id, new_price).0;
            assert(self@.site_prices =~= post.site_prices);
        }
        Ok(())
    }
    /// The record held by `owner` under `site_id`, if any.
    pub fn sites(&self, owner: AccountId, site_id: SiteIndex) -> (r: Option<Site>)
        ensures
            r is Some <==> self@.sites.contains_key((owner, site_id)),
            r matches Some(site) ==> site@ == self@.sites[(owner, site_id)],
    {
        match self.sites.get(&site_id) {
            Some(h) => {
                if h.owner == owner {
                    Some(h.site.duplicate())
                } else {
                    None
                }
            },
            None => None,
        }
    }

    /// Whether `owner` holds a record under `site_id`.
    pub fn contains_site(&self, owner: AccountId, site_id: SiteIndex) -> (r: bool)
        ensures
            r == self@.sites.contains_key((owner, site_id)),
    {
        self.holds(owner, site_id)
    }

    /// The identifier that the next creation hands out.
    pub fn next_site_id(&self) -> (r: SiteIndex)
        ensures
            r == self@.next_site_id,
    {
        self.next_site_id
    }

    /// The asking price of `site_id`, if it is listed.
    pub fn site_prices(&self, site_id: SiteIndex) -> (r: Option<Balance>)
        ensures
            r == (if self@.site_prices.contains_key(site_id) {
                Some(self@.site_prices[site_id])
            } else {
                None
            }),
    {
        match self.site_prices.get(&site_id) {
            Some(p) => Some(*p),
            None => None,
        }
    }

    /// The events announced so far, oldest first.
    pub fn events(&self) -> (r: &Vec<Event>)
        ensures
            events_view(r@) == self@.events,
    {
        &self.events
    }
}

} // verus!

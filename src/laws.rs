//! Properties of the marketplace that relate several operations.
use vstd::prelude::*;

use crate::machine::{
    buy_step, create_step, exclusive, listing_step, owns, purchase_price, transfer_step, MarketView,
};
use crate::types::{AccountId, Balance, Error, SiteIndex, TransferError};

verus! {

/// One creation request: caller, content pointer, display name.
pub type CreateRequest = (AccountId, Seq<u8>, Seq<u8>);

/// The state and the results after running the creation requests in order.
pub open spec fn create_all(s: MarketView, reqs: Seq<CreateRequest>) -> (
    MarketView,
    Seq<Result<SiteIndex, Error>>,
)
    decreases reqs.len(),
{
    if reqs.len() == 0 {
        (s, Seq::empty())
    } else {
        let before = create_all(s, reqs.drop_last());
        let q = reqs.last();
        let step = create_step(before.0, q.0, q.1, q.2);
        (step.0, before.1.push(step.1))
    }
}

proof fn lemma_create_all_bounds(s: MarketView, reqs: Seq<CreateRequest>)
    ensures
        create_all(s, reqs).1.len() == reqs.len(),
        s.next_site_id <= create_all(s, reqs).0.next_site_id,
        forall|i: int|
            0 <= i < reqs.len() && (#[trigger] create_all(s, reqs).1[i]) is Ok ==> {
                let id = create_all(s, reqs).1[i]->Ok_0;
                s.next_site_id <= id < create_all(s, reqs).0.next_site_id
            },
        forall|i: int, j: int|
            0 <= i < j < reqs.len() && (#[trigger] create_all(s, reqs).1[i]) is Ok
                && (#[trigger] create_all(s, reqs).1[j]) is Ok ==> create_all(s, reqs).1[i]->Ok_0
                < create_all(s, reqs).1[j]->Ok_0,
        (forall|i: int| 0 <= i < reqs.len() ==> (#[trigger] create_all(s, reqs).1[i]) is Ok)
            ==> create_all(s, reqs).0.next_site_id == s.next_site_id + reqs.len(),
    decreases reqs.len(),
{
    if reqs.len() > 0 {
        let prefix = reqs.drop_last();
        lemma_create_all_bounds(s, prefix);
        let before = create_all(s, prefix);
        let rs = create_all(s, reqs).1;
        assert(forall|i: int| 0 <= i < prefix.len() ==> rs[i] == before.1[i]);
        if forall|i: int| 0 <= i < reqs.len() ==> (#[trigger] rs[i]) is Ok {
            assert(forall|i: int| 0 <= i < prefix.len() ==> (#[trigger] before.1[i]) is Ok) by {
                assert forall|i: int| 0 <= i < prefix.len() implies (#[trigger] before.1[i]) is Ok by {
                    assert(rs[i] is Ok);
                }
            }
            assert(rs[reqs.len() - 1] is Ok);
        }
    }
}

/// Successful creations never hand out the same identifier twice, and after a
/// run of creations that all succeed the counter has advanced by their number.
pub proof fn lemma_create_ids_unique(s: MarketView, reqs: Seq<CreateRequest>)
    ensures
        forall|i: int, j: int|
            0 <= i < j < reqs.len() && (#[trigger] create_all(s, reqs).1[i]) is Ok
                && (#[trigger] create_all(s, reqs).1[j]) is Ok ==> create_all(s, reqs).1[i]
                != create_all(s, reqs).1[j],
        (forall|i: int| 0 <= i < reqs.len() ==> (#[trigger] create_all(s, reqs).1[i]) is Ok)
            ==> create_all(s, reqs).0.next_site_id == s.next_site_id + reqs.len(),
{
    lemma_create_all_bounds(s, reqs);
}

/// A purchase that fails leaves the whole state as it was; one refused by its
/// checks is refused whatever the payment outcome, so no payment is owed; and
/// one that succeeds had both its checks and its payment go through.
pub proof fn lemma_buy_atomic(
    s: MarketView,
    buyer: AccountId,
    owner: AccountId,
    id: SiteIndex,
    max_price: Balance,
    payment: Result<(), TransferError>,
)
    ensures
        buy_step(s, buyer, owner, id, max_price, payment).1 is Err ==> buy_step(
            s,
            buyer,
            owner,
            id,
            max_price,
            payment,
        ).0 == s,
        purchase_price(s, buyer, owner, id, max_price) matches Err(e) ==> buy_step(
            s,
            buyer,
            owner,
            id,
            max_price,
            payment,
        ).1 == Err::<(), Error>(e),
        buy_step(s, buyer, owner, id, max_price, payment).1 is Ok ==> payment is Ok && purchase_price(
            s,
            buyer,
            owner,
            id,
            max_price,
        ) is Ok,
{
}

/// Listing twice at the same price leaves the ledger and the store as the
/// first listing left them, gives the same result, and announces the same
/// event a second time.
pub proof fn lemma_listing_idempotent(
    s: MarketView,
    caller: AccountId,
    id: SiteIndex,
    price: Option<Balance>,
)
    ensures
        ({
            let first = listing_step(s, caller, id, price);
            let second = listing_step(first.0, caller, id, price);
            &&& second.1 == first.1
            &&& second.0.site_prices == first.0.site_prices
            &&& second.0.sites == first.0.sites
            &&& second.0.next_site_id == first.0.next_site_id
            &&& first.1 is Ok ==> second.0.events == first.0.events.push(first.0.events.last())
        }),
{
    let first = listing_step(s, caller, id, price);
    if first.1 is Ok {
        match price {
            Some(p) => {
                assert(first.0.site_prices.insert(id, p) =~= first.0.site_prices);
            },
            None => {
                assert(first.0.site_prices.remove(id) =~= first.0.site_prices);
            },
        }
    }
}

/// Handing a record from `a` to `b` and back restores the record store.
pub proof fn lemma_transfer_round_trip(s: MarketView, a: AccountId, b: AccountId, id: SiteIndex)
    requires
        exclusive(s),
        owns(s, a, id),
    ensures
        ({
            let there = transfer_step(s, a, b, id);
            let back = transfer_step(there.0, b, a, id);
            &&& there.1 is Ok
            &&& back.1 is Ok
            &&& back.0.sites == s.sites
            &&& back.0.site_prices == s.site_prices
        }),
{
    if a != b {
        let there = transfer_step(s, a, b, id);
        assert(there.0.sites.contains_key((b, id)));
        assert(!s.sites.contains_key((b, id)));
        assert(there.0.sites.remove((b, id)).insert((a, id), there.0.sites[(b, id)]) =~= s.sites);
    }
}

} // verus!

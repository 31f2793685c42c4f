use vstd::prelude::*;

verus! {

/// An authenticated account.
pub type AccountId = u64;

/// The stable identifier of a site record.
pub type SiteIndex = u32;

/// An amount of the currency that sites are sold for.
pub type Balance = u64;

/// A site record: a content pointer and a display name.
#[derive(Clone, Debug, PartialEq, Eq)]
pub struct Site {
    pub ipfs_cid: Vec<u8>,
    pub site_name: Vec<u8>,
}

/// The mathematical value of a [`Site`].
pub struct SiteView {
    pub ipfs_cid: Seq<u8>,
    pub site_name: Seq<u8>,
}

impl View for Site {
    type V = SiteView;

    open spec fn view(&self) -> SiteView {
        SiteView { ipfs_cid: self.ipfs_cid@, site_name: self.site_name@ }
    }
}

impl Site {
    pub fn new(ipfs_cid: Vec<u8>, site_name: Vec<u8>) -> (r: Site)
        ensures
            r@ == (SiteView { ipfs_cid: ipfs_cid@, site_name: site_name@ }),
    {
        Site { ipfs_cid, site_name }
    }

    /// A copy of the record with the same content.
    pub fn duplicate(&self) -> (r: Site)
        ensures
            r@ == self@,
    {
        let ipfs_cid = self.ipfs_cid.clone();
        let site_name = self.site_name.clone();
        proof {
            assert(ipfs_cid@ =~= self.ipfs_cid@);
            assert(site_name@ =~= self.site_name@);
        }
        Site { ipfs_cid, site_name }
    }
}

/// Why the currency ledger refused to move funds.
#[derive(Clone, Copy, Debug, PartialEq, Eq, Structural)]
pub enum TransferError {
    /// The payer does not hold the amount.
    InsufficientFunds,
    /// Paying would leave the payer below the ledger's minimum balance.
    BelowMinimum,
}

/// The ways in which an operation is rejected. A rejected operation changes nothing.
#[derive(Clone, Copy, Debug, PartialEq, Eq, Structural)]
pub enum Error {
    /// The identifier does not exist under the expected owner.
    InvalidSiteId,
    /// The caller does not own the record.
    NotOwner,
    /// The record has no listing.
    NotForSale,
    /// The buyer's ceiling is below the listed price.
    PriceTooLow,
    /// Buyer and owner are the same account.
    BuyFromSelf,
    /// The identifier counter cannot grow any further.
    ArithmeticOverflow,
    /// The currency ledger refused the payment of a purchase.
    Transfer(TransferError),
}

/// What a successful operation announces.
#[derive(Clone, Debug, PartialEq, Eq)]
pub enum Event {
    /// A site is created, or its content changed: owner, identifier, record.
    SiteCreated(AccountId, SiteIndex, Site),
    /// A site changes hands: owner, receiver, identifier.
    SiteTransferred(AccountId, AccountId, SiteIndex),
    /// A site is burned: owner, identifier.
    SiteBurned(AccountId, SiteIndex),
    /// A listing is set or cleared: owner, identifier, price.
    SitePriceUpdated(AccountId, SiteIndex, Option<Balance>),
    /// A site is sold: old owner, new owner, identifier, price.
    SiteSold(AccountId, AccountId, SiteIndex, Balance),
}

/// The mathematical value of an [`Event`].
pub enum EventView {
    SiteCreated(AccountId, SiteIndex, SiteView),
    SiteTransferred(AccountId, AccountId, SiteIndex),
    SiteBurned(AccountId, SiteIndex),
    SitePriceUpdated(AccountId, SiteIndex, Option<Balance>),
    SiteSold(AccountId, AccountId, SiteIndex, Balance),
}

impl View for Event {
    type V = EventView;

    open spec fn view(&self) -> EventView {
        match self {
            Event::SiteCreated(o, i, s) => EventView::SiteCreated(*o, *i, s@),
            Event::SiteTransferred(f, t, i) => EventView::SiteTransferred(*f, *t, *i),
            Event::SiteBurned(o, i) => EventView::SiteBurned(*o, *i),
            Event::SitePriceUpdated(o, i, p) => EventView::SitePriceUpdated(*o, *i, *p),
            Event::SiteSold(f, t, i, p) => EventView::SiteSold(*f, *t, *i, *p),
        }
    }
}

} // verus!

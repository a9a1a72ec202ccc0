use vstd::prelude::*;

use crate::error::IcoError;
use crate::identity::Identity;

verus! {

/// Smallest amount one contribution may have, in settlement-currency units.
pub const MIN_CONTRIBUTION: u64 = 100_000;

/// Largest cumulative amount one contributor may hold in a campaign.
pub const MAX_CONTRIBUTION: u64 = 4_500_000_000;

/// Where a campaign stands in its life.
#[derive(Clone, Copy, Debug, PartialEq, Eq, Structural)]
pub enum IcoStatus {
    Active,
    Inactive,
    Cancelled,
    Stopped,
}

impl IcoStatus {
    /// The byte under which the status is stored.
    pub open spec fn tag_of(self) -> u8 {
        match self {
            IcoStatus::Active => 0,
            IcoStatus::Inactive => 1,
            IcoStatus::Cancelled => 2,
            IcoStatus::Stopped => 3,
        }
    }

    /// The status stored under `tag`; a byte that stands for none is refused.
    pub open spec fn parse(tag: u8) -> Result<IcoStatus, IcoError> {
        if tag == 0 {
            Ok(IcoStatus::Active)
        } else if tag == 1 {
            Ok(IcoStatus::Inactive)
        } else if tag == 2 {
            Ok(IcoStatus::Cancelled)
        } else if tag == 3 {
            Ok(IcoStatus::Stopped)
        } else {
            Err(IcoError::InvalidStatus)
        }
    }

    /// Whether the campaign was cancelled or stopped.
    pub open spec fn is_finalized(self) -> bool {
        self == IcoStatus::Cancelled || self == IcoStatus::Stopped
    }

    /// The byte under which the status is stored.
    pub fn tag(&self) -> (t: u8)
        ensures
            t == self.tag_of(),
    {
        match self {
            IcoStatus::Active => 0,
            IcoStatus::Inactive => 1,
            IcoStatus::Cancelled => 2,
            IcoStatus::Stopped => 3,
        }
    }

    /// Reads a stored status back.  Every byte is answered: the four known
    /// tags with their status, any other with `InvalidStatus`.
    pub fn from_tag(tag: u8) -> (r: Result<IcoStatus, IcoError>)
        ensures
            r == IcoStatus::parse(tag),
    {
        match tag {
            0 => Ok(IcoStatus::Active),
            1 => Ok(IcoStatus::Inactive),
            2 => Ok(IcoStatus::Cancelled),
            3 => Ok(IcoStatus::Stopped),
            _ => Err(IcoError::InvalidStatus),
        }
    }
}

impl Default for IcoStatus {
    fn default() -> (s: IcoStatus)
        ensures
            s == IcoStatus::Active,
    {
        IcoStatus::Active
    }
}

/// The record of one campaign: what is sold, at which price, when, and how
/// much has come in.
#[derive(Clone, Copy, Debug, PartialEq, Eq)]
pub struct IcoState {
    /// Who may withdraw the proceeds and set the status.
    pub authority: Identity,
    /// The token on sale.
    pub token_mint: Identity,
    /// The vault that holds the tokens on sale.
    pub vault: Identity,
    /// Settlement-currency units asked for one whole token.
    pub token_price: u64,
    /// Sum of the contributions accepted so far.
    pub total_contributed: u64,
    /// First moment at which contributions are accepted.
    pub start_date: i64,
    /// Last moment at which contributions are accepted.
    pub end_date: i64,
    /// Token base units put up for sale.
    pub token_amount: u64,
    /// The least the campaign must raise to succeed.
    pub soft_cap: u64,
    /// The raise for which the token supply was sized.
    pub hard_cap: u64,
    /// Set by the authority's withdrawal.
    pub claim_allowed: bool,
    /// Where the campaign stands.
    pub status: IcoStatus,
}

impl IcoState {
    /// What holds of every campaign from its creation on: the soft cap lies
    /// below the hard cap, and the price is not zero.
    pub open spec fn well_formed(self) -> bool {
        self.soft_cap < self.hard_cap && self.token_price > 0
    }

    /// Whether `now` lies in the window in which contributions are accepted.
    pub open spec fn in_window(self, now: i64) -> bool {
        self.start_date <= now <= self.end_date
    }

    /// Whether the campaign is over at `now`.
    pub open spec fn ended(self, now: i64) -> bool {
        now >= self.end_date
    }

    /// Whether the campaign raised its soft cap.
    pub open spec fn soft_cap_reached(self) -> bool {
        self.total_contributed >= self.soft_cap
    }

    /// Whether the campaign is over at `now` without its soft cap.
    pub open spec fn failed(self, now: i64) -> bool {
        self.ended(now) && !self.soft_cap_reached()
    }
}

/// What one contributor has put into one campaign and not yet taken out by
/// a claim or a refund.
#[derive(Clone, Copy, Debug, PartialEq, Eq)]
pub struct Contribution {
    /// The contributor.
    pub user: Identity,
    /// The campaign.
    pub ico_state: Identity,
    /// Settlement-currency units contributed and neither claimed nor refunded.
    pub amount: u64,
}

impl Contribution {
    /// What holds of every record that only the operations have changed: the
    /// amount is within the ceiling.
    pub open spec fn well_formed(self) -> bool {
        self.amount <= MAX_CONTRIBUTION
    }

    /// The record of a contributor who has not contributed yet.
    pub fn new(user: Identity, ico_state: Identity) -> (c: Contribution)
        ensures
            c == (Contribution { user, ico_state, amount: 0 }),
            c.well_formed(),
    {
        Contribution { user, ico_state, amount: 0 }
    }
}

/// The status of a campaign kept as a record of its own, under the authority
/// that may change it.  The status is stored as its tag.
#[derive(Clone, Copy, Debug, PartialEq, Eq)]
pub struct IcoStatusAccount {
    /// The tag of the status.
    pub status: u8,
    /// Who may change the status.
    pub authority: Identity,
}

impl IcoStatusAccount {
    /// The status that the record holds, if the stored byte stands for one.
    pub open spec fn current_status(self) -> Result<IcoStatus, IcoError> {
        IcoStatus::parse(self.status)
    }

    /// What holds of every record that only the operations have written:
    /// the stored byte is the tag of a status.
    pub open spec fn well_formed(self) -> bool {
        self.current_status() is Ok
    }

    /// The record of a campaign that has just been created: active.
    pub fn new(authority: Identity) -> (account: IcoStatusAccount)
        ensures
            account == (IcoStatusAccount { status: IcoStatus::Active.tag_of(), authority }),
            account.well_formed(),
    {
        IcoStatusAccount { status: IcoStatus::Active.tag(), authority }
    }

    /// The status that the record holds; a byte that stands for none is
    /// refused with `InvalidStatus`.
    pub fn current(&self) -> (r: Result<IcoStatus, IcoError>)
        ensures
            r == self.current_status(),
    {
        IcoStatus::from_tag(self.status)
    }
}

} // verus!

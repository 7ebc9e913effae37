use vstd::prelude::*;

use crate::identity::Identity;

verus! {

/// Longest accepted campaign title, in characters.
pub const MAX_TITLE_LEN: usize = 64;

/// Longest accepted campaign description, in characters.
pub const MAX_DESCRIPTION_LEN: usize = 512;

/// Longest accepted campaign image URL, in characters.
pub const MAX_IMAGE_URL_LEN: usize = 256;

/// Smallest goal a campaign may be created with, in native units.
pub const MIN_CREATION_GOAL: u64 = 100_000_000;

/// Smallest goal an update may set, in native units — ten times the
/// creation floor.
pub const MIN_UPDATED_GOAL: u64 = 1_000_000_000;

/// Smallest accepted donation, in native units.
pub const MIN_DONATION: u64 = 1_000_000_000;

/// Smallest accepted withdrawal, in native units.
pub const MIN_WITHDRAWAL: u64 = 100_000_000;

/// Fee percentage installed by `initialize`.
pub const INITIAL_PLATFORM_FEE: u64 = 5;

/// Lowest settable platform fee percentage.
pub const MIN_PLATFORM_FEE: u64 = 1;

/// Highest settable platform fee percentage.
pub const MAX_PLATFORM_FEE: u64 = 15;

/// The singleton configuration record: global policy and the source of
/// campaign identifiers. Created once by the deployer and mutated
/// afterwards only by the current `platform_address`; never deleted.
#[derive(Clone, Copy, Debug, PartialEq, Eq, Structural)]
pub struct ProgramState {
    /// Guards against re-running setup.
    pub initialized: bool,
    /// Monotonically increasing; the source of campaign identifiers.
    pub campaign_count: u64,
    /// Integer percent taken from every withdrawal.
    pub platform_fee: u64,
    /// Recipient of the fee share; settable only by itself.
    pub platform_address: Identity,
}

impl ProgramState {
    /// Global policy invariant: once initialized, the platform fee stays
    /// within its allowed percentage band.
    pub open spec fn wf(self) -> bool {
        self.initialized ==> MIN_PLATFORM_FEE <= self.platform_fee <= MAX_PLATFORM_FEE
    }
}

/// One fundraising effort: its immutable creator and identifier, its
/// caller-editable presentation fields, and the counters that account for
/// every native unit it has ever custodied.
#[derive(Debug)]
pub struct Campaign {
    /// Unique identifier, assigned from the campaign counter at creation
    /// and never reused.
    pub cid: u64,
    /// Immutable after creation; the authorization anchor for updates,
    /// deletion and withdrawals.
    pub creator: Identity,
    pub title: String,
    pub description: String,
    pub image_url: String,
    /// Funding target in native units.
    pub goal: u64,
    /// Cumulative donations ever credited; monotonically non-decreasing.
    pub amount_raised: u64,
    /// Funds currently custodied: raised minus withdrawn.
    pub balance: u64,
    /// Count of donation events; also the freshness salt for donation
    /// receipt addresses.
    pub donors: u64,
    /// Count of withdrawal events; also the freshness salt for withdrawal
    /// receipt addresses.
    pub withdrawals: u64,
    /// Creation time, immutable.
    pub timestamp: u64,
    /// True from creation; the only allowed transition is to false.
    pub active: bool,
}

impl Campaign {
    /// Record invariant: the custodied balance never exceeds what was
    /// raised, the text fields fit their stored bounds, the identifier is
    /// a counter value, and the goal respects the creation floor.
    pub open spec fn wf(self) -> bool {
        &&& self.balance <= self.amount_raised
        &&& self.title@.len() <= MAX_TITLE_LEN
        &&& self.description@.len() <= MAX_DESCRIPTION_LEN
        &&& self.image_url@.len() <= MAX_IMAGE_URL_LEN
        &&& 1 <= self.cid
        &&& MIN_CREATION_GOAL <= self.goal
    }
}

/// A permanent receipt for one transfer event: created exactly once per
/// successful donation or withdrawal and never mutated or deleted.
#[derive(Clone, Copy, Debug, PartialEq, Eq, Structural)]
pub struct TransactionRecord {
    /// The full amount moved, in native units.
    pub amount: u64,
    /// The campaign the event belongs to.
    pub cid: u64,
    /// The donor, or the withdrawing creator.
    pub owner: Identity,
    /// When the event was recorded.
    pub timestamp: u64,
    /// True for a donation (funds entering custody), false for a
    /// withdrawal (funds leaving custody).
    pub credited: bool,
}

} // verus!

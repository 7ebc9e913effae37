use vstd::prelude::*;

use crate::errors::{ErrorCode, OpError};
use crate::identity::Identity;
use crate::instructions::{
    self, create_campaign_check, created_campaign, delete_campaign_check, donate_applied,
    donate_check, fee_portion, initialize_applied, initialize_check, update_campaign_check,
    update_platform_settings_check, withdraw_applied, withdraw_check, Payout,
};
use crate::states::{Campaign, ProgramState, TransactionRecord};

verus! {

/// Sum of the amounts of the withdrawal receipts recorded for campaign
/// `cid`: what has ever been moved out of that campaign's custody.
pub open spec fn withdrawn_for(recs: Seq<TransactionRecord>, cid: u64) -> int
    decreases recs.len(),
{
    if recs.len() == 0 {
        0
    } else {
        withdrawn_for(recs.drop_last(), cid) + if !recs.last().credited && recs.last().cid == cid {
            recs.last().amount as int
        } else {
            0
        }
    }
}

/// Appending one receipt adds its amount to the withdrawal sum of its own
/// campaign — when it is a withdrawal — and changes no other campaign's sum.
pub proof fn lemma_withdrawn_for_push(recs: Seq<TransactionRecord>, r: TransactionRecord, cid: u64)
    ensures
        withdrawn_for(recs.push(r), cid) == withdrawn_for(recs, cid) + if !r.credited && r.cid
            == cid {
            r.amount as int
        } else {
            0
        },
{
    assert(recs.push(r).drop_last() =~= recs);
    assert(recs.push(r).last() == r);
}

/// A campaign no receipt names has a withdrawal sum of zero.
pub proof fn lemma_withdrawn_for_absent(recs: Seq<TransactionRecord>, cid: u64)
    requires
        forall|j: int| 0 <= j < recs.len() ==> (#[trigger] recs[j]).cid != cid,
    ensures
        withdrawn_for(recs, cid) == 0,
    decreases recs.len(),
{
    if recs.len() > 0 {
        assert(recs.last() == recs[recs.len() - 1]);
        lemma_withdrawn_for_absent(recs.drop_last(), cid);
    }
}

/// The whole record store, as the host custodies it for this program: the
/// singleton configuration, every campaign keyed by its identifier, and the
/// append-only history of transfer receipts.
///
/// Campaign identifiers double as storage addresses: the campaign with
/// identifier `cid` sits at slot `cid - 1`, so every operation that takes a
/// caller-supplied identifier re-derives the slot from it and never trusts
/// a caller-supplied reference.
pub struct Ledger {
    pub state: ProgramState,
    pub campaigns: Vec<Campaign>,
    pub records: Vec<TransactionRecord>,
}

impl Ledger {
    /// The ledger-wide invariant, held at every observable point:
    /// the configuration is well formed; identifiers are the slot-derived
    /// counter values, so they are unique and strictly increasing; every
    /// campaign is well formed and its custodied balance is exactly what
    /// it raised minus what its recorded withdrawals moved out; every
    /// receipt names an existing campaign; and nothing precedes setup.
    pub open spec fn wf(self) -> bool {
        &&& self.state.wf()
        &&& self.campaigns@.len() == self.state.campaign_count
        &&& forall|i: int|
            0 <= i < self.campaigns@.len() ==> (#[trigger] self.campaigns@[i]).wf()
        &&& forall|i: int|
            0 <= i < self.campaigns@.len() ==> (#[trigger] self.campaigns@[i]).cid == i + 1
        &&& forall|i: int|
            0 <= i < self.campaigns@.len() ==> (#[trigger] self.campaigns@[i]).balance
                == self.campaigns@[i].amount_raised - withdrawn_for(
                self.records@,
                self.campaigns@[i].cid,
            )
        &&& forall|j: int|
            0 <= j < self.records@.len() ==> 1 <= (#[trigger] self.records@[j]).cid
                <= self.state.campaign_count
        &&& !self.state.initialized ==> self.campaigns@.len() == 0 && self.records@.len() == 0
    }

    /// An empty, not yet initialized record store, as the host hands it to
    /// the program before setup has run.
    pub fn new() -> (l: Ledger)
        ensures
            l.wf(),
            l.state == (ProgramState {
                initialized: false,
                campaign_count: 0,
                platform_fee: 0,
                platform_address: Identity { w0: 0, w1: 0, w2: 0, w3: 0 },
            }),
            l.campaigns@.len() == 0,
            l.records@.len() == 0,
    {
        Ledger {
            state: ProgramState {
                initialized: false,
                campaign_count: 0,
                platform_fee: 0,
                platform_address: Identity { w0: 0, w1: 0, w2: 0, w3: 0 },
            },
            campaigns: Vec::new(),
            records: Vec::new(),
        }
    }

    /// Runs setup against the store. Fails — whoever calls — once setup
    /// has run; otherwise installs the deployer as platform address.
    pub fn initialize(&mut self, deployer: Identity) -> (r: Result<(), ErrorCode>)
        requires
            old(self).wf(),
        ensures
            final(self).wf(),
            match r {
                Ok(()) => {
                    &&& initialize_check(old(self).state) is None
                    &&& final(self).state == initialize_applied(deployer)
                    &&& final(self).campaigns@ == old(self).campaigns@
                    &&& final(self).records@ == old(self).records@
                },
                Err(e) => {
                    &&& initialize_check(old(self).state) == Some(e)
                    &&& *final(self) == *old(self)
                },
            },
    {
        instructions::initialize(&mut self.state, deployer)
    }

    /// Registers a new campaign and stores it at the slot derived from the
    /// freshly assigned identifier. Setup must have run for the
    /// configuration record to exist at all.
    pub fn create_campaign(
        &mut self,
        creator: Identity,
        title: String,
        description: String,
        image_url: String,
        goal: u64,
        now: u64,
    ) -> (r: Result<u64, ErrorCode>)
        requires
            old(self).wf(),
            old(self).state.initialized,
            old(self).state.campaign_count < u64::MAX,
        ensures
            final(self).wf(),
            match r {
                Ok(cid) => {
                    &&& create_campaign_check(title@, description@, image_url@, goal) is None
                    &&& cid == old(self).state.campaign_count + 1
                    &&& final(self).state == (ProgramState {
                        campaign_count: cid,
                        ..old(self).state
                    })
                    &&& final(self).campaigns@ == old(self).campaigns@.push(
                        created_campaign(
                            old(self).state,
                            creator,
                            title,
                            description,
                            image_url,
                            goal,
                            now,
                        ),
                    )
                    &&& final(self).records@ == old(self).records@
                },
                Err(e) => {
                    &&& create_campaign_check(title@, description@, image_url@, goal) == Some(e)
                    &&& *final(self) == *old(self)
                },
            },
    {
        match instructions::create_campaign(
            &mut self.state,
            creator,
            title,
            description,
            image_url,
            goal,
            now,
        ) {
            Ok(c) => {
                let cid = c.cid;
                proof {
                    lemma_withdrawn_for_absent(self.records@, cid);
                }
                self.campaigns.push(c);
                Ok(cid)
            },
            Err(e) => Err(e),
        }
    }

    /// What `donate` rejects when aimed at `cid`: an identifier no slot
    /// answers to is a missing record, and an existing record applies its
    /// own checks.
    pub open spec fn donate_check_at(self, cid: u64, amount: u64) -> Option<ErrorCode> {
        if cid < 1 || cid > self.campaigns@.len() {
            Some(ErrorCode::CampaignNotFound)
        } else {
            donate_check(self.campaigns@[cid - 1], cid, amount)
        }
    }

    /// Credits a donation to the campaign stored under `cid` and appends
    /// its receipt. `transfer_ok` is the host's report on the native
    /// transfer of the donated funds; nothing commits without it.
    pub fn donate(
        &mut self,
        donor: Identity,
        cid: u64,
        amount: u64,
        now: u64,
        transfer_ok: bool,
    ) -> (r: Result<(), OpError>)
        requires
            old(self).wf(),
            1 <= cid <= old(self).campaigns@.len() ==> old(self).campaigns@[cid - 1].amount_raised
                + amount <= u64::MAX && old(self).campaigns@[cid - 1].donors < u64::MAX,
        ensures
            final(self).wf(),
            match r {
                Ok(()) => {
                    &&& old(self).donate_check_at(cid, amount) is None
                    &&& transfer_ok
                    &&& final(self).campaigns@ == old(self).campaigns@.update(
                        cid - 1,
                        donate_applied(old(self).campaigns@[cid - 1], amount),
                    )
                    &&& final(self).records@ == old(self).records@.push(
                        (TransactionRecord {
                            amount,
                            cid,
                            owner: donor,
                            timestamp: now,
                            credited: true,
                        }),
                    )
                    &&& final(self).state == old(self).state
                },
                Err(OpError::Rejected(e)) => {
                    &&& old(self).donate_check_at(cid, amount) == Some(e)
                    &&& final(self).campaigns@ == old(self).campaigns@
                    &&& final(self).records@ == old(self).records@
                    &&& final(self).state == old(self).state
                },
                Err(OpError::TransferFailed) => {
                    &&& old(self).donate_check_at(cid, amount) is None
                    &&& !transfer_ok
                    &&& final(self).campaigns@ == old(self).campaigns@
                    &&& final(self).records@ == old(self).records@
                    &&& final(self).state == old(self).state
                },
            },
    {
        if cid < 1 || cid > self.campaigns.len() as u64 {
            return Err(OpError::Rejected(ErrorCode::CampaignNotFound));
        }
        let idx: usize = (cid - 1) as usize;
        let mut c = self.campaigns.remove(idx);
        match instructions::donate(&mut c, donor, cid, amount, now, transfer_ok) {
            Ok(rec) => {
                self.campaigns.insert(idx, c);
                proof {
                    lemma_withdrawn_for_push(self.records@, rec, cid);
                    assert forall|k: u64| true implies withdrawn_for(
                        self.records@.push(rec),
                        k,
                    ) == withdrawn_for(self.records@, k) by {
                        lemma_withdrawn_for_push(self.records@, rec, k);
                    }
                    assert(self.campaigns@ =~= old(self).campaigns@.update(
                        cid - 1,
                        donate_applied(old(self).campaigns@[cid - 1], amount),
                    ));
                }
                self.records.push(rec);
                Ok(())
            },
            Err(e) => {
                self.campaigns.insert(idx, c);
                proof {
                    assert(self.campaigns@ =~= old(self).campaigns@);
                }
                Err(e)
            },
        }
    }

    /// What `withdraw` rejects when aimed at `cid`.
    pub open spec fn withdraw_check_at(
        self,
        caller: Identity,
        cid: u64,
        amount: u64,
        fee_recipient: Identity,
        held: u64,
        reserve: u64,
    ) -> Option<ErrorCode> {
        if cid < 1 || cid > self.campaigns@.len() {
            Some(ErrorCode::CampaignNotFound)
        } else {
            withdraw_check(
                self.campaigns@[cid - 1],
                caller,
                cid,
                amount,
                fee_recipient,
                self.state.platform_address,
                held,
                reserve,
            )
        }
    }

    /// Debits a withdrawal from the campaign stored under `cid`, appends
    /// its receipt, and returns the payout the host must perform. `held`
    /// and `reserve` are the host's report of the record's actually held
    /// funds and of the custodial reserve it must keep.
    pub fn withdraw(
        &mut self,
        caller: Identity,
        cid: u64,
        amount: u64,
        fee_recipient: Identity,
        held: u64,
        reserve: u64,
        now: u64,
    ) -> (r: Result<Payout, ErrorCode>)
        requires
            old(self).wf(),
            old(self).state.initialized,
            held >= reserve,
            1 <= cid <= old(self).campaigns@.len() ==> old(self).campaigns@[cid - 1].withdrawals
                < u64::MAX,
            old(self).withdraw_check_at(caller, cid, amount, fee_recipient, held, reserve) is None
                ==> amount * old(self).state.platform_fee <= u64::MAX,
        ensures
            final(self).wf(),
            match r {
                Ok(pay) => {
                    &&& old(self).withdraw_check_at(
                        caller,
                        cid,
                        amount,
                        fee_recipient,
                        held,
                        reserve,
                    ) is None
                    &&& pay.platform_fee_amount == fee_portion(
                        amount,
                        old(self).state.platform_fee,
                    )
                    &&& pay.creator_amount == amount - fee_portion(
                        amount,
                        old(self).state.platform_fee,
                    )
                    &&& pay.creator_amount + pay.platform_fee_amount == amount
                    &&& final(self).campaigns@ == old(self).campaigns@.update(
                        cid - 1,
                        withdraw_applied(old(self).campaigns@[cid - 1], amount),
                    )
                    &&& final(self).records@ == old(self).records@.push(
                        (TransactionRecord {
                            amount,
                            cid,
                            owner: caller,
                            timestamp: now,
                            credited: false,
                        }),
                    )
                    &&& final(self).state == old(self).state
                },
                Err(e) => {
                    &&& old(self).withdraw_check_at(
                        caller,
                        cid,
                        amount,
                        fee_recipient,
                        held,
                        reserve,
                    ) == Some(e)
                    &&& final(self).campaigns@ == old(self).campaigns@
                    &&& final(self).records@ == old(self).records@
                    &&& final(self).state == old(self).state
                },
            },
    {
        if cid < 1 || cid > self.campaigns.len() as u64 {
            return Err(ErrorCode::CampaignNotFound);
        }
        let idx: usize = (cid - 1) as usize;
        let mut c = self.campaigns.remove(idx);
        match instructions::withdraw(
            &mut c,
            &self.state,
            caller,
            cid,
            amount,
            fee_recipient,
            held,
            reserve,
            now,
        ) {
            Ok((rec, pay)) => {
                self.campaigns.insert(idx, c);
                proof {
                    assert forall|k: u64| true implies withdrawn_for(self.records@.push(rec), k)
                        == withdrawn_for(self.records@, k) + if k == cid {
                        amount as int
                    } else {
                        0
                    } by {
                        lemma_withdrawn_for_push(self.records@, rec, k);
                    }
                    assert(self.campaigns@ =~= old(self).campaigns@.update(
                        cid - 1,
                        withdraw_applied(old(self).campaigns@[cid - 1], amount),
                    ));
                }
                self.records.push(rec);
                Ok(pay)
            },
            Err(e) => {
                self.campaigns.insert(idx, c);
                proof {
                    assert(self.campaigns@ =~= old(self).campaigns@);
                }
                Err(e)
            },
        }
    }

    /// What `update_campaign` rejects when aimed at `cid`.
    pub open spec fn update_campaign_check_at(
        self,
        caller: Identity,
        cid: u64,
        title: Seq<char>,
        description: Seq<char>,
        image_url: Seq<char>,
        goal: u64,
    ) -> Option<ErrorCode> {
        if cid < 1 || cid > self.campaigns@.len() {
            Some(ErrorCode::CampaignNotFound)
        } else {
            update_campaign_check(
                self.campaigns@[cid - 1],
                caller,
                cid,
                title,
                description,
                image_url,
                goal,
            )
        }
    }

    /// Replaces the presentation fields and goal of the campaign stored
    /// under `cid`, for its creator only.
    pub fn update_campaign(
        &mut self,
        caller: Identity,
        cid: u64,
        title: String,
        description: String,
        image_url: String,
        goal: u64,
    ) -> (r: Result<(), ErrorCode>)
        requires
            old(self).wf(),
        ensures
            final(self).wf(),
            match r {
                Ok(()) => {
                    &&& old(self).update_campaign_check_at(
                        caller,
                        cid,
                        title@,
                        description@,
                        image_url@,
                        goal,
                    ) is None
                    &&& final(self).campaigns@ == old(self).campaigns@.update(
                        cid - 1,
                        (Campaign {
                            title,
                            description,
                            image_url,
                            goal,
                            ..old(self).campaigns@[cid - 1]
                        }),
                    )
                    &&& final(self).records@ == old(self).records@
                    &&& final(self).state == old(self).state
                },
                Err(e) => {
                    &&& old(self).update_campaign_check_at(
                        caller,
                        cid,
                        title@,
                        description@,
                        image_url@,
                        goal,
                    ) == Some(e)
                    &&& final(self).campaigns@ == old(self).campaigns@
                    &&& final(self).records@ == old(self).records@
                    &&& final(self).state == old(self).state
                },
            },
    {
        if cid < 1 || cid > self.campaigns.len() as u64 {
            return Err(ErrorCode::CampaignNotFound);
        }
        let idx: usize = (cid - 1) as usize;
        let mut c = self.campaigns.remove(idx);
        match instructions::update_campaign(
            &mut c,
            caller,
            cid,
            title,
            description,
            image_url,
            goal,
        ) {
            Ok(()) => {
                self.campaigns.insert(idx, c);
                proof {
                    assert(self.campaigns@ =~= old(self).campaigns@.update(
                        cid - 1,
                        (Campaign {
                            title,
                            description,
                            image_url,
                            goal,
                            ..old(self).campaigns@[cid - 1]
                        }),
                    ));
                }
                Ok(())
            },
            Err(e) => {
                self.campaigns.insert(idx, c);
                proof {
                    assert(self.campaigns@ =~= old(self).campaigns@);
                }
                Err(e)
            },
        }
    }

    /// What `delete_campaign` rejects when aimed at `cid`.
    pub open spec fn delete_campaign_check_at(self, caller: Identity, cid: u64) -> Option<
        ErrorCode,
    > {
        if cid < 1 || cid > self.campaigns@.len() {
            Some(ErrorCode::CampaignNotFound)
        } else {
            delete_campaign_check(self.campaigns@[cid - 1], caller, cid)
        }
    }

    /// Soft-deletes the campaign stored under `cid`, for its creator only;
    /// rejected — not a no-op — when the campaign is already inactive.
    pub fn delete_campaign(&mut self, caller: Identity, cid: u64) -> (r: Result<(), ErrorCode>)
        requires
            old(self).wf(),
        ensures
            final(self).wf(),
            match r {
                Ok(()) => {
                    &&& old(self).delete_campaign_check_at(caller, cid) is None
                    &&& final(self).campaigns@ == old(self).campaigns@.update(
                        cid - 1,
                        (Campaign { active: false, ..old(self).campaigns@[cid - 1] }),
                    )
                    &&& final(self).records@ == old(self).records@
                    &&& final(self).state == old(self).state
                },
                Err(e) => {
                    &&& old(self).delete_campaign_check_at(caller, cid) == Some(e)
                    &&& final(self).campaigns@ == old(self).campaigns@
                    &&& final(self).records@ == old(self).records@
                    &&& final(self).state == old(self).state
                },
            },
    {
        if cid < 1 || cid > self.campaigns.len() as u64 {
            return Err(ErrorCode::CampaignNotFound);
        }
        let idx: usize = (cid - 1) as usize;
        let mut c = self.campaigns.remove(idx);
        match instructions::delete_campaign(&mut c, caller, cid) {
            Ok(()) => {
                self.campaigns.insert(idx, c);
                proof {
                    assert(self.campaigns@ =~= old(self).campaigns@.update(
                        cid - 1,
                        (Campaign { active: false, ..old(self).campaigns@[cid - 1] }),
                    ));
                }
                Ok(())
            },
            Err(e) => {
                self.campaigns.insert(idx, c);
                proof {
                    assert(self.campaigns@ =~= old(self).campaigns@);
                }
                Err(e)
            },
        }
    }

    /// Sets the platform fee percentage, for the current platform address
    /// only.
    pub fn update_platform_settings(&mut self, caller: Identity, new_platform_fee: u64) -> (r:
        Result<(), ErrorCode>)
        requires
            old(self).wf(),
        ensures
            final(self).wf(),
            match r {
                Ok(()) => {
                    &&& update_platform_settings_check(
                        old(self).state,
                        caller,
                        new_platform_fee,
                    ) is None
                    &&& final(self).state == (ProgramState {
                        platform_fee: new_platform_fee,
                        ..old(self).state
                    })
                    &&& final(self).campaigns@ == old(self).campaigns@
                    &&& final(self).records@ == old(self).records@
                },
                Err(e) => {
                    &&& update_platform_settings_check(old(self).state, caller, new_platform_fee)
                        == Some(e)
                    &&& *final(self) == *old(self)
                },
            },
    {
        instructions::update_platform_settings(&mut self.state, caller, new_platform_fee)
    }
}

} // verus!

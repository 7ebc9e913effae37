use vstd::prelude::*;
use vstd::string::StrSliceExecFns;

use crate::errors::{ErrorCode, OpError};
use crate::identity::Identity;
use crate::states::{
    Campaign, ProgramState, TransactionRecord, INITIAL_PLATFORM_FEE, MAX_DESCRIPTION_LEN,
    MAX_IMAGE_URL_LEN, MAX_PLATFORM_FEE, MAX_TITLE_LEN, MIN_CREATION_GOAL, MIN_DONATION,
    MIN_PLATFORM_FEE, MIN_UPDATED_GOAL, MIN_WITHDRAWAL,
};

verus! {

/// The two transfers the host must perform to pay out a successful
/// withdrawal: the creator's share and the platform's fee share.
#[derive(Clone, Copy, Debug, PartialEq, Eq, Structural)]
pub struct Payout {
    /// What goes to the campaign's creator.
    pub creator_amount: u64,
    /// What goes to the configured platform address.
    pub platform_fee_amount: u64,
}

/// Why `initialize` rejects a state, if it does: setup may only run once.
pub open spec fn initialize_check(state: ProgramState) -> Option<ErrorCode> {
    if state.initialized {
        Some(ErrorCode::AlreadyInitialized)
    } else {
        None
    }
}

/// The configuration installed by a successful `initialize`.
pub open spec fn initialize_applied(deployer: Identity) -> ProgramState {
    ProgramState {
        initialized: true,
        campaign_count: 0,
        platform_fee: INITIAL_PLATFORM_FEE,
        platform_address: deployer,
    }
}

/// Sets up the singleton configuration record: zero campaigns, the initial
/// fee percentage, and the deployer as the fee recipient. Always fails once
/// the record is initialized, whoever calls.
pub fn initialize(state: &mut ProgramState, deployer: Identity) -> (r: Result<(), ErrorCode>)
    requires
        old(state).wf(),
    ensures
        final(state).wf(),
        match r {
            Ok(()) => {
                &&& initialize_check(*old(state)) is None
                &&& *final(state) == initialize_applied(deployer)
            },
            Err(e) => {
                &&& initialize_check(*old(state)) == Some(e)
                &&& *final(state) == *old(state)
            },
        },
{
    if state.initialized {
        return Err(ErrorCode::AlreadyInitialized);
    }
    state.campaign_count = 0;
    state.platform_fee = INITIAL_PLATFORM_FEE;
    state.platform_address = deployer;
    state.initialized = true;
    Ok(())
}

/// Why `create_campaign` rejects its inputs, if it does: the first violated
/// bound, checked in the order title, description, image URL, goal.
pub open spec fn create_campaign_check(
    title: Seq<char>,
    description: Seq<char>,
    image_url: Seq<char>,
    goal: u64,
) -> Option<ErrorCode> {
    if title.len() > MAX_TITLE_LEN {
        Some(ErrorCode::TitleTooLong)
    } else if description.len() > MAX_DESCRIPTION_LEN {
        Some(ErrorCode::DescriptionTooLong)
    } else if image_url.len() > MAX_IMAGE_URL_LEN {
        Some(ErrorCode::ImageUrlTooLong)
    } else if goal < MIN_CREATION_GOAL {
        Some(ErrorCode::InvalidGoalAmount)
    } else {
        None
    }
}

/// The record a successful `create_campaign` allocates: the next counter
/// value as its identifier, the caller as its immutable creator, all
/// accounting counters at zero, and the campaign active.
pub open spec fn created_campaign(
    state: ProgramState,
    creator: Identity,
    title: String,
    description: String,
    image_url: String,
    goal: u64,
    now: u64,
) -> Campaign {
    Campaign {
        cid: (state.campaign_count + 1) as u64,
        creator,
        title,
        description,
        image_url,
        goal,
        amount_raised: 0,
        balance: 0,
        donors: 0,
        withdrawals: 0,
        timestamp: now,
        active: true,
    }
}

/// Registers a new campaign: validates the field bounds and the goal floor,
/// increments the global campaign counter, and returns the record to be
/// stored at the address derived from the new identifier.
pub fn create_campaign(
    state: &mut ProgramState,
    creator: Identity,
    title: String,
    description: String,
    image_url: String,
    goal: u64,
    now: u64,
) -> (r: Result<Campaign, ErrorCode>)
    requires
        old(state).campaign_count < u64::MAX,
    ensures
        match r {
            Ok(c) => {
                &&& create_campaign_check(title@, description@, image_url@, goal) is None
                &&& *final(state) == (ProgramState {
                    campaign_count: (old(state).campaign_count + 1) as u64,
                    ..*old(state)
                })
                &&& c == created_campaign(
                    *old(state),
                    creator,
                    title,
                    description,
                    image_url,
                    goal,
                    now,
                )
                &&& c.wf()
            },
            Err(e) => {
                &&& create_campaign_check(title@, description@, image_url@, goal) == Some(e)
                &&& *final(state) == *old(state)
            },
        },
{
    if title.as_str().unicode_len() > MAX_TITLE_LEN {
        return Err(ErrorCode::TitleTooLong);
    }
    if description.as_str().unicode_len() > MAX_DESCRIPTION_LEN {
        return Err(ErrorCode::DescriptionTooLong);
    }
    if image_url.as_str().unicode_len() > MAX_IMAGE_URL_LEN {
        return Err(ErrorCode::ImageUrlTooLong);
    }
    if goal < MIN_CREATION_GOAL {
        return Err(ErrorCode::InvalidGoalAmount);
    }
    state.campaign_count = state.campaign_count + 1;
    Ok(Campaign {
        cid: state.campaign_count,
        creator,
        title,
        description,
        image_url,
        goal,
        amount_raised: 0,
        balance: 0,
        donors: 0,
        withdrawals: 0,
        timestamp: now,
        active: true,
    })
}

/// Why `update_campaign` rejects its inputs, if it does: authorization and
/// identifier first, then the same field bounds as creation, but with the
/// tenfold goal floor.
pub open spec fn update_campaign_check(
    c: Campaign,
    caller: Identity,
    cid: u64,
    title: Seq<char>,
    description: Seq<char>,
    image_url: Seq<char>,
    goal: u64,
) -> Option<ErrorCode> {
    if c.creator != caller {
        Some(ErrorCode::Unauthorized)
    } else if c.cid != cid {
        Some(ErrorCode::CampaignNotFound)
    } else if title.len() > MAX_TITLE_LEN {
        Some(ErrorCode::TitleTooLong)
    } else if description.len() > MAX_DESCRIPTION_LEN {
        Some(ErrorCode::DescriptionTooLong)
    } else if image_url.len() > MAX_IMAGE_URL_LEN {
        Some(ErrorCode::ImageUrlTooLong)
    } else if goal < MIN_UPDATED_GOAL {
        Some(ErrorCode::InvalidGoalAmount)
    } else {
        None
    }
}

/// Replaces a campaign's presentation fields and goal. Only the creator may
/// update, only with the supplied identifier matching the record, and every
/// other field — including `active` — is left untouched.
pub fn update_campaign(
    campaign: &mut Campaign,
    caller: Identity,
    cid: u64,
    title: String,
    description: String,
    image_url: String,
    goal: u64,
) -> (r: Result<(), ErrorCode>)
    requires
        old(campaign).wf(),
    ensures
        final(campaign).wf(),
        match r {
            Ok(()) => {
                &&& update_campaign_check(
                    *old(campaign),
                    caller,
                    cid,
                    title@,
                    description@,
                    image_url@,
                    goal,
                ) is None
                &&& *final(campaign) == (Campaign {
                    title,
                    description,
                    image_url,
                    goal,
                    ..*old(campaign)
                })
            },
            Err(e) => {
                &&& update_campaign_check(
                    *old(campaign),
                    caller,
                    cid,
                    title@,
                    description@,
                    image_url@,
                    goal,
                ) == Some(e)
                &&& *final(campaign) == *old(campaign)
            },
        },
{
    if campaign.creator != caller {
        return Err(ErrorCode::Unauthorized);
    }
    if campaign.cid != cid {
        return Err(ErrorCode::CampaignNotFound);
    }
    if title.as_str().unicode_len() > MAX_TITLE_LEN {
        return Err(ErrorCode::TitleTooLong);
    }
    if description.as_str().unicode_len() > MAX_DESCRIPTION_LEN {
        return Err(ErrorCode::DescriptionTooLong);
    }
    if image_url.as_str().unicode_len() > MAX_IMAGE_URL_LEN {
        return Err(ErrorCode::ImageUrlTooLong);
    }
    if goal < MIN_UPDATED_GOAL {
        return Err(ErrorCode::InvalidGoalAmount);
    }
    campaign.title = title;
    campaign.description = description;
    campaign.image_url = image_url;
    campaign.goal = goal;
    Ok(())
}

/// Why `delete_campaign` rejects its inputs, if it does: deleting an
/// already-inactive campaign is rejected, not a no-op.
pub open spec fn delete_campaign_check(c: Campaign, caller: Identity, cid: u64) -> Option<
    ErrorCode,
> {
    if c.creator != caller {
        Some(ErrorCode::Unauthorized)
    } else if c.cid != cid {
        Some(ErrorCode::CampaignNotFound)
    } else if !c.active {
        Some(ErrorCode::InactiveCampaign)
    } else {
        None
    }
}

/// Soft-deletes a campaign: flips `active` to false, irreversibly, and
/// touches nothing else. The balance stays custodied and remains
/// withdrawable by the creator, since `withdraw` does not check `active`.
pub fn delete_campaign(campaign: &mut Campaign, caller: Identity, cid: u64) -> (r: Result<
    (),
    ErrorCode,
>)
    requires
        old(campaign).wf(),
    ensures
        final(campaign).wf(),
        match r {
            Ok(()) => {
                &&& delete_campaign_check(*old(campaign), caller, cid) is None
                &&& *final(campaign) == (Campaign { active: false, ..*old(campaign) })
            },
            Err(e) => {
                &&& delete_campaign_check(*old(campaign), caller, cid) == Some(e)
                &&& *final(campaign) == *old(campaign)
            },
        },
{
    if campaign.creator != caller {
        return Err(ErrorCode::Unauthorized);
    }
    if campaign.cid != cid {
        return Err(ErrorCode::CampaignNotFound);
    }
    if !campaign.active {
        return Err(ErrorCode::InactiveCampaign);
    }
    campaign.active = false;
    Ok(())
}

/// Why `donate` rejects its inputs, if it does. A below-minimum donation is
/// reported with the goal-amount code; and a campaign whose
/// goal is already reached or exceeded accepts no further donation, of any
/// amount.
pub open spec fn donate_check(c: Campaign, cid: u64, amount: u64) -> Option<ErrorCode> {
    if c.cid != cid {
        Some(ErrorCode::CampaignNotFound)
    } else if !c.active {
        Some(ErrorCode::InactiveCampaign)
    } else if amount < MIN_DONATION {
        Some(ErrorCode::InvalidGoalAmount)
    } else if c.amount_raised >= c.goal {
        Some(ErrorCode::CampaignGoalActualized)
    } else {
        None
    }
}

/// The campaign after a donation of `amount` is credited: both the
/// cumulative total and the custodied balance grow by the full amount, and
/// the donation counter advances.
pub open spec fn donate_applied(c: Campaign, amount: u64) -> Campaign {
    Campaign {
        amount_raised: (c.amount_raised + amount) as u64,
        balance: (c.balance + amount) as u64,
        donors: (c.donors + 1) as u64,
        ..c
    }
}

/// Credits a donation. `transfer_ok` is the host's report on the native
/// transfer of `amount` from the donor into campaign custody; it is
/// consulted only after every validation passes, and only a successful
/// transfer commits any mutation. The returned receipt is the record to be
/// stored at the address derived from the donor, the campaign, and the
/// pre-increment donation counter.
pub fn donate(
    campaign: &mut Campaign,
    donor: Identity,
    cid: u64,
    amount: u64,
    now: u64,
    transfer_ok: bool,
) -> (r: Result<TransactionRecord, OpError>)
    requires
        old(campaign).wf(),
        old(campaign).amount_raised + amount <= u64::MAX,
        old(campaign).donors < u64::MAX,
    ensures
        final(campaign).wf(),
        match r {
            Ok(rec) => {
                &&& donate_check(*old(campaign), cid, amount) is None
                &&& transfer_ok
                &&& *final(campaign) == donate_applied(*old(campaign), amount)
                &&& rec == (TransactionRecord {
                    amount,
                    cid,
                    owner: donor,
                    timestamp: now,
                    credited: true,
                })
            },
            Err(OpError::Rejected(e)) => {
                &&& donate_check(*old(campaign), cid, amount) == Some(e)
                &&& *final(campaign) == *old(campaign)
            },
            Err(OpError::TransferFailed) => {
                &&& donate_check(*old(campaign), cid, amount) is None
                &&& !transfer_ok
                &&& *final(campaign) == *old(campaign)
            },
        },
{
    if campaign.cid != cid {
        return Err(OpError::Rejected(ErrorCode::CampaignNotFound));
    }
    if !campaign.active {
        return Err(OpError::Rejected(ErrorCode::InactiveCampaign));
    }
    if amount < MIN_DONATION {
        return Err(OpError::Rejected(ErrorCode::InvalidGoalAmount));
    }
    if campaign.amount_raised >= campaign.goal {
        return Err(OpError::Rejected(ErrorCode::CampaignGoalActualized));
    }
    if !transfer_ok {
        return Err(OpError::TransferFailed);
    }
    campaign.amount_raised = campaign.amount_raised + amount;
    campaign.balance = campaign.balance + amount;
    campaign.donors = campaign.donors + 1;
    Ok(TransactionRecord { amount, cid, owner: donor, timestamp: now, credited: true })
}

/// The platform's share of a withdrawal of `amount` under the given integer
/// fee percentage: rounded down, so the creator's share absorbs the
/// remainder and the two shares always sum to the amount exactly.
pub open spec fn fee_portion(amount: u64, fee_percent: u64) -> int {
    (amount * fee_percent) / 100
}

/// Why `withdraw` rejects its inputs, if it does. A withdrawal exceeding
/// the tracked balance is reported with the goal-reached code.
/// The final check guards the record's actually held funds: no withdrawal
/// may dip into the custodial reserve the host requires the record to keep.
pub open spec fn withdraw_check(
    c: Campaign,
    caller: Identity,
    cid: u64,
    amount: u64,
    fee_recipient: Identity,
    platform_address: Identity,
    held: u64,
    reserve: u64,
) -> Option<ErrorCode> {
    if c.cid != cid {
        Some(ErrorCode::CampaignNotFound)
    } else if c.creator != caller {
        Some(ErrorCode::Unauthorized)
    } else if amount < MIN_WITHDRAWAL {
        Some(ErrorCode::InvalidWithdrawalAmount)
    } else if amount > c.balance {
        Some(ErrorCode::CampaignGoalActualized)
    } else if fee_recipient != platform_address {
        Some(ErrorCode::InvalidPlatformAddress)
    } else if amount > held - reserve {
        Some(ErrorCode::InsufficientFund)
    } else {
        None
    }
}

/// The campaign after a withdrawal of `amount` is debited: the custodied
/// balance shrinks by the full requested amount — the fee is paid out of
/// custody, not added on top — and the withdrawal counter advances.
pub open spec fn withdraw_applied(c: Campaign, amount: u64) -> Campaign {
    Campaign { balance: (c.balance - amount) as u64, withdrawals: (c.withdrawals + 1) as u64, ..c }
}

/// Debits a withdrawal. Only the creator may withdraw, only up to the
/// tracked balance and the record's spendable surplus (`held` funds minus
/// the host's `reserve`), and only naming the configured platform address
/// as fee recipient. The returned payout names the two transfers the host
/// must perform; the receipt is the record to be stored at the address
/// derived from the creator, the campaign, and the pre-increment
/// withdrawal counter.
///
/// The configuration record exists only once `initialize` has run, so a
/// well-formed initialized state — and with it a fee percentage within its
/// band — is required rather than checked.
pub fn withdraw(
    campaign: &mut Campaign,
    state: &ProgramState,
    caller: Identity,
    cid: u64,
    amount: u64,
    fee_recipient: Identity,
    held: u64,
    reserve: u64,
    now: u64,
) -> (r: Result<(TransactionRecord, Payout), ErrorCode>)
    requires
        old(campaign).wf(),
        old(campaign).withdrawals < u64::MAX,
        state.initialized,
        state.wf(),
        held >= reserve,
        withdraw_check(
            *old(campaign),
            caller,
            cid,
            amount,
            fee_recipient,
            state.platform_address,
            held,
            reserve,
        ) is None ==> amount * state.platform_fee <= u64::MAX,
    ensures
        final(campaign).wf(),
        match r {
            Ok((rec, pay)) => {
                &&& withdraw_check(
                    *old(campaign),
                    caller,
                    cid,
                    amount,
                    fee_recipient,
                    state.platform_address,
                    held,
                    reserve,
                ) is None
                &&& pay.platform_fee_amount == fee_portion(amount, state.platform_fee)
                &&& pay.creator_amount == amount - fee_portion(amount, state.platform_fee)
                &&& pay.creator_amount + pay.platform_fee_amount == amount
                &&& *final(campaign) == withdraw_applied(*old(campaign), amount)
                &&& rec == (TransactionRecord {
                    amount,
                    cid,
                    owner: caller,
                    timestamp: now,
                    credited: false,
                })
            },
            Err(e) => {
                &&& withdraw_check(
                    *old(campaign),
                    caller,
                    cid,
                    amount,
                    fee_recipient,
                    state.platform_address,
                    held,
                    reserve,
                ) == Some(e)
                &&& *final(campaign) == *old(campaign)
            },
        },
{
    if campaign.cid != cid {
        return Err(ErrorCode::CampaignNotFound);
    }
    if campaign.creator != caller {
        return Err(ErrorCode::Unauthorized);
    }
    if amount < MIN_WITHDRAWAL {
        return Err(ErrorCode::InvalidWithdrawalAmount);
    }
    if amount > campaign.balance {
        return Err(ErrorCode::CampaignGoalActualized);
    }
    if fee_recipient != state.platform_address {
        return Err(ErrorCode::InvalidPlatformAddress);
    }
    if amount > held - reserve {
        return Err(ErrorCode::InsufficientFund);
    }
    let platform_fee_amount: u64 = amount * state.platform_fee / 100;
    proof {
        assert(amount * state.platform_fee / 100 <= amount) by (nonlinear_arith)
            requires
                state.platform_fee <= 100,
        ;
    }
    let creator_amount: u64 = amount - platform_fee_amount;
    campaign.withdrawals = campaign.withdrawals + 1;
    campaign.balance = campaign.balance - amount;
    Ok(
        (
            TransactionRecord { amount, cid, owner: caller, timestamp: now, credited: false },
            Payout { creator_amount, platform_fee_amount },
        ),
    )
}

/// Why `update_platform_settings` rejects its inputs, if it does: only the
/// current platform address may set the fee, and only within its band.
pub open spec fn update_platform_settings_check(
    state: ProgramState,
    caller: Identity,
    new_platform_fee: u64,
) -> Option<ErrorCode> {
    if caller != state.platform_address {
        Some(ErrorCode::Unauthorized)
    } else if new_platform_fee < MIN_PLATFORM_FEE || new_platform_fee > MAX_PLATFORM_FEE {
        Some(ErrorCode::InvalidPlatformFee)
    } else {
        None
    }
}

/// Sets the platform fee percentage. No other field changes; transferring
/// ownership of the platform address is out of this operation's scope.
pub fn update_platform_settings(
    state: &mut ProgramState,
    caller: Identity,
    new_platform_fee: u64,
) -> (r: Result<(), ErrorCode>)
    requires
        old(state).wf(),
    ensures
        final(state).wf(),
        match r {
            Ok(()) => {
                &&& update_platform_settings_check(*old(state), caller, new_platform_fee) is None
                &&& *final(state) == (ProgramState {
                    platform_fee: new_platform_fee,
                    ..*old(state)
                })
            },
            Err(e) => {
                &&& update_platform_settings_check(*old(state), caller, new_platform_fee) == Some(
                    e,
                )
                &&& *final(state) == *old(state)
            },
        },
{
    if caller != state.platform_address {
        return Err(ErrorCode::Unauthorized);
    }
    if new_platform_fee < MIN_PLATFORM_FEE || new_platform_fee > MAX_PLATFORM_FEE {
        return Err(ErrorCode::InvalidPlatformFee);
    }
    state.platform_fee = new_platform_fee;
    Ok(())
}

} // verus!

use vstd::prelude::*;

use crate::errors::ErrorCode;
use crate::identity::Identity;
use crate::instructions::{
    donate_check, fee_portion, initialize_applied, initialize_check, withdraw_check,
};
use crate::ledger::{withdrawn_for, Ledger};
use crate::states::{Campaign, ProgramState};

verus! {

/// Fund-custody accounting: in a well-formed ledger, every campaign's
/// custodied balance is exactly what it raised minus the sum of the
/// withdrawal amounts recorded for it. Every ledger operation keeps the
/// ledger well formed, so this holds at every observable point.
pub proof fn lemma_balance_accounting(l: Ledger, i: int)
    requires
        l.wf(),
        0 <= i < l.campaigns@.len(),
    ensures
        l.campaigns@[i].balance == l.campaigns@[i].amount_raised - withdrawn_for(
            l.records@,
            l.campaigns@[i].cid,
        ),
{
}

/// Identifier freshness: campaigns in a well-formed ledger carry strictly
/// increasing identifiers in storage order, so no two campaigns — in
/// particular no two produced by sequential creations — share one, and no
/// identifier is ever reused.
pub proof fn lemma_cids_strictly_increasing(l: Ledger, i: int, j: int)
    requires
        l.wf(),
        0 <= i < j < l.campaigns@.len(),
    ensures
        l.campaigns@[i].cid < l.campaigns@[j].cid,
{
}

/// A reached goal blocks donations: once a campaign has raised at least its
/// goal, a donation of any amount, against any supplied identifier, is
/// rejected.
pub proof fn lemma_goal_reached_blocks_donation(c: Campaign, cid: u64, amount: u64)
    requires
        c.amount_raised >= c.goal,
    ensures
        donate_check(c, cid, amount) is Some,
{
}

/// Withdrawal authorization: a withdrawal requested by anyone but the
/// campaign's creator — with the identifier naming the campaign, as the
/// host's address derivation guarantees — is rejected as unauthorized,
/// whatever the other arguments are. Together with `withdraw`'s
/// postcondition on rejection, the campaign is left byte-for-byte
/// unchanged.
pub proof fn lemma_withdraw_unauthorized(
    c: Campaign,
    caller: Identity,
    amount: u64,
    fee_recipient: Identity,
    platform_address: Identity,
    held: u64,
    reserve: u64,
)
    requires
        caller != c.creator,
    ensures
        withdraw_check(c, caller, c.cid, amount, fee_recipient, platform_address, held, reserve)
            == Some(ErrorCode::Unauthorized),
{
}

/// No rounding leak: the platform's rounded-down share never exceeds the
/// withdrawn amount, and the two shares of a payout sum to the withdrawn
/// amount exactly.
pub proof fn lemma_fee_split_exact(amount: u64, fee_percent: u64)
    requires
        fee_percent <= 100,
    ensures
        0 <= fee_portion(amount, fee_percent) <= amount,
        fee_portion(amount, fee_percent) + (amount - fee_portion(amount, fee_percent)) == amount,
{
    assert(amount * fee_percent / 100 <= amount) by (nonlinear_arith)
        requires
            fee_percent <= 100,
    ;
    assert(amount * fee_percent / 100 >= 0) by (nonlinear_arith);
}

/// Setup runs once: a state that accepts `initialize` rejects every later
/// `initialize`, whoever the first or the second caller is — the check
/// reads nothing but the `initialized` flag the first call sets.
pub proof fn lemma_initialize_once(state: ProgramState, deployer: Identity)
    requires
        initialize_check(state) is None,
    ensures
        initialize_check(initialize_applied(deployer)) == Some(ErrorCode::AlreadyInitialized),
{
}

} // verus!

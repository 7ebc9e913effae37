use solfund::errors::{ErrorCode, OpError};
use solfund::identity::Identity;
use solfund::ledger::Ledger;

fn ident(n: u64) -> Identity {
    Identity { w0: n, w1: 0, w2: 0, w3: 0 }
}

fn funded_ledger() -> Ledger {
    let mut l = Ledger::new();
    l.initialize(ident(1)).unwrap();
    l.create_campaign(
        ident(2),
        "Clean water".to_string(),
        "Wells for the valley".to_string(),
        "https://example.org/wells.png".to_string(),
        5_000_000_000,
        100,
    )
    .unwrap();
    l.donate(ident(5), 1, 2_000_000_000, 101, true).unwrap();
    l
}

/// The recorded withdrawal total for one campaign: the sum every
/// campaign's balance is checked against.
fn recorded_withdrawals(l: &Ledger, cid: u64) -> u64 {
    l.records
        .iter()
        .filter(|r| !r.credited && r.cid == cid)
        .map(|r| r.amount)
        .sum()
}

#[test]
fn ledger_starts_uninitialized_and_empty() {
    let l = Ledger::new();
    assert!(!l.state.initialized);
    assert_eq!(l.state.campaign_count, 0);
    assert_eq!(l.campaigns.len(), 0);
    assert_eq!(l.records.len(), 0);
}

#[test]
fn ledger_initialize_twice_fails() {
    let mut l = Ledger::new();
    assert_eq!(l.initialize(ident(1)), Ok(()));
    assert_eq!(l.initialize(ident(2)), Err(ErrorCode::AlreadyInitialized));
    assert_eq!(l.state.platform_address, ident(1));
}

#[test]
fn ledger_create_assigns_fresh_increasing_cids() {
    let mut l = Ledger::new();
    l.initialize(ident(1)).unwrap();
    let first = l
        .create_campaign(
            ident(2),
            "a".to_string(),
            "d".to_string(),
            "u".to_string(),
            100_000_000,
            10,
        )
        .unwrap();
    let second = l
        .create_campaign(
            ident(3),
            "b".to_string(),
            "d".to_string(),
            "u".to_string(),
            100_000_000,
            11,
        )
        .unwrap();
    assert_eq!(first, 1);
    assert_eq!(second, 2);
    assert!(first < second);
    assert_eq!(l.campaigns[0].cid, 1);
    assert_eq!(l.campaigns[1].cid, 2);
}

#[test]
fn ledger_donate_to_unknown_cid_not_found() {
    let mut l = funded_ledger();
    let zero = l.donate(ident(5), 0, 1_000_000_000, 102, true);
    assert_eq!(zero.unwrap_err(), OpError::Rejected(ErrorCode::CampaignNotFound));
    let beyond = l.donate(ident(5), 2, 1_000_000_000, 102, true);
    assert_eq!(beyond.unwrap_err(), OpError::Rejected(ErrorCode::CampaignNotFound));
    assert_eq!(l.records.len(), 1);
}

#[test]
fn ledger_donation_appends_exactly_one_credited_record() {
    let mut l = funded_ledger();
    let before = l.records.len();
    let donors_before = l.campaigns[0].donors;
    l.donate(ident(6), 1, 1_000_000_000, 102, true).unwrap();
    assert_eq!(l.records.len(), before + 1);
    let rec = l.records.last().unwrap();
    assert!(rec.credited);
    assert_eq!(rec.amount, 1_000_000_000);
    assert_eq!(rec.cid, 1);
    assert_eq!(rec.owner, ident(6));
    assert_eq!(l.campaigns[0].donors, donors_before + 1);
}

#[test]
fn ledger_balance_matches_raised_minus_recorded_withdrawals() {
    let mut l = funded_ledger();
    l.donate(ident(6), 1, 3_000_000_000, 102, true).unwrap();
    l.withdraw(ident(2), 1, 1_000_000_000, ident(1), 9_000_000_000, 1_000_000, 103)
        .unwrap();
    l.withdraw(ident(2), 1, 500_000_000, ident(1), 8_000_000_000, 1_000_000, 104)
        .unwrap();
    let c = &l.campaigns[0];
    assert_eq!(c.amount_raised, 5_000_000_000);
    assert_eq!(recorded_withdrawals(&l, 1), 1_500_000_000);
    assert_eq!(c.balance, c.amount_raised - recorded_withdrawals(&l, 1));
}

#[test]
fn ledger_campaigns_are_independent() {
    let mut l = Ledger::new();
    l.initialize(ident(1)).unwrap();
    l.create_campaign(ident(2), "a".to_string(), "d".to_string(), "u".to_string(), 5_000_000_000, 10)
        .unwrap();
    l.create_campaign(ident(3), "b".to_string(), "d".to_string(), "u".to_string(), 5_000_000_000, 11)
        .unwrap();
    l.donate(ident(5), 2, 1_000_000_000, 12, true).unwrap();
    assert_eq!(l.campaigns[0].balance, 0);
    assert_eq!(l.campaigns[0].donors, 0);
    assert_eq!(l.campaigns[1].balance, 1_000_000_000);
    assert_eq!(l.campaigns[1].donors, 1);
    assert_eq!(recorded_withdrawals(&l, 1), 0);
    l.withdraw(ident(3), 2, 1_000_000_000, ident(1), 2_000_000_000, 1_000_000, 13)
        .unwrap();
    assert_eq!(l.campaigns[0].balance, 0);
    assert_eq!(l.campaigns[1].balance, 0);
    assert_eq!(recorded_withdrawals(&l, 1), 0);
    assert_eq!(recorded_withdrawals(&l, 2), 1_000_000_000);
}

#[test]
fn ledger_withdrawal_appends_exactly_one_debit_record() {
    let mut l = funded_ledger();
    let before = l.records.len();
    let pay = l
        .withdraw(ident(2), 1, 100_000_001, ident(1), 9_000_000_000, 1_000_000, 103)
        .unwrap();
    assert_eq!(pay.platform_fee_amount, 5_000_000);
    assert_eq!(pay.creator_amount, 95_000_001);
    assert_eq!(l.records.len(), before + 1);
    let rec = l.records.last().unwrap();
    assert!(!rec.credited);
    assert_eq!(rec.amount, 100_000_001);
    assert_eq!(rec.owner, ident(2));
    assert_eq!(l.campaigns[0].withdrawals, 1);
}

#[test]
fn ledger_soft_delete_keeps_record_and_rejects_second_delete() {
    let mut l = funded_ledger();
    assert_eq!(l.delete_campaign(ident(2), 1), Ok(()));
    assert_eq!(l.campaigns.len(), 1);
    assert!(!l.campaigns[0].active);
    assert_eq!(l.delete_campaign(ident(2), 1), Err(ErrorCode::InactiveCampaign));
    assert_eq!(
        l.donate(ident(5), 1, 1_000_000_000, 102, true).unwrap_err(),
        OpError::Rejected(ErrorCode::InactiveCampaign)
    );
    let pay = l
        .withdraw(ident(2), 1, 2_000_000_000, ident(1), 9_000_000_000, 1_000_000, 103)
        .unwrap();
    assert_eq!(pay.creator_amount + pay.platform_fee_amount, 2_000_000_000);
    assert_eq!(l.campaigns[0].balance, 0);
}

#[test]
fn ledger_update_campaign_touches_only_named_fields() {
    let mut l = funded_ledger();
    l.update_campaign(
        ident(2),
        1,
        "New title".to_string(),
        "New description".to_string(),
        "https://example.org/new.png".to_string(),
        6_000_000_000,
    )
    .unwrap();
    let c = &l.campaigns[0];
    assert_eq!(c.title, "New title");
    assert_eq!(c.goal, 6_000_000_000);
    assert_eq!(c.balance, 2_000_000_000);
    assert!(c.active);
    assert_eq!(
        l.update_campaign(
            ident(9),
            1,
            "t".to_string(),
            "d".to_string(),
            "u".to_string(),
            6_000_000_000,
        )
        .unwrap_err(),
        ErrorCode::Unauthorized
    );
}

#[test]
fn ledger_platform_settings_band_enforced() {
    let mut l = funded_ledger();
    assert_eq!(l.update_platform_settings(ident(1), 0).unwrap_err(), ErrorCode::InvalidPlatformFee);
    assert_eq!(
        l.update_platform_settings(ident(1), 16).unwrap_err(),
        ErrorCode::InvalidPlatformFee
    );
    assert_eq!(l.update_platform_settings(ident(9), 15).unwrap_err(), ErrorCode::Unauthorized);
    assert_eq!(l.update_platform_settings(ident(1), 15), Ok(()));
    assert_eq!(l.state.platform_fee, 15);
}

#[test]
fn ledger_withdraw_uses_current_fee_percentage() {
    let mut l = funded_ledger();
    l.update_platform_settings(ident(1), 10).unwrap();
    let pay = l
        .withdraw(ident(2), 1, 1_000_000_000, ident(1), 9_000_000_000, 1_000_000, 103)
        .unwrap();
    assert_eq!(pay.platform_fee_amount, 100_000_000);
    assert_eq!(pay.creator_amount, 900_000_000);
}

use escrowagent::account::AccountId;
use escrowagent::config::{initialize_protocol, update_protocol_config, ConfigUpdate};
use escrowagent::errors::AgentVaultError;

fn acct(key: u64) -> AccountId {
    AccountId { key }
}

fn no_update() -> ConfigUpdate {
    ConfigUpdate {
        fee_authority: None,
        protocol_fee_bps: None,
        arbitrator_fee_bps: None,
        min_escrow_amount: None,
        max_escrow_amount: None,
        min_grace_period: None,
        max_deadline_seconds: None,
        paused: None,
        new_admin: None,
    }
}

#[test]
fn initialize_sets_all_fields() {
    let cfg = initialize_protocol(acct(1), acct(40), 100, 200, 1000, 50000, 300, 604800).unwrap();
    assert_eq!(cfg.admin, acct(1));
    assert_eq!(cfg.fee_authority, acct(40));
    assert_eq!(cfg.protocol_fee_bps, 100);
    assert_eq!(cfg.arbitrator_fee_bps, 200);
    assert_eq!(cfg.min_escrow_amount, 1000);
    assert_eq!(cfg.max_escrow_amount, 50000);
    assert_eq!(cfg.min_grace_period, 300);
    assert_eq!(cfg.max_deadline_seconds, 604800);
    assert!(!cfg.paused);
}

#[test]
fn initialize_rejects_high_protocol_fee() {
    let r = initialize_protocol(acct(1), acct(40), 501, 100, 1000, 0, 300, 604800);
    assert_eq!(r.unwrap_err(), AgentVaultError::FeeTooHigh);
}

#[test]
fn initialize_rejects_high_arbitrator_fee() {
    let r = initialize_protocol(acct(1), acct(40), 500, 501, 1000, 0, 300, 604800);
    assert_eq!(r.unwrap_err(), AgentVaultError::FeeTooHigh);
}

#[test]
fn initialize_accepts_maximum_fees() {
    let cfg = initialize_protocol(acct(1), acct(40), 500, 500, 1, 0, 1, 1).unwrap();
    assert_eq!(cfg.protocol_fee_bps, 500);
    assert_eq!(cfg.arbitrator_fee_bps, 500);
}

#[test]
fn initialize_rejects_zero_minimum_amount() {
    let r = initialize_protocol(acct(1), acct(40), 100, 100, 0, 0, 300, 604800);
    assert_eq!(r.unwrap_err(), AgentVaultError::AmountZero);
}

#[test]
fn initialize_rejects_zero_fee_authority() {
    let r = initialize_protocol(acct(1), acct(0), 100, 100, 1000, 0, 300, 604800);
    assert_eq!(r.unwrap_err(), AgentVaultError::InvalidFeeAccount);
}

#[test]
fn initialize_rejects_nonpositive_grace_minimum() {
    let r = initialize_protocol(acct(1), acct(40), 100, 100, 1000, 0, 0, 604800);
    assert_eq!(r.unwrap_err(), AgentVaultError::InvalidGracePeriod);
}

#[test]
fn initialize_rejects_nonpositive_deadline_maximum() {
    let r = initialize_protocol(acct(1), acct(40), 100, 100, 1000, 0, 300, 0);
    assert_eq!(r.unwrap_err(), AgentVaultError::DeadlineInPast);
}

#[test]
fn update_requires_admin() {
    let mut cfg = initialize_protocol(acct(1), acct(40), 100, 100, 1000, 0, 300, 604800).unwrap();
    let r = update_protocol_config(&mut cfg, acct(2), no_update());
    assert_eq!(r.unwrap_err(), AgentVaultError::UnauthorizedAdmin);
}

#[test]
fn update_changes_only_given_fields() {
    let mut cfg = initialize_protocol(acct(1), acct(40), 100, 100, 1000, 0, 300, 604800).unwrap();
    let update = ConfigUpdate {
        protocol_fee_bps: Some(250),
        paused: Some(true),
        ..no_update()
    };
    update_protocol_config(&mut cfg, acct(1), update).unwrap();
    assert_eq!(cfg.protocol_fee_bps, 250);
    assert!(cfg.paused);
    assert_eq!(cfg.arbitrator_fee_bps, 100);
    assert_eq!(cfg.fee_authority, acct(40));
    assert_eq!(cfg.admin, acct(1));
}

#[test]
fn update_transfers_admin_authority() {
    let mut cfg = initialize_protocol(acct(1), acct(40), 100, 100, 1000, 0, 300, 604800).unwrap();
    let update = ConfigUpdate { new_admin: Some(acct(9)), ..no_update() };
    update_protocol_config(&mut cfg, acct(1), update).unwrap();
    assert_eq!(cfg.admin, acct(9));
    let again = ConfigUpdate { paused: Some(true), ..no_update() };
    assert_eq!(
        update_protocol_config(&mut cfg, acct(1), again).unwrap_err(),
        AgentVaultError::UnauthorizedAdmin
    );
}

#[test]
fn update_rejects_high_fee_and_leaves_config_untouched() {
    let mut cfg = initialize_protocol(acct(1), acct(40), 100, 100, 1000, 0, 300, 604800).unwrap();
    let update = ConfigUpdate {
        protocol_fee_bps: Some(501),
        paused: Some(true),
        ..no_update()
    };
    let r = update_protocol_config(&mut cfg, acct(1), update);
    assert_eq!(r.unwrap_err(), AgentVaultError::FeeTooHigh);
    assert_eq!(cfg.protocol_fee_bps, 100);
    assert!(!cfg.paused);
}

#[test]
fn update_rejects_zero_fee_authority() {
    let mut cfg = initialize_protocol(acct(1), acct(40), 100, 100, 1000, 0, 300, 604800).unwrap();
    let update = ConfigUpdate { fee_authority: Some(acct(0)), ..no_update() };
    assert_eq!(
        update_protocol_config(&mut cfg, acct(1), update).unwrap_err(),
        AgentVaultError::InvalidFeeAccount
    );
}

#[test]
fn update_rejects_zero_minimum_amount() {
    let mut cfg = initialize_protocol(acct(1), acct(40), 100, 100, 1000, 0, 300, 604800).unwrap();
    let update = ConfigUpdate { min_escrow_amount: Some(0), ..no_update() };
    assert_eq!(
        update_protocol_config(&mut cfg, acct(1), update).unwrap_err(),
        AgentVaultError::AmountZero
    );
}

#[test]
fn update_rejects_nonpositive_grace_minimum() {
    let mut cfg = initialize_protocol(acct(1), acct(40), 100, 100, 1000, 0, 300, 604800).unwrap();
    let update = ConfigUpdate { min_grace_period: Some(0), ..no_update() };
    assert_eq!(
        update_protocol_config(&mut cfg, acct(1), update).unwrap_err(),
        AgentVaultError::InvalidGracePeriod
    );
}

#[test]
fn update_rejects_nonpositive_deadline_maximum() {
    let mut cfg = initialize_protocol(acct(1), acct(40), 100, 100, 1000, 0, 300, 604800).unwrap();
    let update = ConfigUpdate { max_deadline_seconds: Some(-1), ..no_update() };
    assert_eq!(
        update_protocol_config(&mut cfg, acct(1), update).unwrap_err(),
        AgentVaultError::DeadlineInPast
    );
}

#[test]
fn update_works_while_paused() {
    let mut cfg = initialize_protocol(acct(1), acct(40), 100, 100, 1000, 0, 300, 604800).unwrap();
    let pause = ConfigUpdate { paused: Some(true), ..no_update() };
    update_protocol_config(&mut cfg, acct(1), pause).unwrap();
    assert!(cfg.paused);
    let unpause = ConfigUpdate { paused: Some(false), ..no_update() };
    update_protocol_config(&mut cfg, acct(1), unpause).unwrap();
    assert!(!cfg.paused);
}

use escrowagent::account::AccountId;
use escrowagent::config::{initialize_protocol, update_protocol_config, ConfigUpdate, ProtocolConfig};
use escrowagent::dispute::{raise_dispute, resolve_dispute};
use escrowagent::enums::{DisputeRuling, EscrowStatus, ProofType, VerificationType};
use escrowagent::errors::AgentVaultError;
use escrowagent::escrow::Escrow;
use escrowagent::lifecycle::{accept_escrow, create_escrow, submit_proof};

fn acct(key: u64) -> AccountId {
    AccountId { key }
}

fn test_config() -> ProtocolConfig {
    initialize_protocol(acct(1), acct(40), 100, 100, 1000, 0, 300, 604800).unwrap()
}

// amount 10000 at 100 bps fees; created at 100, deadline 1000, grace 400.
fn base_escrow(cfg: &ProtocolConfig) -> Escrow {
    create_escrow(
        cfg,
        acct(10),
        acct(20),
        Some(acct(30)),
        acct(50),
        acct(60),
        10000,
        1000,
        400,
        [0u8; 32],
        VerificationType::OnChain,
        1,
        100,
    )
    .unwrap()
}

fn disputed_escrow(cfg: &ProtocolConfig) -> Escrow {
    let mut esc = base_escrow(cfg);
    accept_escrow(&mut esc, acct(20), 200).unwrap();
    submit_proof(&mut esc, acct(20), ProofType::TransactionSignature, [0u8; 64], 300).unwrap();
    raise_dispute(&mut esc, cfg, acct(10), 350).unwrap();
    esc
}

#[test]
fn raise_records_the_raiser() {
    let cfg = test_config();
    let mut esc = base_escrow(&cfg);
    accept_escrow(&mut esc, acct(20), 200).unwrap();
    raise_dispute(&mut esc, &cfg, acct(20), 250).unwrap();
    assert_eq!(esc.status, EscrowStatus::Disputed);
    assert_eq!(esc.dispute_raised_by, Some(acct(20)));
}

#[test]
fn raise_requires_participant() {
    let cfg = test_config();
    let mut esc = base_escrow(&cfg);
    accept_escrow(&mut esc, acct(20), 200).unwrap();
    let r = raise_dispute(&mut esc, &cfg, acct(99), 250);
    assert_eq!(r.unwrap_err(), AgentVaultError::NotParticipant);
}

#[test]
fn raise_requires_arbitrator() {
    let cfg = test_config();
    let mut esc = create_escrow(
        &cfg,
        acct(10),
        acct(20),
        None,
        acct(50),
        acct(60),
        10000,
        1000,
        400,
        [0u8; 32],
        VerificationType::OnChain,
        1,
        100,
    )
    .unwrap();
    accept_escrow(&mut esc, acct(20), 200).unwrap();
    let r = raise_dispute(&mut esc, &cfg, acct(10), 250);
    assert_eq!(r.unwrap_err(), AgentVaultError::NoArbitrator);
}

#[test]
fn raise_allowed_through_grace_period_end() {
    let cfg = test_config();
    let mut esc = base_escrow(&cfg);
    accept_escrow(&mut esc, acct(20), 200).unwrap();
    // deadline + grace = 1400: still allowed at 1400, rejected at 1401.
    raise_dispute(&mut esc, &cfg, acct(10), 1400).unwrap();
    assert_eq!(esc.status, EscrowStatus::Disputed);
}

#[test]
fn raise_rejects_after_grace_period() {
    let cfg = test_config();
    let mut esc = base_escrow(&cfg);
    accept_escrow(&mut esc, acct(20), 200).unwrap();
    let r = raise_dispute(&mut esc, &cfg, acct(10), 1401);
    assert_eq!(r.unwrap_err(), AgentVaultError::GracePeriodExpired);
}

#[test]
fn raise_rejects_while_paused() {
    let mut cfg = test_config();
    let mut esc = base_escrow(&cfg);
    accept_escrow(&mut esc, acct(20), 200).unwrap();
    let pause = ConfigUpdate {
        fee_authority: None,
        protocol_fee_bps: None,
        arbitrator_fee_bps: None,
        min_escrow_amount: None,
        max_escrow_amount: None,
        min_grace_period: None,
        max_deadline_seconds: None,
        paused: Some(true),
        new_admin: None,
    };
    update_protocol_config(&mut cfg, acct(1), pause).unwrap();
    let r = raise_dispute(&mut esc, &cfg, acct(10), 250);
    assert_eq!(r.unwrap_err(), AgentVaultError::ProtocolPaused);
}

#[test]
fn scenario_split_resolution_partitions_amount_exactly() {
    // amount 10000, both fees 100 bps: protocol fee 100, arbitrator fee
    // 100, distributable 9800; Split{6000, 4000} pays client 5880 and
    // provider 3920; everything sums back to 10000.
    let cfg = test_config();
    let mut esc = disputed_escrow(&cfg);
    let ruling = DisputeRuling::Split { client_bps: 6000, provider_bps: 4000 };
    let settlement = resolve_dispute(&mut esc, &cfg, acct(30), ruling, 10000).unwrap();
    assert_eq!(settlement.protocol_fee_amount, 100);
    assert_eq!(settlement.arbitrator_amount, 100);
    assert_eq!(settlement.client_amount, 5880);
    assert_eq!(settlement.provider_amount, 3920);
    assert_eq!(
        settlement.provider_amount
            + settlement.client_amount
            + settlement.arbitrator_amount
            + settlement.protocol_fee_amount,
        10000
    );
    assert_eq!(esc.status, EscrowStatus::Resolved);
}

#[test]
fn split_reversed_swaps_allocation() {
    // Split{6000, 4000} on distributable 100 yields 60/40 exactly;
    // reversing the basis points yields 40/60.
    let cfg = initialize_protocol(acct(1), acct(40), 0, 0, 1, 0, 300, 604800).unwrap();
    let mut forward = create_escrow(
        &cfg,
        acct(10),
        acct(20),
        Some(acct(30)),
        acct(50),
        acct(60),
        100,
        1000,
        400,
        [0u8; 32],
        VerificationType::OnChain,
        1,
        100,
    )
    .unwrap();
    accept_escrow(&mut forward, acct(20), 200).unwrap();
    submit_proof(&mut forward, acct(20), ProofType::TransactionSignature, [0u8; 64], 300).unwrap();
    raise_dispute(&mut forward, &cfg, acct(10), 350).unwrap();
    let mut reversed = forward;
    let s1 = resolve_dispute(
        &mut forward,
        &cfg,
        acct(30),
        DisputeRuling::Split { client_bps: 6000, provider_bps: 4000 },
        100,
    )
    .unwrap();
    assert_eq!(s1.client_amount, 60);
    assert_eq!(s1.provider_amount, 40);
    let s2 = resolve_dispute(
        &mut reversed,
        &cfg,
        acct(30),
        DisputeRuling::Split { client_bps: 4000, provider_bps: 6000 },
        100,
    )
    .unwrap();
    assert_eq!(s2.client_amount, 40);
    assert_eq!(s2.provider_amount, 60);
}

#[test]
fn split_rounds_down_for_client_with_no_loss() {
    // distributable 9999 with a 1/3-ish split: the client leg is floored
    // and the provider leg is the exact remainder.
    let cfg = initialize_protocol(acct(1), acct(40), 0, 0, 1, 0, 300, 604800).unwrap();
    let mut esc = create_escrow(
        &cfg,
        acct(10),
        acct(20),
        Some(acct(30)),
        acct(50),
        acct(60),
        9999,
        1000,
        400,
        [0u8; 32],
        VerificationType::OnChain,
        1,
        100,
    )
    .unwrap();
    accept_escrow(&mut esc, acct(20), 200).unwrap();
    submit_proof(&mut esc, acct(20), ProofType::TransactionSignature, [0u8; 64], 300).unwrap();
    raise_dispute(&mut esc, &cfg, acct(10), 350).unwrap();
    let s = resolve_dispute(
        &mut esc,
        &cfg,
        acct(30),
        DisputeRuling::Split { client_bps: 3333, provider_bps: 6667 },
        9999,
    )
    .unwrap();
    // floor(9999 * 3333 / 10000) = 3332
    assert_eq!(s.client_amount, 3332);
    assert_eq!(s.provider_amount, 6667);
    assert_eq!(s.client_amount + s.provider_amount, 9999);
}

#[test]
fn resolve_pay_client_refunds_distributable() {
    let cfg = test_config();
    let mut esc = disputed_escrow(&cfg);
    let s = resolve_dispute(&mut esc, &cfg, acct(30), DisputeRuling::PayClient, 10000).unwrap();
    assert_eq!(s.client_amount, 9800);
    assert_eq!(s.provider_amount, 0);
    assert_eq!(s.arbitrator_amount, 100);
    assert_eq!(s.protocol_fee_amount, 100);
}

#[test]
fn resolve_pay_provider_awards_distributable() {
    let cfg = test_config();
    let mut esc = disputed_escrow(&cfg);
    let s = resolve_dispute(&mut esc, &cfg, acct(30), DisputeRuling::PayProvider, 10000).unwrap();
    assert_eq!(s.provider_amount, 9800);
    assert_eq!(s.client_amount, 0);
    assert_eq!(s.arbitrator_amount, 100);
    assert_eq!(s.protocol_fee_amount, 100);
}

#[test]
fn resolve_rejects_bad_split_total() {
    let cfg = test_config();
    let mut esc = disputed_escrow(&cfg);
    let ruling = DisputeRuling::Split { client_bps: 6000, provider_bps: 5000 };
    let r = resolve_dispute(&mut esc, &cfg, acct(30), ruling, 10000);
    assert_eq!(r.unwrap_err(), AgentVaultError::InvalidSplitRuling);
    assert_eq!(esc.status, EscrowStatus::Disputed);
}

#[test]
fn resolve_requires_assigned_arbitrator() {
    let cfg = test_config();
    let mut esc = disputed_escrow(&cfg);
    let r = resolve_dispute(&mut esc, &cfg, acct(10), DisputeRuling::PayClient, 10000);
    assert_eq!(r.unwrap_err(), AgentVaultError::UnauthorizedArbitrator);
}

#[test]
fn resolve_rejects_while_paused() {
    let mut cfg = test_config();
    let mut esc = disputed_escrow(&cfg);
    let pause = ConfigUpdate {
        fee_authority: None,
        protocol_fee_bps: None,
        arbitrator_fee_bps: None,
        min_escrow_amount: None,
        max_escrow_amount: None,
        min_grace_period: None,
        max_deadline_seconds: None,
        paused: Some(true),
        new_admin: None,
    };
    update_protocol_config(&mut cfg, acct(1), pause).unwrap();
    let r = resolve_dispute(&mut esc, &cfg, acct(30), DisputeRuling::PayClient, 10000);
    assert_eq!(r.unwrap_err(), AgentVaultError::ProtocolPaused);
}

#[test]
fn resolve_uses_snapshotted_fees() {
    let mut cfg = test_config();
    let mut esc = disputed_escrow(&cfg);
    let raise_fees = ConfigUpdate {
        fee_authority: None,
        protocol_fee_bps: Some(500),
        arbitrator_fee_bps: Some(500),
        min_escrow_amount: None,
        max_escrow_amount: None,
        min_grace_period: None,
        max_deadline_seconds: None,
        paused: None,
        new_admin: None,
    };
    update_protocol_config(&mut cfg, acct(1), raise_fees).unwrap();
    let s = resolve_dispute(&mut esc, &cfg, acct(30), DisputeRuling::PayProvider, 10000).unwrap();
    assert_eq!(s.protocol_fee_amount, 100);
    assert_eq!(s.arbitrator_amount, 100);
    assert_eq!(s.provider_amount, 9800);
}

#[test]
fn griefing_surplus_goes_to_client_on_resolution() {
    // 777 tokens pushed into the vault out of band are swept to the client
    // on top of the ruling's leg; fees and the provider leg are untouched.
    let cfg = test_config();
    let mut esc = disputed_escrow(&cfg);
    let s = resolve_dispute(&mut esc, &cfg, acct(30), DisputeRuling::PayProvider, 10777).unwrap();
    assert_eq!(s.provider_amount, 9800);
    assert_eq!(s.client_amount, 777);
    assert_eq!(s.arbitrator_amount, 100);
    assert_eq!(s.protocol_fee_amount, 100);
    assert_eq!(
        s.provider_amount + s.client_amount + s.arbitrator_amount + s.protocol_fee_amount,
        10777
    );
}

#[test]
fn zero_fee_resolution_takes_nothing() {
    let cfg = initialize_protocol(acct(1), acct(40), 0, 0, 1, 0, 300, 604800).unwrap();
    let mut esc = create_escrow(
        &cfg,
        acct(10),
        acct(20),
        Some(acct(30)),
        acct(50),
        acct(60),
        10000,
        1000,
        400,
        [0u8; 32],
        VerificationType::OnChain,
        1,
        100,
    )
    .unwrap();
    accept_escrow(&mut esc, acct(20), 200).unwrap();
    raise_dispute(&mut esc, &cfg, acct(10), 250).unwrap();
    let s = resolve_dispute(&mut esc, &cfg, acct(30), DisputeRuling::PayClient, 10000).unwrap();
    assert_eq!(s.client_amount, 10000);
    assert_eq!(s.arbitrator_amount, 0);
    assert_eq!(s.protocol_fee_amount, 0);
}

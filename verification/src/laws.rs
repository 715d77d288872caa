use vstd::prelude::*;

use crate::account::AccountId;
use crate::config::ProtocolConfig;
use crate::dispute::{
    raise_check, resolution_settlement, resolve_check, spec_client_leg, spec_provider_leg,
};
use crate::enums::{DisputeRuling, EscrowStatus};
use crate::errors::AgentVaultError;
use crate::escrow::Escrow;
use crate::fees::{lemma_bps_portion_bounds, lemma_fee_pair_bound};
use crate::lifecycle::{
    accept_check, cancel_check, completion_settlement, confirm_check, expire_check,
    refund_settlement, release_check, spec_release_time, submit_check,
};

verus! {

/// No value is lost or created by the fee arithmetic: the two fees of a
/// well-formed escrow never exceed its amount, and under any accepted
/// ruling the client leg, the provider leg and the two fees partition the
/// amount exactly. Each leg is non-negative and within the distributable
/// remainder.
pub proof fn lemma_fee_value_conservation(escrow: Escrow, ruling: DisputeRuling)
    requires
        escrow.wf(),
        ruling matches DisputeRuling::Split { client_bps, provider_bps } ==> client_bps
            + provider_bps == 10000,
    ensures
        0 <= escrow.spec_protocol_fee() + escrow.spec_arbitrator_fee() <= escrow.amount,
        spec_client_leg(escrow, ruling) + spec_provider_leg(escrow, ruling)
            + escrow.spec_protocol_fee() + escrow.spec_arbitrator_fee() == escrow.amount,
        0 <= spec_client_leg(escrow, ruling) <= escrow.spec_distributable(),
        0 <= spec_provider_leg(escrow, ruling) <= escrow.spec_distributable(),
{
    lemma_fee_pair_bound(escrow.amount, escrow.protocol_fee_bps, escrow.arbitrator_fee_bps);
    match ruling {
        DisputeRuling::PayClient => {
        },
        DisputeRuling::PayProvider => {
        },
        DisputeRuling::Split { client_bps, .. } => {
            lemma_bps_portion_bounds(escrow.spec_distributable(), client_bps as int);
        },
    }
}

/// A split ruling loses nothing to rounding: the client's floored share and
/// the provider's exact complement always sum to the distributable
/// remainder, and neither leg is negative.
pub proof fn lemma_split_no_rounding_loss(escrow: Escrow, client_bps: u16, provider_bps: u16)
    requires
        escrow.wf(),
        client_bps + provider_bps == 10000,
    ensures
        ({
            let ruling = DisputeRuling::Split { client_bps, provider_bps };
            &&& spec_client_leg(escrow, ruling) + spec_provider_leg(escrow, ruling)
                == escrow.spec_distributable()
            &&& 0 <= spec_client_leg(escrow, ruling)
            &&& 0 <= spec_provider_leg(escrow, ruling)
        }),
{
    lemma_fee_value_conservation(escrow, DisputeRuling::Split { client_bps, provider_bps });
}

/// Every operation with a status precondition rejects, with its status
/// error, any escrow whose status is outside the operation's allowed set —
/// even when the caller is the proper party, the protocol is not paused,
/// and every other input is in order.
pub proof fn lemma_wrong_status_rejected(
    escrow: Escrow,
    config: ProtocolConfig,
    now: i64,
    ruling: DisputeRuling,
)
    requires
        escrow.wf(),
        config.wf(),
        !config.paused,
    ensures
        !(escrow.status is AwaitingProvider) ==> accept_check(escrow, escrow.provider, now)
            == Some(AgentVaultError::NotAwaitingProvider),
        !(escrow.status is Active) ==> submit_check(escrow, escrow.provider, now) == Some(
            AgentVaultError::NotActive,
        ),
        !(escrow.status is ProofSubmitted) ==> confirm_check(escrow, config, escrow.client)
            == Some(AgentVaultError::NoProofSubmitted),
        !(escrow.status is ProofSubmitted) ==> release_check(escrow, config, escrow.provider, now)
            == Some(AgentVaultError::NoProofSubmitted),
        !(escrow.status is AwaitingProvider) ==> cancel_check(escrow, escrow.client) == Some(
            AgentVaultError::InvalidStatus,
        ),
        !(escrow.status is AwaitingProvider || escrow.status is Active) ==> expire_check(
            escrow,
            now,
        ) == Some(AgentVaultError::InvalidStatus),
        !(escrow.status is Active || escrow.status is ProofSubmitted) ==> raise_check(
            escrow,
            config,
            escrow.client,
            now,
        ) == Some(AgentVaultError::InvalidStatus),
        (escrow.arbitrator matches Some(a) && !(escrow.status is Disputed)) ==> resolve_check(
            escrow,
            config,
            escrow.arbitrator->0,
            ruling,
        ) == Some(AgentVaultError::InvalidStatus),
{
}

/// Once an escrow reaches a terminal status, every operation against it
/// fails, whoever calls it, whenever, and whatever the config: the record
/// and its vault are closed for good.
pub proof fn lemma_terminal_status_is_closed(
    escrow: Escrow,
    config: ProtocolConfig,
    caller: AccountId,
    now: i64,
    ruling: DisputeRuling,
)
    requires
        escrow.wf(),
        escrow.status.is_terminal(),
    ensures
        accept_check(escrow, caller, now).is_some(),
        submit_check(escrow, caller, now).is_some(),
        confirm_check(escrow, config, caller).is_some(),
        release_check(escrow, config, caller, now).is_some(),
        cancel_check(escrow, caller).is_some(),
        expire_check(escrow, now).is_some(),
        raise_check(escrow, config, caller, now).is_some(),
        resolve_check(escrow, config, caller, ruling).is_some(),
{
}

/// The edges of the lifecycle graph: `AwaitingProvider -> Active ->
/// ProofSubmitted -> {Completed | Disputed}`, `Disputed -> Resolved`, the
/// cancel edge `AwaitingProvider -> Cancelled` and the expiry edges
/// `AwaitingProvider | Active -> Expired`.
pub open spec fn allowed_edge(from: EscrowStatus, to: EscrowStatus) -> bool {
    ||| (from is AwaitingProvider && (to is Active || to is Cancelled || to is Expired))
    ||| (from is Active && (to is ProofSubmitted || to is Disputed || to is Expired))
    ||| (from is ProofSubmitted && (to is Completed || to is Disputed))
    ||| (from is Disputed && to is Resolved)
}

/// Status transitions are monotonic along the lifecycle graph: whenever an
/// operation accepts, the move it makes from the current status to its
/// target is an edge of the graph, so no back-edge is ever taken.
pub proof fn lemma_transitions_follow_graph(
    escrow: Escrow,
    config: ProtocolConfig,
    caller: AccountId,
    now: i64,
    ruling: DisputeRuling,
)
    requires
        escrow.wf(),
    ensures
        accept_check(escrow, caller, now) is None ==> allowed_edge(
            escrow.status,
            EscrowStatus::Active,
        ),
        submit_check(escrow, caller, now) is None ==> allowed_edge(
            escrow.status,
            EscrowStatus::ProofSubmitted,
        ),
        confirm_check(escrow, config, caller) is None ==> allowed_edge(
            escrow.status,
            EscrowStatus::Completed,
        ),
        release_check(escrow, config, caller, now) is None ==> allowed_edge(
            escrow.status,
            EscrowStatus::Completed,
        ),
        cancel_check(escrow, caller) is None ==> allowed_edge(
            escrow.status,
            EscrowStatus::Cancelled,
        ),
        expire_check(escrow, now) is None ==> allowed_edge(escrow.status, EscrowStatus::Expired),
        raise_check(escrow, config, caller, now) is None ==> allowed_edge(
            escrow.status,
            EscrowStatus::Disputed,
        ),
        resolve_check(escrow, config, caller, ruling) is None ==> allowed_edge(
            escrow.status,
            EscrowStatus::Resolved,
        ),
{
}

/// The self-release window opens strictly after the release time: at the
/// release time itself the provider is still rejected, and one second
/// later the release goes through.
pub proof fn lemma_release_window_boundary(escrow: Escrow, config: ProtocolConfig)
    requires
        escrow.wf(),
        config.wf(),
        !config.paused,
        escrow.status is ProofSubmitted,
        spec_release_time(escrow) < i64::MAX,
    ensures
        release_check(escrow, config, escrow.provider, spec_release_time(escrow) as i64) == Some(
            AgentVaultError::AutoReleaseNotReady,
        ),
        release_check(escrow, config, escrow.provider, (spec_release_time(escrow) + 1) as i64)
            is None,
{
}

/// The expiry window opens strictly after the grace period ends: expiry is
/// rejected at `deadline + grace_period` itself and goes through one
/// second later.
pub proof fn lemma_expiry_window_boundary(escrow: Escrow)
    requires
        escrow.wf(),
        escrow.status is AwaitingProvider || escrow.status is Active,
        escrow.deadline + escrow.grace_period < i64::MAX,
    ensures
        expire_check(escrow, (escrow.deadline + escrow.grace_period) as i64) == Some(
            AgentVaultError::NotYetExpired,
        ),
        expire_check(escrow, (escrow.deadline + escrow.grace_period + 1) as i64) is None,
{
}

/// An out-of-band transfer into the vault is swept entirely to the client
/// at settlement: on every settling path, raising the vault balance leaves
/// the provider, arbitrator and protocol-fee legs unchanged and grows the
/// client leg by exactly the difference.
pub proof fn lemma_griefing_swept_to_client(
    escrow: Escrow,
    ruling: DisputeRuling,
    balance_before: u64,
    balance_after: u64,
)
    requires
        escrow.wf(),
        escrow.amount <= balance_before <= balance_after,
        ruling matches DisputeRuling::Split { client_bps, provider_bps } ==> client_bps
            + provider_bps == 10000,
    ensures
        ({
            let lean = completion_settlement(escrow, balance_before);
            let fat = completion_settlement(escrow, balance_after);
            &&& fat.provider_amount == lean.provider_amount
            &&& fat.arbitrator_amount == lean.arbitrator_amount
            &&& fat.protocol_fee_amount == lean.protocol_fee_amount
            &&& fat.client_amount == lean.client_amount + (balance_after - balance_before)
        }),
        ({
            let lean = refund_settlement(balance_before);
            let fat = refund_settlement(balance_after);
            &&& fat.provider_amount == lean.provider_amount
            &&& fat.arbitrator_amount == lean.arbitrator_amount
            &&& fat.protocol_fee_amount == lean.protocol_fee_amount
            &&& fat.client_amount == lean.client_amount + (balance_after - balance_before)
        }),
        ({
            let lean = resolution_settlement(escrow, ruling, balance_before);
            let fat = resolution_settlement(escrow, ruling, balance_after);
            &&& fat.provider_amount == lean.provider_amount
            &&& fat.arbitrator_amount == lean.arbitrator_amount
            &&& fat.protocol_fee_amount == lean.protocol_fee_amount
            &&& fat.client_amount == lean.client_amount + (balance_after - balance_before)
        }),
{
    lemma_fee_value_conservation(escrow, ruling);
}

} // verus!

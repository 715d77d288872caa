use vstd::prelude::*;

use crate::account::AccountId;
use crate::config::ProtocolConfig;
use crate::enums::{DisputeRuling, EscrowStatus};
use crate::errors::AgentVaultError;
use crate::escrow::Escrow;
use crate::fees::{bps_amount, bps_portion, lemma_fee_pair_bound};
use crate::settlement::Settlement;

verus! {

/// The first reason, if any, why `raise_dispute` rejects.
pub open spec fn raise_check(
    escrow: Escrow,
    config: ProtocolConfig,
    caller: AccountId,
    now: i64,
) -> Option<AgentVaultError> {
    if config.paused {
        Some(AgentVaultError::ProtocolPaused)
    } else if caller != escrow.client && caller != escrow.provider {
        Some(AgentVaultError::NotParticipant)
    } else if !(escrow.status is Active || escrow.status is ProofSubmitted) {
        Some(AgentVaultError::InvalidStatus)
    } else if escrow.arbitrator is None {
        Some(AgentVaultError::NoArbitrator)
    } else if escrow.spec_is_expired(now) {
        Some(AgentVaultError::GracePeriodExpired)
    } else {
        None
    }
}

/// The client or the provider challenges the outcome. Requires an assigned
/// arbitrator, a status of `Active` or `ProofSubmitted`, and — when the
/// deadline has already passed — that the grace period has not ended. Funds
/// are frozen until the arbitrator rules.
pub fn raise_dispute(
    escrow: &mut Escrow,
    config: &ProtocolConfig,
    caller: AccountId,
    now: i64,
) -> (result: Result<(), AgentVaultError>)
    requires
        old(escrow).wf(),
        config.wf(),
    ensures
        final(escrow).wf(),
        (match raise_check(*old(escrow), *config, caller, now) {
            Some(e) => result == Err::<(), AgentVaultError>(e) && *final(escrow) == *old(escrow),
            None => result == Ok::<(), AgentVaultError>(()) && *final(escrow) == (Escrow {
                status: EscrowStatus::Disputed,
                dispute_raised_by: Some(caller),
                ..*old(escrow)
            }),
        }),
{
    if config.paused {
        return Err(AgentVaultError::ProtocolPaused);
    }
    if caller != escrow.client && caller != escrow.provider {
        return Err(AgentVaultError::NotParticipant);
    }
    if !escrow.can_dispute() {
        return Err(AgentVaultError::InvalidStatus);
    }
    if escrow.arbitrator.is_none() {
        return Err(AgentVaultError::NoArbitrator);
    }
    if escrow.is_expired(now) {
        return Err(AgentVaultError::GracePeriodExpired);
    }
    escrow.status = EscrowStatus::Disputed;
    escrow.dispute_raised_by = Some(caller);
    Ok(())
}

/// The first reason, if any, why `resolve_dispute` rejects.
pub open spec fn resolve_check(
    escrow: Escrow,
    config: ProtocolConfig,
    caller: AccountId,
    ruling: DisputeRuling,
) -> Option<AgentVaultError> {
    if config.paused {
        Some(AgentVaultError::ProtocolPaused)
    } else if !(escrow.arbitrator matches Some(a) && a == caller) {
        Some(AgentVaultError::UnauthorizedArbitrator)
    } else if !(escrow.status is Disputed) {
        Some(AgentVaultError::InvalidStatus)
    } else if ruling matches DisputeRuling::Split { client_bps, provider_bps } && client_bps
        + provider_bps != 10000 {
        Some(AgentVaultError::InvalidSplitRuling)
    } else {
        None
    }
}

/// The client's share of the distributable remainder under a ruling.
pub open spec fn spec_client_leg(escrow: Escrow, ruling: DisputeRuling) -> int {
    match ruling {
        DisputeRuling::PayClient => escrow.spec_distributable(),
        DisputeRuling::PayProvider => 0,
        DisputeRuling::Split { client_bps, .. } => bps_portion(
            escrow.spec_distributable(),
            client_bps as int,
        ),
    }
}

/// The provider's share of the distributable remainder under a ruling: the
/// exact complement of the client's share, so the two legs always sum to
/// the distributable amount with no rounding loss.
pub open spec fn spec_provider_leg(escrow: Escrow, ruling: DisputeRuling) -> int {
    escrow.spec_distributable() - spec_client_leg(escrow, ruling)
}

/// The settlement of the dispute path (`resolve_dispute`): both fees come
/// off first, the remainder goes to the parties as the ruling directs, and
/// the client receives in addition exactly the surplus that entered the
/// vault out of band.
pub open spec fn resolution_settlement(
    escrow: Escrow,
    ruling: DisputeRuling,
    vault_balance: u64,
) -> Settlement {
    Settlement {
        provider_amount: spec_provider_leg(escrow, ruling) as u64,
        client_amount: (spec_client_leg(escrow, ruling) + (vault_balance - escrow.amount)) as u64,
        arbitrator_amount: escrow.spec_arbitrator_fee() as u64,
        protocol_fee_amount: escrow.spec_protocol_fee() as u64,
    }
}

/// The assigned arbitrator settles a dispute. Both fees come off the
/// escrow's own snapshotted rates first; the remainder goes to the parties
/// as the ruling directs, with a split computed as a floor for the client
/// and the exact complement for the provider. Any surplus in the vault
/// beyond the escrowed amount is swept to the client, and the vault is
/// closed with its residual returned to the client.
pub fn resolve_dispute(
    escrow: &mut Escrow,
    config: &ProtocolConfig,
    caller: AccountId,
    ruling: DisputeRuling,
    vault_balance: u64,
) -> (result: Result<Settlement, AgentVaultError>)
    requires
        old(escrow).wf(),
        config.wf(),
        vault_balance >= old(escrow).amount,
    ensures
        final(escrow).wf(),
        (match resolve_check(*old(escrow), *config, caller, ruling) {
            Some(e) => result == Err::<Settlement, AgentVaultError>(e) && *final(escrow) == *old(
                escrow,
            ),
            None => ({
                &&& result matches Ok(s)
                &&& s.provider_amount == spec_provider_leg(*old(escrow), ruling)
                &&& s.client_amount == spec_client_leg(*old(escrow), ruling) + (vault_balance
                    - old(escrow).amount)
                &&& s.arbitrator_amount == old(escrow).spec_arbitrator_fee()
                &&& s.protocol_fee_amount == old(escrow).spec_protocol_fee()
                &&& s == resolution_settlement(*old(escrow), ruling, vault_balance)
                &&& s.total() == vault_balance
                &&& *final(escrow) == (Escrow { status: EscrowStatus::Resolved, ..*old(escrow) })
            }),
        }),
{
    if config.paused {
        return Err(AgentVaultError::ProtocolPaused);
    }
    let authorized = match escrow.arbitrator {
        Some(a) => a == caller,
        None => false,
    };
    if !authorized {
        return Err(AgentVaultError::UnauthorizedArbitrator);
    }
    if escrow.status != EscrowStatus::Disputed {
        return Err(AgentVaultError::InvalidStatus);
    }
    if let DisputeRuling::Split { client_bps, provider_bps } = ruling {
        if (client_bps as u32) + (provider_bps as u32) != 10000 {
            return Err(AgentVaultError::InvalidSplitRuling);
        }
    }
    proof {
        lemma_fee_pair_bound(escrow.amount, escrow.protocol_fee_bps, escrow.arbitrator_fee_bps);
    }
    let protocol_fee = escrow.calculate_protocol_fee();
    let arbitrator_fee = escrow.calculate_arbitrator_fee();
    let distributable = escrow.amount - protocol_fee - arbitrator_fee;
    let surplus = vault_balance - escrow.amount;
    let client_leg: u64;
    let provider_leg: u64;
    match ruling {
        DisputeRuling::PayClient => {
            client_leg = distributable;
            provider_leg = 0;
        },
        DisputeRuling::PayProvider => {
            client_leg = 0;
            provider_leg = distributable;
        },
        DisputeRuling::Split { client_bps, .. } => {
            client_leg = bps_amount(distributable, client_bps);
            provider_leg = distributable - client_leg;
        },
    }
    escrow.status = EscrowStatus::Resolved;
    Ok(
        Settlement {
            provider_amount: provider_leg,
            client_amount: client_leg + surplus,
            arbitrator_amount: arbitrator_fee,
            protocol_fee_amount: protocol_fee,
        },
    )
}

} // verus!

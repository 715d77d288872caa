use vstd::prelude::*;

use crate::account::AccountId;
use crate::config::ProtocolConfig;
use crate::enums::{EscrowStatus, ProofType, VerificationType};
use crate::errors::AgentVaultError;
use crate::escrow::Escrow;
use crate::settlement::Settlement;

verus! {

/// The first reason, if any, why `create_escrow` rejects its inputs.
pub open spec fn create_check(
    config: ProtocolConfig,
    client: AccountId,
    provider: AccountId,
    arbitrator: Option<AccountId>,
    amount: u64,
    deadline: i64,
    grace_period: i64,
    now: i64,
) -> Option<AgentVaultError> {
    if config.paused {
        Some(AgentVaultError::ProtocolPaused)
    } else if amount == 0 {
        Some(AgentVaultError::AmountZero)
    } else if amount < config.min_escrow_amount {
        Some(AgentVaultError::BelowMinimumAmount)
    } else if config.max_escrow_amount > 0 && amount > config.max_escrow_amount {
        Some(AgentVaultError::AboveMaximumAmount)
    } else if deadline <= now {
        Some(AgentVaultError::DeadlineInPast)
    } else if deadline > now + config.max_deadline_seconds {
        Some(AgentVaultError::DeadlineTooFar)
    } else if grace_period < 0 {
        Some(AgentVaultError::InvalidGracePeriod)
    } else if grace_period < config.min_grace_period {
        Some(AgentVaultError::GracePeriodTooShort)
    } else if client == provider {
        Some(AgentVaultError::SelfEscrow)
    } else if arbitrator matches Some(a) && (a == client || a == provider) {
        Some(AgentVaultError::ArbitratorConflict)
    } else {
        None
    }
}

/// Open a new escrow. The host debits `amount` from the client into the
/// vault atomically with this record coming into existence; fee rates are
/// snapshotted from the config at this moment and never re-read. The bound
/// on `deadline + grace_period` keeps every later time comparison
/// representable in the host's clock type.
pub fn create_escrow(
    config: &ProtocolConfig,
    client: AccountId,
    provider: AccountId,
    arbitrator: Option<AccountId>,
    token_mint: AccountId,
    escrow_vault: AccountId,
    amount: u64,
    deadline: i64,
    grace_period: i64,
    task_hash: [u8; 32],
    verification_type: VerificationType,
    criteria_count: u8,
    now: i64,
) -> (result: Result<Escrow, AgentVaultError>)
    requires
        config.wf(),
        grace_period >= 0 ==> deadline + grace_period <= i64::MAX,
    ensures
        (match create_check(*config, client, provider, arbitrator, amount, deadline, grace_period,
            now,
        ) {
            Some(e) => result == Err::<Escrow, AgentVaultError>(e),
            None => ({
                &&& result matches Ok(esc)
                &&& esc.client == client
                &&& esc.provider == provider
                &&& esc.arbitrator == arbitrator
                &&& esc.token_mint == token_mint
                &&& esc.escrow_vault == escrow_vault
                &&& esc.amount == amount
                &&& esc.protocol_fee_bps == config.protocol_fee_bps
                &&& esc.arbitrator_fee_bps == config.arbitrator_fee_bps
                &&& esc.task_hash == task_hash
                &&& esc.verification_type == verification_type
                &&& esc.criteria_count == criteria_count
                &&& esc.created_at == now
                &&& esc.deadline == deadline
                &&& esc.grace_period == grace_period
                &&& esc.status is AwaitingProvider
                &&& esc.proof_type is None
                &&& (forall|i: int| 0 <= i < 64 ==> esc.proof_data[i] == 0)
                &&& esc.proof_submitted_at == 0
                &&& esc.dispute_raised_by is None
                &&& esc.client_escrow_count == 0
                &&& esc.provider_escrow_count == 0
                &&& esc.wf()
            }),
        }),
{
    if config.paused {
        return Err(AgentVaultError::ProtocolPaused);
    }
    if amount == 0 {
        return Err(AgentVaultError::AmountZero);
    }
    if amount < config.min_escrow_amount {
        return Err(AgentVaultError::BelowMinimumAmount);
    }
    if config.max_escrow_amount > 0 && amount > config.max_escrow_amount {
        return Err(AgentVaultError::AboveMaximumAmount);
    }
    if deadline <= now {
        return Err(AgentVaultError::DeadlineInPast);
    }
    if (deadline as i128) > (now as i128) + (config.max_deadline_seconds as i128) {
        return Err(AgentVaultError::DeadlineTooFar);
    }
    if grace_period < 0 {
        return Err(AgentVaultError::InvalidGracePeriod);
    }
    if grace_period < config.min_grace_period {
        return Err(AgentVaultError::GracePeriodTooShort);
    }
    if client == provider {
        return Err(AgentVaultError::SelfEscrow);
    }
    if let Some(a) = arbitrator {
        if a == client || a == provider {
            return Err(AgentVaultError::ArbitratorConflict);
        }
    }
    Ok(
        Escrow {
            client,
            provider,
            arbitrator,
            token_mint,
            escrow_vault,
            amount,
            protocol_fee_bps: config.protocol_fee_bps,
            arbitrator_fee_bps: config.arbitrator_fee_bps,
            task_hash,
            verification_type,
            criteria_count,
            created_at: now,
            deadline,
            grace_period,
            status: EscrowStatus::AwaitingProvider,
            proof_type: None,
            proof_data: [0u8; 64],
            proof_submitted_at: 0,
            dispute_raised_by: None,
            client_escrow_count: 0,
            provider_escrow_count: 0,
        },
    )
}

/// The first reason, if any, why `accept_escrow` rejects.
pub open spec fn accept_check(escrow: Escrow, caller: AccountId, now: i64) -> Option<
    AgentVaultError,
> {
    if caller != escrow.provider {
        Some(AgentVaultError::UnauthorizedProvider)
    } else if !(escrow.status is AwaitingProvider) {
        Some(AgentVaultError::NotAwaitingProvider)
    } else if now >= escrow.deadline {
        Some(AgentVaultError::DeadlinePassed)
    } else {
        None
    }
}

/// The named provider accepts the task, strictly before the deadline. No
/// funds move.
pub fn accept_escrow(escrow: &mut Escrow, caller: AccountId, now: i64) -> (result: Result<
    (),
    AgentVaultError,
>)
    requires
        old(escrow).wf(),
    ensures
        final(escrow).wf(),
        (match accept_check(*old(escrow), caller, now) {
            Some(e) => result == Err::<(), AgentVaultError>(e) && *final(escrow) == *old(escrow),
            None => result == Ok::<(), AgentVaultError>(()) && *final(escrow) == (Escrow {
                status: EscrowStatus::Active,
                ..*old(escrow)
            }),
        }),
{
    if caller != escrow.provider {
        return Err(AgentVaultError::UnauthorizedProvider);
    }
    if escrow.status != EscrowStatus::AwaitingProvider {
        return Err(AgentVaultError::NotAwaitingProvider);
    }
    if now >= escrow.deadline {
        return Err(AgentVaultError::DeadlinePassed);
    }
    escrow.status = EscrowStatus::Active;
    Ok(())
}

/// The first reason, if any, why `submit_proof` rejects.
pub open spec fn submit_check(escrow: Escrow, caller: AccountId, now: i64) -> Option<
    AgentVaultError,
> {
    if caller != escrow.provider {
        Some(AgentVaultError::UnauthorizedProvider)
    } else if !(escrow.status is Active) {
        Some(AgentVaultError::NotActive)
    } else if now > escrow.deadline {
        Some(AgentVaultError::DeadlinePassed)
    } else {
        None
    }
}

/// The provider submits proof of completion, on or before the deadline.
/// The proof is stored and the status becomes `ProofSubmitted`
/// unconditionally; funds move only through `confirm_completion` or
/// `provider_release`, never at submission time. `now` is the host's wall
/// clock, a non-negative unix timestamp.
pub fn submit_proof(
    escrow: &mut Escrow,
    caller: AccountId,
    proof_type: ProofType,
    proof_data: [u8; 64],
    now: i64,
) -> (result: Result<(), AgentVaultError>)
    requires
        old(escrow).wf(),
        now >= 0,
    ensures
        final(escrow).wf(),
        (match submit_check(*old(escrow), caller, now) {
            Some(e) => result == Err::<(), AgentVaultError>(e) && *final(escrow) == *old(escrow),
            None => result == Ok::<(), AgentVaultError>(()) && *final(escrow) == (Escrow {
                status: EscrowStatus::ProofSubmitted,
                proof_type: Some(proof_type),
                proof_data,
                proof_submitted_at: now,
                ..*old(escrow)
            }),
        }),
{
    if caller != escrow.provider {
        return Err(AgentVaultError::UnauthorizedProvider);
    }
    if escrow.status != EscrowStatus::Active {
        return Err(AgentVaultError::NotActive);
    }
    if now > escrow.deadline {
        return Err(AgentVaultError::DeadlinePassed);
    }
    escrow.proof_type = Some(proof_type);
    escrow.proof_data = proof_data;
    escrow.proof_submitted_at = now;
    escrow.status = EscrowStatus::ProofSubmitted;
    Ok(())
}

/// The settlement of the normal completion path (`confirm_completion` and
/// `provider_release`): the provider receives the escrowed amount less the
/// protocol fee, the fee authority receives the fee, and the client
/// receives exactly the surplus that entered the vault out of band.
pub open spec fn completion_settlement(escrow: Escrow, vault_balance: u64) -> Settlement {
    Settlement {
        provider_amount: (escrow.amount - escrow.spec_protocol_fee()) as u64,
        client_amount: (vault_balance - escrow.amount) as u64,
        arbitrator_amount: 0u64,
        protocol_fee_amount: escrow.spec_protocol_fee() as u64,
    }
}

/// The settlement of the pure refund paths (`cancel_escrow` and
/// `expire_escrow`): the whole vault balance back to the client, no fee.
pub open spec fn refund_settlement(vault_balance: u64) -> Settlement {
    Settlement {
        provider_amount: 0u64,
        client_amount: vault_balance,
        arbitrator_amount: 0u64,
        protocol_fee_amount: 0u64,
    }
}

/// The first reason, if any, why `confirm_completion` rejects.
pub open spec fn confirm_check(
    escrow: Escrow,
    config: ProtocolConfig,
    caller: AccountId,
) -> Option<AgentVaultError> {
    if config.paused {
        Some(AgentVaultError::ProtocolPaused)
    } else if caller != escrow.client {
        Some(AgentVaultError::UnauthorizedClient)
    } else if !(escrow.status is ProofSubmitted) {
        Some(AgentVaultError::NoProofSubmitted)
    } else if !(escrow.verification_type is MultiSigConfirm || escrow.verification_type
        is OnChain) {
        Some(AgentVaultError::VerificationTypeMismatch)
    } else {
        None
    }
}

/// The client confirms the proven work and the escrow settles: the provider
/// receives the amount less the protocol fee, the fee goes to the fee
/// authority, and anything in the vault beyond the escrowed amount is swept
/// to the client. The vault is then closed. `vault_balance` is what the
/// host read from the vault, which custody guarantees holds at least the
/// escrowed amount.
pub fn confirm_completion(
    escrow: &mut Escrow,
    config: &ProtocolConfig,
    caller: AccountId,
    vault_balance: u64,
) -> (result: Result<Settlement, AgentVaultError>)
    requires
        old(escrow).wf(),
        config.wf(),
        vault_balance >= old(escrow).amount,
    ensures
        final(escrow).wf(),
        (match confirm_check(*old(escrow), *config, caller) {
            Some(e) => result == Err::<Settlement, AgentVaultError>(e) && *final(escrow) == *old(
                escrow,
            ),
            None => ({
                &&& result matches Ok(s)
                &&& s.provider_amount == old(escrow).amount - old(escrow).spec_protocol_fee()
                &&& s.client_amount == vault_balance - old(escrow).amount
                &&& s.arbitrator_amount == 0
                &&& s.protocol_fee_amount == old(escrow).spec_protocol_fee()
                &&& s == completion_settlement(*old(escrow), vault_balance)
                &&& s.total() == vault_balance
                &&& *final(escrow) == (Escrow {
                    status: EscrowStatus::Completed,
                    client_escrow_count: 1,
                    provider_escrow_count: 1,
                    ..*old(escrow)
                })
            }),
        }),
{
    if config.paused {
        return Err(AgentVaultError::ProtocolPaused);
    }
    if caller != escrow.client {
        return Err(AgentVaultError::UnauthorizedClient);
    }
    if escrow.status != EscrowStatus::ProofSubmitted {
        return Err(AgentVaultError::NoProofSubmitted);
    }
    if !matches!(
        escrow.verification_type,
        VerificationType::MultiSigConfirm | VerificationType::OnChain,
    ) {
        return Err(AgentVaultError::VerificationTypeMismatch);
    }
    let protocol_fee = escrow.calculate_protocol_fee();
    let provider_amount = escrow.provider_payout();
    let remainder = vault_balance - escrow.amount;
    escrow.status = EscrowStatus::Completed;
    escrow.client_escrow_count = escrow.client_escrow_count + 1;
    escrow.provider_escrow_count = escrow.provider_escrow_count + 1;
    Ok(
        Settlement {
            provider_amount,
            client_amount: remainder,
            arbitrator_amount: 0,
            protocol_fee_amount: protocol_fee,
        },
    )
}

/// When the provider may settle without the client: only after both the
/// confirmation window (`proof_submitted_at + grace_period`) and the
/// deadline window (`deadline + grace_period`) have fully passed. Taking
/// the later of the two clocks keeps a provider who submits proof early
/// from opening the release window early.
pub open spec fn spec_release_time(escrow: Escrow) -> int {
    let after_proof = escrow.proof_submitted_at + escrow.grace_period;
    let after_deadline = escrow.deadline + escrow.grace_period;
    if after_proof > after_deadline {
        after_proof
    } else {
        after_deadline
    }
}

/// The first reason, if any, why `provider_release` rejects.
pub open spec fn release_check(
    escrow: Escrow,
    config: ProtocolConfig,
    caller: AccountId,
    now: i64,
) -> Option<AgentVaultError> {
    if config.paused {
        Some(AgentVaultError::ProtocolPaused)
    } else if caller != escrow.provider {
        Some(AgentVaultError::UnauthorizedProvider)
    } else if !(escrow.status is ProofSubmitted) {
        Some(AgentVaultError::NoProofSubmitted)
    } else if now <= spec_release_time(escrow) {
        Some(AgentVaultError::AutoReleaseNotReady)
    } else {
        None
    }
}

/// The provider self-releases after the confirmation timeout: proof was
/// submitted, no dispute was raised, and the release time has strictly
/// passed. This protects a provider whose client ignores the proof and
/// waits for expiry. Settlement is identical to `confirm_completion`.
pub fn provider_release(
    escrow: &mut Escrow,
    config: &ProtocolConfig,
    caller: AccountId,
    now: i64,
    vault_balance: u64,
) -> (result: Result<Settlement, AgentVaultError>)
    requires
        old(escrow).wf(),
        config.wf(),
        vault_balance >= old(escrow).amount,
    ensures
        final(escrow).wf(),
        (match release_check(*old(escrow), *config, caller, now) {
            Some(e) => result == Err::<Settlement, AgentVaultError>(e) && *final(escrow) == *old(
                escrow,
            ),
            None => ({
                &&& result matches Ok(s)
                &&& s.provider_amount == old(escrow).amount - old(escrow).spec_protocol_fee()
                &&& s.client_amount == vault_balance - old(escrow).amount
                &&& s.arbitrator_amount == 0
                &&& s.protocol_fee_amount == old(escrow).spec_protocol_fee()
                &&& s == completion_settlement(*old(escrow), vault_balance)
                &&& s.total() == vault_balance
                &&& *final(escrow) == (Escrow {
                    status: EscrowStatus::Completed,
                    client_escrow_count: 1,
                    provider_escrow_count: 1,
                    ..*old(escrow)
                })
            }),
        }),
{
    if config.paused {
        return Err(AgentVaultError::ProtocolPaused);
    }
    if caller != escrow.provider {
        return Err(AgentVaultError::UnauthorizedProvider);
    }
    if escrow.status != EscrowStatus::ProofSubmitted {
        return Err(AgentVaultError::NoProofSubmitted);
    }
    let release_after_proof = escrow.proof_submitted_at + escrow.grace_period;
    let release_after_deadline = escrow.deadline + escrow.grace_period;
    let release_time = if release_after_proof > release_after_deadline {
        release_after_proof
    } else {
        release_after_deadline
    };
    if now <= release_time {
        return Err(AgentVaultError::AutoReleaseNotReady);
    }
    let protocol_fee = escrow.calculate_protocol_fee();
    let provider_amount = escrow.provider_payout();
    let remainder = vault_balance - escrow.amount;
    escrow.status = EscrowStatus::Completed;
    escrow.client_escrow_count = escrow.client_escrow_count + 1;
    escrow.provider_escrow_count = escrow.provider_escrow_count + 1;
    Ok(
        Settlement {
            provider_amount,
            client_amount: remainder,
            arbitrator_amount: 0,
            protocol_fee_amount: protocol_fee,
        },
    )
}

/// The first reason, if any, why `cancel_escrow` rejects.
pub open spec fn cancel_check(escrow: Escrow, caller: AccountId) -> Option<AgentVaultError> {
    if caller != escrow.client {
        Some(AgentVaultError::UnauthorizedClient)
    } else if !(escrow.status is AwaitingProvider) {
        Some(AgentVaultError::InvalidStatus)
    } else {
        None
    }
}

/// The client cancels before any provider commitment: a full refund of the
/// whole vault balance, no fee, vault closed. This pure refund path stays
/// available while the protocol is paused, so a pause can never trap
/// client funds.
pub fn cancel_escrow(escrow: &mut Escrow, caller: AccountId, vault_balance: u64) -> (result: Result<
    Settlement,
    AgentVaultError,
>)
    requires
        old(escrow).wf(),
        vault_balance >= old(escrow).amount,
    ensures
        final(escrow).wf(),
        (match cancel_check(*old(escrow), caller) {
            Some(e) => result == Err::<Settlement, AgentVaultError>(e) && *final(escrow) == *old(
                escrow,
            ),
            None => ({
                &&& result matches Ok(s)
                &&& s == refund_settlement(vault_balance)
                &&& s.total() == vault_balance
                &&& *final(escrow) == (Escrow { status: EscrowStatus::Cancelled, ..*old(escrow) })
            }),
        }),
{
    if caller != escrow.client {
        return Err(AgentVaultError::UnauthorizedClient);
    }
    if escrow.status != EscrowStatus::AwaitingProvider {
        return Err(AgentVaultError::InvalidStatus);
    }
    escrow.status = EscrowStatus::Cancelled;
    Ok(
        Settlement {
            provider_amount: 0,
            client_amount: vault_balance,
            arbitrator_amount: 0,
            protocol_fee_amount: 0,
        },
    )
}

/// The first reason, if any, why `expire_escrow` rejects.
pub open spec fn expire_check(escrow: Escrow, now: i64) -> Option<AgentVaultError> {
    if !(escrow.status is AwaitingProvider || escrow.status is Active) {
        Some(AgentVaultError::InvalidStatus)
    } else if !escrow.spec_is_expired(now) {
        Some(AgentVaultError::NotYetExpired)
    } else {
        None
    }
}

/// Anyone may expire an escrow once the deadline and the grace period have
/// strictly passed, from `AwaitingProvider` or `Active` only — proof in
/// flight is protected from unilateral expiry. Full refund of the whole
/// vault balance to the client, no fee, vault closed. Like `cancel_escrow`,
/// this path ignores the pause flag.
pub fn expire_escrow(escrow: &mut Escrow, now: i64, vault_balance: u64) -> (result: Result<
    Settlement,
    AgentVaultError,
>)
    requires
        old(escrow).wf(),
        vault_balance >= old(escrow).amount,
    ensures
        final(escrow).wf(),
        (match expire_check(*old(escrow), now) {
            Some(e) => result == Err::<Settlement, AgentVaultError>(e) && *final(escrow) == *old(
                escrow,
            ),
            None => ({
                &&& result matches Ok(s)
                &&& s == refund_settlement(vault_balance)
                &&& s.total() == vault_balance
                &&& *final(escrow) == (Escrow { status: EscrowStatus::Expired, ..*old(escrow) })
            }),
        }),
{
    if !matches!(escrow.status, EscrowStatus::AwaitingProvider | EscrowStatus::Active) {
        return Err(AgentVaultError::InvalidStatus);
    }
    if !escrow.is_expired(now) {
        return Err(AgentVaultError::NotYetExpired);
    }
    escrow.status = EscrowStatus::Expired;
    Ok(
        Settlement {
            provider_amount: 0,
            client_amount: vault_balance,
            arbitrator_amount: 0,
            protocol_fee_amount: 0,
        },
    )
}

} // verus!

use vstd::prelude::*;

verus! {

/// Typed rejection of an operation. Every failure is synchronous and leaves
/// the record untouched; no error is retried by the engine.
#[derive(Clone, Copy, PartialEq, Eq, Structural, Debug)]
pub enum AgentVaultError {
    /// Escrow amount must be greater than zero.
    AmountZero,
    /// Escrow amount is below the configured minimum.
    BelowMinimumAmount,
    /// Escrow amount exceeds the configured maximum.
    AboveMaximumAmount,
    /// Deadline must be in the future.
    DeadlineInPast,
    /// Deadline exceeds the maximum allowed duration.
    DeadlineTooFar,
    /// Grace period must be non-negative.
    InvalidGracePeriod,
    /// Grace period is below the configured minimum.
    GracePeriodTooShort,
    /// Client and provider cannot be the same identity.
    SelfEscrow,
    /// Arbitrator cannot be the client or the provider.
    ArbitratorConflict,
    /// Fee rate exceeds the maximum allowed (5%).
    FeeTooHigh,
    /// Fee authority is not a valid identity.
    InvalidFeeAccount,
    /// The protocol is paused.
    ProtocolPaused,
    /// Only the protocol admin can perform this action.
    UnauthorizedAdmin,
    /// Only the client can perform this action.
    UnauthorizedClient,
    /// Only the provider can perform this action.
    UnauthorizedProvider,
    /// Only the assigned arbitrator can perform this action.
    UnauthorizedArbitrator,
    /// Caller is not a participant in this escrow.
    NotParticipant,
    /// No arbitrator is assigned to this escrow.
    NoArbitrator,
    /// The escrow is not awaiting a provider.
    NotAwaitingProvider,
    /// The escrow is not active.
    NotActive,
    /// The escrow has no proof submitted.
    NoProofSubmitted,
    /// The escrow is not in a status that permits this operation.
    InvalidStatus,
    /// The deadline for this escrow has passed.
    DeadlinePassed,
    /// The escrow has not yet expired (deadline plus grace period).
    NotYetExpired,
    /// Cannot raise a dispute after the grace period has ended.
    GracePeriodExpired,
    /// The self-release window has not opened yet.
    AutoReleaseNotReady,
    /// The verification type does not permit this operation.
    VerificationTypeMismatch,
    /// Dispute ruling basis points must total 10000.
    InvalidSplitRuling,
}

} // verus!

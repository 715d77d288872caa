use vstd::prelude::*;

verus! {

/// Lifecycle state of an escrow record.
///
/// The graph is monotonic: `AwaitingProvider -> Active -> ProofSubmitted ->
/// {Completed | Disputed}`, with `Disputed -> Resolved`, the cancel edge
/// `AwaitingProvider -> Cancelled` and the expiry edges `AwaitingProvider |
/// Active -> Expired`. There are no back-edges, and the four terminal states
/// admit no further operation.
#[derive(Clone, Copy, PartialEq, Eq, Structural, Debug)]
pub enum EscrowStatus {
    /// Created and funded, waiting for the provider to accept.
    AwaitingProvider,
    /// Provider accepted, work in progress.
    Active,
    /// Provider says the work is done and has submitted proof.
    ProofSubmitted,
    /// Funds released to the provider; terminal.
    Completed,
    /// One party challenged the outcome; awaiting the arbitrator.
    Disputed,
    /// Dispute settled by the arbitrator; terminal.
    Resolved,
    /// Deadline and grace period passed without completion; terminal.
    Expired,
    /// Cancelled by the client before acceptance; terminal.
    Cancelled,
}

impl EscrowStatus {
    /// A terminal status: the record and its vault are closed and no further
    /// operation may target them.
    pub open spec fn is_terminal(self) -> bool {
        ||| self is Completed
        ||| self is Resolved
        ||| self is Expired
        ||| self is Cancelled
    }
}

impl Default for EscrowStatus {
    fn default() -> (r: EscrowStatus)
        ensures
            r is AwaitingProvider,
    {
        EscrowStatus::AwaitingProvider
    }
}

/// How completion of the task is verified before funds are released.
#[derive(Clone, Copy, PartialEq, Eq, Structural, Debug)]
pub enum VerificationType {
    /// Proof is a transaction observable on the host ledger.
    OnChain,
    /// An external oracle confirms completion.
    OracleCallback,
    /// The client (or arbitrator) confirms directly.
    MultiSigConfirm,
    /// Timer-based release if no dispute is raised.
    AutoRelease,
}

impl Default for VerificationType {
    fn default() -> (r: VerificationType)
        ensures
            r is MultiSigConfirm,
    {
        VerificationType::MultiSigConfirm
    }
}

/// The kind of success metric a task criterion describes.
#[derive(Clone, Copy, PartialEq, Eq, Structural, Debug)]
pub enum CriterionType {
    /// A specific transaction happened on the host ledger.
    TransactionExecuted,
    /// Tokens moved to an expected address.
    TokenTransferred,
    /// Executed below or above a price.
    PriceThreshold,
    /// Completed within a timeframe.
    TimeBound,
    /// Verified by an oracle or by direct confirmation.
    Custom,
}

/// The format of a submitted proof.
#[derive(Clone, Copy, PartialEq, Eq, Structural, Debug)]
pub enum ProofType {
    TransactionSignature,
    OracleAttestation,
    SignedConfirmation,
}

/// How an arbitrator resolves a dispute.
#[derive(Clone, Copy, PartialEq, Eq, Structural, Debug)]
pub enum DisputeRuling {
    /// All distributable funds to the client.
    PayClient,
    /// All distributable funds to the provider.
    PayProvider,
    /// Split the distributable funds in basis points; the two shares must
    /// total 10000.
    Split { client_bps: u16, provider_bps: u16 },
}

} // verus!

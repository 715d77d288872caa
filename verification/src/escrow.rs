use vstd::prelude::*;

use crate::account::AccountId;
use crate::enums::{EscrowStatus, ProofType, VerificationType};
use crate::fees::{bps_amount, lemma_bps_portion_bounds, lemma_fee_pair_bound, spec_fee};

verus! {

/// One escrow agreement: participants, funds, task, timing, status, proof
/// and dispute metadata. Fee rates are snapshotted from the protocol config
/// at creation time and never re-read, so a later config change cannot
/// retroactively affect an existing escrow.
#[derive(Clone, Copy, Debug)]
pub struct Escrow {
    /// The paying party; owns refund rights before acceptance and after
    /// expiry.
    pub client: AccountId,
    /// The working party; gains payout rights once work is proven.
    pub provider: AccountId,
    /// Optional third party; gains settlement rights only while `Disputed`.
    pub arbitrator: Option<AccountId>,
    /// Which token the escrow is denominated in.
    pub token_mint: AccountId,
    /// The custody location holding the escrowed funds, controlled by an
    /// authority derived from this escrow alone.
    pub escrow_vault: AccountId,
    /// Total escrowed amount in the smallest token unit; always positive.
    pub amount: u64,
    /// Protocol fee in basis points, snapshotted at creation; at most 500.
    pub protocol_fee_bps: u16,
    /// Arbitrator fee in basis points, snapshotted at creation; at most 500.
    pub arbitrator_fee_bps: u16,
    /// Content digest of the full task description; opaque to the engine.
    pub task_hash: [u8; 32],
    /// How completion is verified before funds are released.
    pub verification_type: VerificationType,
    /// Number of success criteria, kept for off-chain tooling.
    pub criteria_count: u8,
    /// When the escrow was created (host clock, seconds).
    pub created_at: i64,
    /// The task must be completed by this time; after creation, strictly
    /// later than `created_at`.
    pub deadline: i64,
    /// Seconds after `deadline` during which a dispute may still be raised
    /// and after which expiry and self-release open; never negative.
    pub grace_period: i64,
    /// Lifecycle state.
    pub status: EscrowStatus,
    /// Format of the submitted proof, if any.
    pub proof_type: Option<ProofType>,
    /// Fixed-size opaque proof blob.
    pub proof_data: [u8; 64],
    /// When proof was submitted; 0 until then.
    pub proof_submitted_at: i64,
    /// Who raised the dispute, while one is open.
    pub dispute_raised_by: Option<AccountId>,
    /// Completed agreements counted for the client; set on normal
    /// completion only.
    pub client_escrow_count: u32,
    /// Completed agreements counted for the provider; set on normal
    /// completion only.
    pub provider_escrow_count: u32,
}

impl Escrow {
    /// Well-formedness of a reachable record: established by creation and
    /// preserved by every operation.
    pub open spec fn wf(self) -> bool {
        &&& self.amount > 0
        &&& self.protocol_fee_bps <= 500
        &&& self.arbitrator_fee_bps <= 500
        &&& self.grace_period >= 0
        &&& self.created_at < self.deadline
        &&& self.deadline + self.grace_period <= i64::MAX
        &&& self.client != self.provider
        &&& (self.arbitrator matches Some(a) ==> a != self.client && a != self.provider)
        &&& ((self.status is AwaitingProvider || self.status is Active) ==> self.proof_type
            is None && self.proof_submitted_at == 0)
        &&& (self.status is ProofSubmitted ==> self.proof_type is Some && 0
            <= self.proof_submitted_at <= self.deadline)
        &&& (self.status is Disputed ==> (self.dispute_raised_by matches Some(r) && (r
            == self.client || r == self.provider)))
        &&& ((self.status is AwaitingProvider || self.status is Active || self.status
            is ProofSubmitted) ==> self.dispute_raised_by is None)
        &&& (self.status is Completed ==> self.client_escrow_count == 1
            && self.provider_escrow_count == 1)
        &&& (!(self.status is Completed) ==> self.client_escrow_count == 0
            && self.provider_escrow_count == 0)
    }

    /// The protocol fee owed from this escrow, per its snapshotted rate.
    pub open spec fn spec_protocol_fee(self) -> int {
        spec_fee(self.amount, self.protocol_fee_bps)
    }

    /// The arbitrator fee owed from this escrow, per its snapshotted rate.
    pub open spec fn spec_arbitrator_fee(self) -> int {
        spec_fee(self.amount, self.arbitrator_fee_bps)
    }

    /// What remains for the parties after both fees on the dispute path.
    pub open spec fn spec_distributable(self) -> int {
        self.amount - self.spec_protocol_fee() - self.spec_arbitrator_fee()
    }

    /// Whether `current_time` is past the end of the grace window.
    pub open spec fn spec_is_expired(self, current_time: i64) -> bool {
        current_time > self.deadline + self.grace_period
    }

    /// Whether the current status permits raising a dispute.
    pub open spec fn spec_can_dispute(self) -> bool {
        self.status is Active || self.status is ProofSubmitted
    }

    /// True once the deadline and the grace period have both passed.
    pub fn is_expired(&self, current_time: i64) -> (r: bool)
        requires
            self.grace_period >= 0,
            self.deadline + self.grace_period <= i64::MAX,
        ensures
            r == self.spec_is_expired(current_time),
    {
        current_time > self.deadline + self.grace_period
    }

    /// True in the statuses from which a dispute may be raised.
    pub fn can_dispute(&self) -> (r: bool)
        ensures
            r == self.spec_can_dispute(),
    {
        matches!(self.status, EscrowStatus::Active | EscrowStatus::ProofSubmitted)
    }

    /// The protocol fee, rounded down; never exceeds the escrowed amount.
    pub fn calculate_protocol_fee(&self) -> (r: u64)
        requires
            self.protocol_fee_bps <= 10000,
        ensures
            r == self.spec_protocol_fee(),
            r <= self.amount,
    {
        bps_amount(self.amount, self.protocol_fee_bps)
    }

    /// The arbitrator fee, rounded down; never exceeds the escrowed amount.
    pub fn calculate_arbitrator_fee(&self) -> (r: u64)
        requires
            self.arbitrator_fee_bps <= 10000,
        ensures
            r == self.spec_arbitrator_fee(),
            r <= self.amount,
    {
        bps_amount(self.amount, self.arbitrator_fee_bps)
    }

    /// What the provider receives on the normal completion path: the full
    /// amount less the protocol fee.
    pub fn provider_payout(&self) -> (r: u64)
        requires
            self.protocol_fee_bps <= 10000,
        ensures
            r == self.amount - self.spec_protocol_fee(),
    {
        proof {
            lemma_bps_portion_bounds(self.amount as int, self.protocol_fee_bps as int);
        }
        let fee = self.calculate_protocol_fee();
        self.amount - fee
    }

    /// What the provider would receive on the dispute path if awarded the
    /// whole distributable remainder: the amount less both fees.
    pub fn provider_payout_after_dispute(&self) -> (r: u64)
        requires
            self.protocol_fee_bps <= 500,
            self.arbitrator_fee_bps <= 500,
        ensures
            r == self.spec_distributable(),
    {
        proof {
            lemma_fee_pair_bound(self.amount, self.protocol_fee_bps, self.arbitrator_fee_bps);
        }
        let protocol_fee = self.calculate_protocol_fee();
        let arbitrator_fee = self.calculate_arbitrator_fee();
        self.amount - protocol_fee - arbitrator_fee
    }
}

impl Default for Escrow {
    /// An all-zero record: every identity absent or zero, every amount and
    /// timestamp zero, status at the start of the lifecycle. Not
    /// well-formed; a usable record comes from `create_escrow`.
    fn default() -> (r: Escrow)
        ensures
            r.client == (AccountId { key: 0 }),
            r.provider == (AccountId { key: 0 }),
            r.arbitrator is None,
            r.token_mint == (AccountId { key: 0 }),
            r.escrow_vault == (AccountId { key: 0 }),
            r.amount == 0,
            r.protocol_fee_bps == 0,
            r.arbitrator_fee_bps == 0,
            forall|i: int| 0 <= i < 32 ==> r.task_hash[i] == 0,
            r.verification_type is MultiSigConfirm,
            r.criteria_count == 0,
            r.created_at == 0,
            r.deadline == 0,
            r.grace_period == 0,
            r.status is AwaitingProvider,
            r.proof_type is None,
            forall|i: int| 0 <= i < 64 ==> r.proof_data[i] == 0,
            r.proof_submitted_at == 0,
            r.dispute_raised_by is None,
            r.client_escrow_count == 0,
            r.provider_escrow_count == 0,
    {
        Escrow {
            client: AccountId { key: 0 },
            provider: AccountId { key: 0 },
            arbitrator: None,
            token_mint: AccountId { key: 0 },
            escrow_vault: AccountId { key: 0 },
            amount: 0,
            protocol_fee_bps: 0,
            arbitrator_fee_bps: 0,
            task_hash: [0u8; 32],
            verification_type: VerificationType::MultiSigConfirm,
            criteria_count: 0,
            created_at: 0,
            deadline: 0,
            grace_period: 0,
            status: EscrowStatus::AwaitingProvider,
            proof_type: None,
            proof_data: [0u8; 64],
            proof_submitted_at: 0,
            dispute_raised_by: None,
            client_escrow_count: 0,
            provider_escrow_count: 0,
        }
    }
}

} // verus!

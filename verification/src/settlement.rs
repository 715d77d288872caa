use vstd::prelude::*;

verus! {

/// The fund movements a settling operation instructs the host custody
/// module to perform, all out of the escrow's vault. A settlement always
/// drains the vault completely — its four legs sum to the vault balance —
/// after which the vault is closed and its residual rent returned to the
/// client.
#[derive(Clone, Copy, PartialEq, Eq, Structural, Debug)]
pub struct Settlement {
    /// Paid to the provider.
    pub provider_amount: u64,
    /// Paid to the client: refunds, awarded legs, and any surplus that was
    /// transferred into the vault out of band.
    pub client_amount: u64,
    /// Paid to the assigned arbitrator.
    pub arbitrator_amount: u64,
    /// Paid to the protocol fee authority.
    pub protocol_fee_amount: u64,
}

impl Settlement {
    /// Everything this settlement pays out, over all four legs.
    pub open spec fn total(self) -> int {
        self.provider_amount + self.client_amount + self.arbitrator_amount
            + self.protocol_fee_amount
    }
}

} // verus!

use vstd::prelude::*;

verus! {

/// The identity of a participant, wallet or token account, as authenticated
/// by the host ledger. The engine never inspects an identity: it only
/// compares one against another, so a numeric handle stands in for the
/// host's full-size key. The host keeps the mapping between its keys and
/// these handles.
#[derive(Clone, Copy, PartialEq, Eq, Structural, Debug)]
pub struct AccountId {
    pub key: u64,
}

impl Default for AccountId {
    /// The all-zero identity, used nowhere as a real participant.
    fn default() -> (r: AccountId)
        ensures
            r == (AccountId { key: 0 }),
    {
        AccountId { key: 0 }
    }
}

} // verus!

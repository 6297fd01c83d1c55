use vstd::prelude::*;

verus! {

/// The ways an operation on the ledger can fail.
#[derive(Clone, Debug, PartialEq, Eq)]
pub enum ContractError {
    /// The underlying store failed; the message is the store's own.
    StorageFailure { msg: String },
    /// No proposal has the requested id.
    NotFound {},
    /// The caller is not in the registry (reserved: no operation raises it yet).
    NotRegistered {},
    /// A vote was cast on a proposal that is no longer open.
    ProposalNotActive {},
    /// The caller has already voted on this proposal.
    AlreadyVoted {},
    /// A cross-chain message failed verification (reserved: no operation raises it yet).
    AxelarVerificationFailed {},
}

} // verus!

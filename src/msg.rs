use vstd::prelude::*;

verus! {

/// The message that sets a ledger up.
#[derive(Clone, Debug, PartialEq, Eq)]
pub struct InstantiateMsg {
    pub sui_registry_address: String,
}

/// The messages that change a ledger.
#[derive(Clone, Debug, PartialEq, Eq)]
pub enum ExecuteMsg {
    CreateProposal { description: String },
    Vote { proposal_id: u64, vote: bool },
}

/// The messages that read a ledger.
#[derive(Clone, Debug, PartialEq, Eq)]
pub enum QueryMsg {
    GetProposal { proposal_id: u64 },
    ListProposals { start_after: Option<u64>, limit: Option<u32> },
}

/// What a query shows of a proposal: everything but its voters.
#[derive(Clone, Debug, PartialEq, Eq)]
pub struct ProposalResponse {
    pub id: u64,
    pub creator: String,
    pub description: String,
    pub yes_votes: u64,
    pub no_votes: u64,
    pub active: bool,
}

/// The mathematical value of a [`ProposalResponse`].
pub struct ProposalResponseView {
    pub id: nat,
    pub creator: Seq<char>,
    pub description: Seq<char>,
    pub yes_votes: nat,
    pub no_votes: nat,
    pub active: bool,
}

impl View for ProposalResponse {
    type V = ProposalResponseView;

    open spec fn view(&self) -> ProposalResponseView {
        ProposalResponseView {
            id: self.id as nat,
            creator: self.creator@,
            description: self.description@,
            yes_votes: self.yes_votes as nat,
            no_votes: self.no_votes as nat,
            active: self.active,
        }
    }
}

/// The answer to a [`QueryMsg`].
#[derive(Clone, Debug, PartialEq, Eq)]
pub enum QueryResponse {
    Proposal(ProposalResponse),
    Proposals(Vec<ProposalResponse>),
}

/// What a successful operation reports, for observers outside the ledger.
#[derive(Clone, Debug, PartialEq, Eq)]
pub enum Event {
    Instantiated { owner: String, sui_registry: String },
    ProposalCreated { proposal_id: u64, creator: String, description: String },
    VoteCast { proposal_id: u64, voter: String, vote: bool },
}

} // verus!

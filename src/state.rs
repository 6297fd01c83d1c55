use vstd::prelude::*;

use crate::error::ContractError;
use crate::msg::{ProposalResponse, ProposalResponseView};

verus! {

/// The ledger's configuration, fixed when the ledger is set up.
#[derive(Clone, Debug, PartialEq, Eq)]
pub struct Config {
    pub sui_registry_address: String,
}

/// A proposal and the votes cast on it.
#[derive(Clone, Debug, PartialEq, Eq)]
pub struct Proposal {
    pub creator: String,
    pub description: String,
    pub yes_votes: u64,
    pub no_votes: u64,
    pub voters: Vec<String>,
    pub active: bool,
}

/// The mathematical value of a [`Proposal`].
pub struct ProposalView {
    pub creator: Seq<char>,
    pub description: Seq<char>,
    pub yes_votes: nat,
    pub no_votes: nat,
    pub voters: Seq<Seq<char>>,
    pub active: bool,
}

impl View for Proposal {
    type V = ProposalView;

    open spec fn view(&self) -> ProposalView {
        ProposalView {
            creator: self.creator@,
            description: self.description@,
            yes_votes: self.yes_votes as nat,
            no_votes: self.no_votes as nat,
            voters: self.voters@.map_values(|v: String| v@),
            active: self.active,
        }
    }
}

impl ProposalView {
    /// Every vote is counted once: the tallies add up to the number of voters,
    /// and no voter is listed twice.
    pub open spec fn wf(self) -> bool {
        &&& self.yes_votes + self.no_votes == self.voters.len()
        &&& self.voters.no_duplicates()
    }

    pub open spec fn has_voted(self, voter: Seq<char>) -> bool {
        self.voters.contains(voter)
    }

    /// A new proposal: open, with no votes.
    pub open spec fn fresh(creator: Seq<char>, description: Seq<char>) -> ProposalView {
        ProposalView {
            creator,
            description,
            yes_votes: 0,
            no_votes: 0,
            voters: Seq::empty(),
            active: true,
        }
    }

    /// Why `voter` may not vote on this proposal, if there is a reason.
    pub open spec fn vote_refusal(self, voter: Seq<char>) -> Option<ContractError> {
        if !self.active {
            Some(ContractError::ProposalNotActive {  })
        } else if self.has_voted(voter) {
            Some(ContractError::AlreadyVoted {  })
        } else {
            None
        }
    }

    /// The proposal once `voter` has voted `choice` on it.
    pub open spec fn with_vote(self, voter: Seq<char>, choice: bool) -> ProposalView {
        ProposalView {
            yes_votes: if choice { self.yes_votes + 1 } else { self.yes_votes },
            no_votes: if choice { self.no_votes } else { self.no_votes + 1 },
            voters: self.voters.push(voter),
            ..self
        }
    }

    /// What a query shows of this proposal under the id `id`.
    pub open spec fn response(self, id: nat) -> ProposalResponseView {
        ProposalResponseView {
            id,
            creator: self.creator,
            description: self.description,
            yes_votes: self.yes_votes,
            no_votes: self.no_votes,
            active: self.active,
        }
    }
}

impl Proposal {
    /// A new proposal by `creator`: open, with no votes.
    pub fn new(creator: String, description: String) -> (r: Proposal)
        ensures
            r@ == ProposalView::fresh(creator@, description@),
    {
        let r = Proposal {
            creator,
            description,
            yes_votes: 0,
            no_votes: 0,
            voters: Vec::new(),
            active: true,
        };
        assert(r@.voters =~= Seq::<Seq<char>>::empty());
        r
    }

    /// Whether `voter` is among the proposal's voters.
    pub fn has_voted(&self, voter: &String) -> (r: bool)
        ensures
            r == self@.has_voted(voter@),
    {
        let mut i: usize = 0;
        while i < self.voters.len()
            invariant
                0 <= i <= self.voters.len(),
                forall|j: int| 0 <= j < i ==> self.voters@[j]@ != voter@,
            decreases self.voters.len() - i,
        {
            if self.voters[i] == *voter {
                assert(self@.voters[i as int] == voter@);
                return true;
            }
            i += 1;
        }
        assert(!self@.voters.contains(voter@)) by {
            if self@.voters.contains(voter@) {
                let j = choose|j: int| 0 <= j < self@.voters.len() && self@.voters[j] == voter@;
                assert(self.voters@[j]@ == voter@);
            }
        }
        false
    }

    /// Records a vote of `voter` for `choice`. It fails, and nothing changes,
    /// where the proposal is closed or `voter` has voted on it already.
    pub fn cast_vote(&mut self, voter: String, choice: bool) -> (r: Result<(), ContractError>)
        requires
            old(self)@.wf(),
            old(self)@.voters.len() < u64::MAX,
        ensures
            final(self)@.wf(),
            match old(self)@.vote_refusal(voter@) {
                Some(e) => r == Err::<(), ContractError>(e) && *final(self) == *old(self),
                None => r is Ok && final(self)@ == old(self)@.with_vote(voter@, choice),
            },
    {
        if !self.active {
            return Err(ContractError::ProposalNotActive {  });
        }
        if self.has_voted(&voter) {
            return Err(ContractError::AlreadyVoted {  });
        }
        if choice {
            self.yes_votes = self.yes_votes + 1;
        } else {
            self.no_votes = self.no_votes + 1;
        }
        self.voters.push(voter);
        assert(self@.voters =~= old(self)@.voters.push(voter@));
        Ok(())
    }

    /// What a query shows of this proposal under the id `id`.
    pub fn to_response(&self, id: u64) -> (r: ProposalResponse)
        ensures
            r@ == self@.response(id as nat),
    {
        ProposalResponse {
            id,
            creator: self.creator.clone(),
            description: self.description.clone(),
            yes_votes: self.yes_votes,
            no_votes: self.no_votes,
            active: self.active,
        }
    }
}

/// How many proposals a listing holds when the caller names no limit.
pub const DEFAULT_LIMIT: u32 = 30;

/// The ledger: its configuration, the proposal counter, and the proposals.
/// The proposal with id `i` (counting from 1) is `proposals[i - 1]`.
#[derive(Clone, Debug, PartialEq, Eq)]
pub struct Ledger {
    pub config: Config,
    pub proposal_count: u64,
    pub proposals: Vec<Proposal>,
}

/// The mathematical value of a [`Ledger`]; the proposal with id `i` is
/// `proposals[i - 1]`.
pub struct LedgerView {
    pub sui_registry_address: Seq<char>,
    pub proposals: Seq<ProposalView>,
}

impl View for Ledger {
    type V = LedgerView;

    open spec fn view(&self) -> LedgerView {
        LedgerView {
            sui_registry_address: self.config.sui_registry_address@,
            proposals: self.proposals@.map_values(|p: Proposal| p@),
        }
    }
}

impl Ledger {
    /// The counter names the last id given out, and every proposal's tally
    /// agrees with its voters.
    pub open spec fn wf(&self) -> bool {
        &&& self.proposal_count as nat == self.proposals.len()
        &&& self@.wf()
    }
}

impl LedgerView {
    /// A ledger with no proposals yet.
    pub open spec fn empty(sui_registry_address: Seq<char>) -> LedgerView {
        LedgerView { sui_registry_address, proposals: Seq::empty() }
    }

    pub open spec fn wf(self) -> bool {
        forall|i: int| 0 <= i < self.proposals.len() ==> #[trigger] self.proposals[i].wf()
    }

    pub open spec fn has_proposal(self, id: int) -> bool {
        1 <= id <= self.proposals.len()
    }

    pub open spec fn proposal(self, id: int) -> ProposalView {
        self.proposals[id - 1]
    }

    /// The id that the next proposal gets.
    pub open spec fn next_id(self) -> nat {
        self.proposals.len() + 1
    }

    /// The ledger once `creator` has created a proposal: it stands under
    /// [`Self::next_id`].
    pub open spec fn with_proposal(self, creator: Seq<char>, description: Seq<char>) -> LedgerView {
        LedgerView {
            proposals: self.proposals.push(ProposalView::fresh(creator, description)),
            ..self
        }
    }

    /// The ledger after a series of creations, each a creator and a
    /// description, and the ids they got, in order.
    pub open spec fn with_proposals(self, calls: Seq<(Seq<char>, Seq<char>)>) -> (LedgerView, Seq<nat>)
        decreases calls.len(),
    {
        if calls.len() == 0 {
            (self, Seq::empty())
        } else {
            let (last, ids) = self.with_proposals(calls.drop_last());
            (last.with_proposal(calls.last().0, calls.last().1), ids.push(last.next_id()))
        }
    }

    /// Why `voter` may not vote on proposal `id`, if there is a reason; the
    /// reasons are tried in this order: no such proposal, proposal closed,
    /// vote already cast.
    pub open spec fn vote_refusal(self, id: int, voter: Seq<char>) -> Option<ContractError> {
        if !self.has_proposal(id) {
            Some(ContractError::NotFound {  })
        } else {
            self.proposal(id).vote_refusal(voter)
        }
    }

    /// The ledger once `voter` has voted `choice` on proposal `id`.
    pub open spec fn with_vote(self, id: int, voter: Seq<char>, choice: bool) -> LedgerView {
        LedgerView {
            proposals: self.proposals.update(id - 1, self.proposal(id).with_vote(voter, choice)),
            ..self
        }
    }

    /// What a query shows of proposal `id`.
    pub open spec fn get(self, id: int) -> Result<ProposalResponseView, ContractError> {
        if self.has_proposal(id) {
            Ok(self.proposal(id).response(id as nat))
        } else {
            Err(ContractError::NotFound {  })
        }
    }

    /// A page of proposals in ascending order of id: those after the id
    /// `start_after` (after none where it is absent), at most `limit` of them
    /// (`DEFAULT_LIMIT` where it is absent).
    pub open spec fn list(self, start_after: Option<u64>, limit: Option<u32>) -> Seq<ProposalResponseView> {
        let n = self.proposals.len() as int;
        let lo = match start_after {
            Some(s) => if s < n { s as int } else { n },
            None => 0,
        };
        let lim = match limit {
            Some(l) => l as int,
            None => DEFAULT_LIMIT as int,
        };
        let hi = if lo + lim < n { lo + lim } else { n };
        Seq::new((hi - lo) as nat, |i: int| self.proposals[lo + i].response((lo + i + 1) as nat))
    }
}

} // verus!

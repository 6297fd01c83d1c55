use vstd::prelude::*;

use crate::error::ContractError;
use crate::msg::{Event, ExecuteMsg, InstantiateMsg, ProposalResponse, QueryMsg, QueryResponse};
use crate::state::{Config, Ledger, LedgerView, Proposal, ProposalView, DEFAULT_LIMIT};

verus! {

/// Sets up a ledger with the given registry address and no proposals.
pub fn instantiate(sender: String, msg: InstantiateMsg) -> (r: (Ledger, Event))
    ensures
        r.0.wf(),
        r.0@ == LedgerView::empty(msg.sui_registry_address@),
        r.1 == (Event::Instantiated { owner: sender, sui_registry: msg.sui_registry_address }),
{
    let config = Config { sui_registry_address: msg.sui_registry_address.clone() };
    let ledger = Ledger { config, proposal_count: 0, proposals: Vec::new() };
    proof {
        assert(ledger@.proposals =~= Seq::<ProposalView>::empty());
    }
    (ledger, Event::Instantiated { owner: sender, sui_registry: msg.sui_registry_address })
}

/// Carries out a message that changes the ledger, on behalf of `sender`.
pub fn execute(ledger: &mut Ledger, sender: String, msg: ExecuteMsg) -> (r: Result<Event, ContractError>)
    requires
        old(ledger).wf(),
        match msg {
            ExecuteMsg::CreateProposal { .. } => old(ledger).proposal_count < u64::MAX,
            ExecuteMsg::Vote { proposal_id, .. } => old(ledger)@.has_proposal(proposal_id as int)
                ==> old(ledger)@.proposal(proposal_id as int).voters.len() < u64::MAX,
        },
    ensures
        final(ledger).wf(),
        match msg {
            ExecuteMsg::CreateProposal { description } => {
                &&& final(ledger)@ == old(ledger)@.with_proposal(sender@, description@)
                &&& r == Ok::<Event, ContractError>(
                    Event::ProposalCreated { proposal_id: old(ledger)@.next_id() as u64, creator: sender, description },
                )
            },
            ExecuteMsg::Vote { proposal_id, vote } => match old(ledger)@.vote_refusal(proposal_id as int, sender@) {
                Some(e) => r == Err::<Event, ContractError>(e) && final(ledger)@ == old(ledger)@,
                None => {
                    &&& r == Ok::<Event, ContractError>(Event::VoteCast { proposal_id, voter: sender, vote })
                    &&& final(ledger)@ == old(ledger)@.with_vote(proposal_id as int, sender@, vote)
                },
            },
        },
{
    match msg {
        ExecuteMsg::CreateProposal { description } => execute_create_proposal(ledger, sender, description),
        ExecuteMsg::Vote { proposal_id, vote } => execute_vote(ledger, sender, proposal_id, vote),
    }
}

/// Records the vote of `sender` for `vote` on proposal `proposal_id`.
///
/// It fails with `NotFound` where no such proposal exists, then with
/// `ProposalNotActive` where the proposal is closed, then with `AlreadyVoted`
/// where `sender` has voted on it before; on failure the ledger is unchanged.
pub fn execute_vote(ledger: &mut Ledger, sender: String, proposal_id: u64, vote: bool) -> (r: Result<Event, ContractError>)
    requires
        old(ledger).wf(),
        old(ledger)@.has_proposal(proposal_id as int)
            ==> old(ledger)@.proposal(proposal_id as int).voters.len() < u64::MAX,
    ensures
        final(ledger).wf(),
        match old(ledger)@.vote_refusal(proposal_id as int, sender@) {
            Some(e) => r == Err::<Event, ContractError>(e) && final(ledger)@ == old(ledger)@,
            None => {
                &&& r == Ok::<Event, ContractError>(Event::VoteCast { proposal_id, voter: sender, vote })
                &&& final(ledger)@ == old(ledger)@.with_vote(proposal_id as int, sender@, vote)
            },
        },
{
    if proposal_id == 0 || proposal_id > ledger.proposal_count {
        return Err(ContractError::NotFound {  });
    }
    let idx = (proposal_id - 1) as usize;
    proof {
        assert(old(ledger).proposals@[idx as int]@ == old(ledger)@.proposal(proposal_id as int));
    }
    let outcome = ledger.proposals[idx].cast_vote(sender.clone(), vote);
    proof {
        assert(ledger@.proposals =~= old(ledger)@.proposals.update(idx as int, ledger.proposals@[idx as int]@));
    }
    match outcome {
        Err(e) => {
            proof {
                assert(ledger@.proposals =~= old(ledger)@.proposals);
            }
            Err(e)
        },
        Ok(()) => {
            proof {
                lemma_vote_keeps_tally(old(ledger)@, proposal_id as int, sender@, vote);
            }
            Ok(Event::VoteCast { proposal_id, voter: sender, vote })
        },
    }
}

/// Every vote keeps the ledger's tallies in agreement with its voters.
pub proof fn lemma_vote_keeps_tally(l: LedgerView, id: int, voter: Seq<char>, choice: bool)
    requires
        l.wf(),
        l.vote_refusal(id, voter) is None,
    ensures
        l.with_vote(id, voter, choice).wf(),
{
    let p = l.proposal(id);
    assert(p.wf());
    assert(!p.voters.contains(voter));
    assert(p.with_vote(voter, choice).voters.no_duplicates()) by {
        let vs = p.voters.push(voter);
        assert forall|i: int, j: int| 0 <= i < vs.len() && 0 <= j < vs.len() && i != j implies vs[i] != vs[j] by {
            if i < p.voters.len() && j < p.voters.len() {
            } else if i == p.voters.len() {
                assert(p.voters[j] == vs[j]);
            } else {
                assert(p.voters[i] == vs[i]);
            }
        }
    }
    let l2 = l.with_vote(id, voter, choice);
    assert forall|i: int| 0 <= i < l2.proposals.len() implies #[trigger] l2.proposals[i].wf() by {
        if i != id - 1 {
            assert(l2.proposals[i] == l.proposals[i]);
        }
    }
}

/// Creates a proposal by `sender` under the next id: open, with no votes.
/// Any caller may create any number of proposals.
pub fn execute_create_proposal(ledger: &mut Ledger, sender: String, description: String) -> (r: Result<Event, ContractError>)
    requires
        old(ledger).wf(),
        old(ledger).proposal_count < u64::MAX,
    ensures
        final(ledger).wf(),
        final(ledger)@ == old(ledger)@.with_proposal(sender@, description@),
        r == Ok::<Event, ContractError>(
            Event::ProposalCreated { proposal_id: old(ledger)@.next_id() as u64, creator: sender, description },
        ),
{
    let id = ledger.proposal_count + 1;
    ledger.proposal_count = id;
    let proposal = Proposal::new(sender.clone(), description.clone());
    ledger.proposals.push(proposal);
    proof {
        assert(ledger@.proposals =~= old(ledger)@.proposals.push(ProposalView::fresh(sender@, description@)));
        lemma_create_keeps_tally(old(ledger)@, sender@, description@);
    }
    Ok(Event::ProposalCreated { proposal_id: id, creator: sender, description })
}

/// Creating a proposal keeps the ledger's tallies in agreement with its voters.
pub proof fn lemma_create_keeps_tally(l: LedgerView, creator: Seq<char>, description: Seq<char>)
    requires
        l.wf(),
    ensures
        l.with_proposal(creator, description).wf(),
{
    let l2 = l.with_proposal(creator, description);
    assert forall|i: int| 0 <= i < l2.proposals.len() implies #[trigger] l2.proposals[i].wf() by {
        if i < l.proposals.len() {
            assert(l2.proposals[i] == l.proposals[i]);
        }
    }
}

/// Lists proposals in ascending order of id, starting after the id
/// `start_after` (from the first where it is absent), at most `limit` of them
/// (`DEFAULT_LIMIT` where it is absent). The cursor resumes strictly after the
/// given id, so that later pages can be reached.
pub fn query_list_proposals(ledger: &Ledger, start_after: Option<u64>, limit: Option<u32>) -> (r: Vec<ProposalResponse>)
    requires
        ledger.wf(),
    ensures
        r@.len() == ledger@.list(start_after, limit).len(),
        forall|k: int| 0 <= k < r@.len() ==> #[trigger] r@[k]@ == ledger@.list(start_after, limit)[k],
{
    let count = ledger.proposal_count;
    let lo: u64 = match start_after {
        Some(s) => if s < count { s } else { count },
        None => 0,
    };
    let lim: u64 = match limit {
        Some(l) => l as u64,
        None => DEFAULT_LIMIT as u64,
    };
    let hi: u64 = if lim < count - lo { lo + lim } else { count };
    let ghost want = ledger@.list(start_after, limit);
    assert(want.len() == hi - lo);
    assert(forall|k: int| 0 <= k < want.len() ==> #[trigger] want[k] == ledger@.proposals[lo + k].response((lo + k + 1) as nat));
    let mut out: Vec<ProposalResponse> = Vec::new();
    let mut i: u64 = lo;
    while i < hi
        invariant
            ledger.wf(),
            lo <= i <= hi <= count,
            count == ledger.proposal_count,
            want == ledger@.list(start_after, limit),
            want.len() == hi - lo,
            forall|k: int| 0 <= k < want.len() ==> #[trigger] want[k] == ledger@.proposals[lo + k].response((lo + k + 1) as nat),
            out@.len() == i - lo,
            forall|k: int| 0 <= k < out@.len() ==> #[trigger] out@[k]@ == want[k],
        decreases hi - i,
    {
        let resp = ledger.proposals[i as usize].to_response(i + 1);
        proof {
            assert(ledger.proposals@[i as int]@ == ledger@.proposals[i as int]);
            assert(want[i - lo] == ledger@.proposals[lo + (i - lo)].response((lo + (i - lo) + 1) as nat));
        }
        out.push(resp);
        i = i + 1;
    }
    out
}

/// Shows proposal `proposal_id`, or fails with `NotFound` where there is none.
pub fn query_proposal(ledger: &Ledger, proposal_id: u64) -> (r: Result<ProposalResponse, ContractError>)
    requires
        ledger.wf(),
    ensures
        match ledger@.get(proposal_id as int) {
            Ok(v) => r matches Ok(p) && p@ == v,
            Err(e) => r == Err::<ProposalResponse, ContractError>(e),
        },
{
    if proposal_id == 0 || proposal_id > ledger.proposal_count {
        return Err(ContractError::NotFound {  });
    }
    let p = &ledger.proposals[(proposal_id - 1) as usize];
    proof {
        assert(p@ == ledger@.proposal(proposal_id as int));
    }
    Ok(p.to_response(proposal_id))
}

/// Answers a query; queries never change the ledger.
pub fn query(ledger: &Ledger, msg: QueryMsg) -> (r: Result<QueryResponse, ContractError>)
    requires
        ledger.wf(),
    ensures
        match msg {
            QueryMsg::GetProposal { proposal_id } => match ledger@.get(proposal_id as int) {
                Ok(v) => r matches Ok(QueryResponse::Proposal(p)) && p@ == v,
                Err(e) => r == Err::<QueryResponse, ContractError>(e),
            },
            QueryMsg::ListProposals { start_after, limit } => r matches Ok(QueryResponse::Proposals(ps)) && {
                &&& ps@.len() == ledger@.list(start_after, limit).len()
                &&& forall|k: int| 0 <= k < ps@.len() ==> #[trigger] ps@[k]@ == ledger@.list(start_after, limit)[k]
            },
        },
{
    match msg {
        QueryMsg::GetProposal { proposal_id } => match query_proposal(ledger, proposal_id) {
            Ok(p) => Ok(QueryResponse::Proposal(p)),
            Err(e) => Err(e),
        },
        QueryMsg::ListProposals { start_after, limit } => {
            Ok(QueryResponse::Proposals(query_list_proposals(ledger, start_after, limit)))
        },
    }
}

/// Proposal ids are handed out in sequence: the creations that follow one
/// another on a ledger get the ids that follow its last one, in call order.
pub proof fn lemma_ids_follow_on(l: LedgerView, calls: Seq<(Seq<char>, Seq<char>)>)
    ensures
        l.with_proposals(calls).1 == Seq::new(calls.len(), |i: int| (l.next_id() + i) as nat),
        l.with_proposals(calls).0.proposals.len() == l.proposals.len() + calls.len(),
    decreases calls.len(),
{
    if calls.len() > 0 {
        lemma_ids_follow_on(l, calls.drop_last());
        assert(l.with_proposals(calls).1 =~= Seq::new(calls.len(), |i: int| (l.next_id() + i) as nat));
    }
}

/// On a ledger without proposals, `n` creations get the ids `1..=n`, in call
/// order.
pub proof fn lemma_sequential_ids(l: LedgerView, calls: Seq<(Seq<char>, Seq<char>)>)
    requires
        l.proposals.len() == 0,
    ensures
        l.with_proposals(calls).1 == Seq::new(calls.len(), |i: int| (i + 1) as nat),
{
    lemma_ids_follow_on(l, calls);
    assert(l.with_proposals(calls).1 =~= Seq::new(calls.len(), |i: int| (i + 1) as nat));
}

/// A voter whose vote on a proposal was taken is refused with `AlreadyVoted`
/// when voting on it again, whatever the choice.
pub proof fn lemma_no_double_vote(l: LedgerView, id: int, voter: Seq<char>, choice: bool)
    requires
        l.vote_refusal(id, voter) is None,
    ensures
        l.with_vote(id, voter, choice).vote_refusal(id, voter) == Some(ContractError::AlreadyVoted {  }),
{
    let l2 = l.with_vote(id, voter, choice);
    let p2 = l2.proposal(id);
    assert(p2.voters[p2.voters.len() - 1] == voter);
}

/// A vote on a closed proposal is refused with `ProposalNotActive`.
pub proof fn lemma_inactive_rejects(l: LedgerView, id: int, voter: Seq<char>)
    requires
        l.has_proposal(id),
        !l.proposal(id).active,
    ensures
        l.vote_refusal(id, voter) == Some(ContractError::ProposalNotActive {  }),
{
}

} // verus!

use proposal_ledger::contract::{
    execute, execute_create_proposal, execute_vote, instantiate, query, query_list_proposals,
    query_proposal,
};
use proposal_ledger::error::ContractError;
use proposal_ledger::msg::{
    Event, ExecuteMsg, InstantiateMsg, ProposalResponse, QueryMsg, QueryResponse,
};
use proposal_ledger::state::{Ledger, DEFAULT_LIMIT};

fn fresh_ledger() -> Ledger {
    let (ledger, _) = instantiate(
        "owner".to_string(),
        InstantiateMsg { sui_registry_address: "0xabc".to_string() },
    );
    ledger
}

fn create(ledger: &mut Ledger, creator: &str, description: &str) -> u64 {
    match execute_create_proposal(ledger, creator.to_string(), description.to_string()) {
        Ok(Event::ProposalCreated { proposal_id, .. }) => proposal_id,
        other => panic!("unexpected outcome {:?}", other),
    }
}

#[test]
fn instantiate_keeps_registry_address() {
    let (ledger, event) = instantiate(
        "owner".to_string(),
        InstantiateMsg { sui_registry_address: "0xabc".to_string() },
    );
    assert_eq!(ledger.config.sui_registry_address, "0xabc");
    assert_eq!(ledger.proposal_count, 0);
    assert!(ledger.proposals.is_empty());
    assert_eq!(
        event,
        Event::Instantiated { owner: "owner".to_string(), sui_registry: "0xabc".to_string() }
    );
}

#[test]
fn create_then_get_proposal() {
    let mut ledger = fresh_ledger();
    let r = execute_create_proposal(&mut ledger, "A".to_string(), "Raise fee".to_string());
    assert_eq!(
        r,
        Ok(Event::ProposalCreated {
            proposal_id: 1,
            creator: "A".to_string(),
            description: "Raise fee".to_string(),
        })
    );
    assert_eq!(
        query_proposal(&ledger, 1),
        Ok(ProposalResponse {
            id: 1,
            creator: "A".to_string(),
            description: "Raise fee".to_string(),
            yes_votes: 0,
            no_votes: 0,
            active: true,
        })
    );
}

#[test]
fn empty_description_is_accepted() {
    let mut ledger = fresh_ledger();
    assert_eq!(create(&mut ledger, "A", ""), 1);
    assert_eq!(query_proposal(&ledger, 1).unwrap().description, "");
}

#[test]
fn vote_then_second_vote_is_refused() {
    let mut ledger = fresh_ledger();
    create(&mut ledger, "A", "Raise fee");
    let r = execute_vote(&mut ledger, "B".to_string(), 1, true);
    assert_eq!(r, Ok(Event::VoteCast { proposal_id: 1, voter: "B".to_string(), vote: true }));
    assert_eq!(query_proposal(&ledger, 1).unwrap().yes_votes, 1);
    let again = execute_vote(&mut ledger, "B".to_string(), 1, false);
    assert_eq!(again, Err(ContractError::AlreadyVoted {}));
    let p = query_proposal(&ledger, 1).unwrap();
    assert_eq!(p.yes_votes, 1);
    assert_eq!(p.no_votes, 0);
}

#[test]
fn vote_on_missing_proposal_is_not_found() {
    let mut ledger = fresh_ledger();
    create(&mut ledger, "A", "Raise fee");
    let before = ledger.clone();
    assert_eq!(
        execute_vote(&mut ledger, "C".to_string(), 999, true),
        Err(ContractError::NotFound {})
    );
    assert_eq!(
        execute_vote(&mut ledger, "C".to_string(), 0, true),
        Err(ContractError::NotFound {})
    );
    assert_eq!(ledger, before);
}

#[test]
fn list_defaults_to_thirty() {
    let mut ledger = fresh_ledger();
    for i in 0..35 {
        create(&mut ledger, "A", &format!("proposal {}", i));
    }
    let page = query_list_proposals(&ledger, None, None);
    assert_eq!(page.len(), 30);
    assert_eq!(DEFAULT_LIMIT, 30);
    for (k, p) in page.iter().enumerate() {
        assert_eq!(p.id, k as u64 + 1);
    }
}

#[test]
fn sequential_ids_from_one() {
    let mut ledger = fresh_ledger();
    for n in 1..=10u64 {
        assert_eq!(create(&mut ledger, "A", "d"), n);
    }
    assert_eq!(ledger.proposal_count, 10);
}

#[test]
fn tallies_match_voters() {
    let mut ledger = fresh_ledger();
    create(&mut ledger, "A", "d");
    let votes = [("v1", true), ("v2", false), ("v3", true), ("v1", false), ("v4", false)];
    for (voter, choice) in votes {
        let _ = execute_vote(&mut ledger, voter.to_string(), 1, choice);
        let p = &ledger.proposals[0];
        assert_eq!(p.yes_votes + p.no_votes, p.voters.len() as u64);
    }
    let p = query_proposal(&ledger, 1).unwrap();
    assert_eq!((p.yes_votes, p.no_votes), (2, 2));
    assert_eq!(ledger.proposals[0].voters, vec!["v1", "v2", "v3", "v4"]);
}

#[test]
fn vote_on_inactive_proposal_is_refused() {
    let mut ledger = fresh_ledger();
    create(&mut ledger, "A", "d");
    ledger.proposals[0].active = false;
    let before = ledger.clone();
    assert_eq!(
        execute_vote(&mut ledger, "B".to_string(), 1, true),
        Err(ContractError::ProposalNotActive {})
    );
    assert_eq!(ledger, before);
    assert!(!query_proposal(&ledger, 1).unwrap().active);
}

#[test]
fn inactive_is_checked_before_double_vote() {
    let mut ledger = fresh_ledger();
    create(&mut ledger, "A", "d");
    execute_vote(&mut ledger, "B".to_string(), 1, true).unwrap();
    ledger.proposals[0].active = false;
    assert_eq!(
        execute_vote(&mut ledger, "B".to_string(), 1, true),
        Err(ContractError::ProposalNotActive {})
    );
}

#[test]
fn queries_repeat_and_leave_ledger_alone() {
    let mut ledger = fresh_ledger();
    create(&mut ledger, "A", "one");
    create(&mut ledger, "B", "two");
    execute_vote(&mut ledger, "C".to_string(), 2, false).unwrap();
    let before = ledger.clone();
    let get = QueryMsg::GetProposal { proposal_id: 2 };
    let list = QueryMsg::ListProposals { start_after: None, limit: Some(5) };
    assert_eq!(query(&ledger, get.clone()), query(&ledger, get));
    assert_eq!(query(&ledger, list.clone()), query(&ledger, list));
    assert_eq!(ledger, before);
}

#[test]
fn query_get_missing_is_not_found() {
    let ledger = fresh_ledger();
    assert_eq!(
        query(&ledger, QueryMsg::GetProposal { proposal_id: 1 }),
        Err(ContractError::NotFound {})
    );
    assert_eq!(query_proposal(&ledger, 0), Err(ContractError::NotFound {}));
}

#[test]
fn query_get_shows_votes() {
    let mut ledger = fresh_ledger();
    create(&mut ledger, "A", "one");
    execute_vote(&mut ledger, "B".to_string(), 1, false).unwrap();
    match query(&ledger, QueryMsg::GetProposal { proposal_id: 1 }) {
        Ok(QueryResponse::Proposal(p)) => {
            assert_eq!(p.id, 1);
            assert_eq!(p.creator, "A");
            assert_eq!(p.no_votes, 1);
            assert_eq!(p.yes_votes, 0);
        }
        other => panic!("unexpected answer {:?}", other),
    }
}

#[test]
fn list_resumes_after_cursor() {
    let mut ledger = fresh_ledger();
    for _ in 0..5 {
        create(&mut ledger, "A", "d");
    }
    let ids = |v: Vec<ProposalResponse>| v.iter().map(|p| p.id).collect::<Vec<u64>>();
    assert_eq!(ids(query_list_proposals(&ledger, Some(2), Some(2))), vec![3, 4]);
    assert_eq!(ids(query_list_proposals(&ledger, Some(3), None)), vec![4, 5]);
    assert_eq!(ids(query_list_proposals(&ledger, Some(5), None)), Vec::<u64>::new());
    assert_eq!(ids(query_list_proposals(&ledger, Some(99), None)), Vec::<u64>::new());
    assert_eq!(ids(query_list_proposals(&ledger, None, Some(0))), Vec::<u64>::new());
    assert_eq!(ids(query_list_proposals(&ledger, Some(0), Some(3))), vec![1, 2, 3]);
}

#[test]
fn list_on_empty_ledger() {
    let ledger = fresh_ledger();
    assert!(query_list_proposals(&ledger, None, None).is_empty());
    assert_eq!(
        query(&ledger, QueryMsg::ListProposals { start_after: None, limit: None }),
        Ok(QueryResponse::Proposals(vec![]))
    );
}

#[test]
fn list_with_large_limit_returns_all() {
    let mut ledger = fresh_ledger();
    for _ in 0..3 {
        create(&mut ledger, "A", "d");
    }
    assert_eq!(query_list_proposals(&ledger, None, Some(u32::MAX)).len(), 3);
    assert_eq!(query_list_proposals(&ledger, Some(u64::MAX), Some(u32::MAX)).len(), 0);
}

#[test]
fn execute_dispatches_messages() {
    let mut ledger = fresh_ledger();
    let created = execute(
        &mut ledger,
        "A".to_string(),
        ExecuteMsg::CreateProposal { description: "Raise fee".to_string() },
    );
    assert_eq!(
        created,
        Ok(Event::ProposalCreated {
            proposal_id: 1,
            creator: "A".to_string(),
            description: "Raise fee".to_string(),
        })
    );
    let voted = execute(&mut ledger, "B".to_string(), ExecuteMsg::Vote { proposal_id: 1, vote: false });
    assert_eq!(voted, Ok(Event::VoteCast { proposal_id: 1, voter: "B".to_string(), vote: false }));
    let again = execute(&mut ledger, "B".to_string(), ExecuteMsg::Vote { proposal_id: 1, vote: true });
    assert_eq!(again, Err(ContractError::AlreadyVoted {}));
    let missing = execute(&mut ledger, "B".to_string(), ExecuteMsg::Vote { proposal_id: 2, vote: true });
    assert_eq!(missing, Err(ContractError::NotFound {}));
    assert_eq!(query_proposal(&ledger, 1).unwrap().no_votes, 1);
}

#[test]
fn creator_and_description_unchanged_by_votes() {
    let mut ledger = fresh_ledger();
    create(&mut ledger, "A", "Raise fee");
    create(&mut ledger, "B", "Lower fee");
    execute_vote(&mut ledger, "C".to_string(), 1, true).unwrap();
    execute_vote(&mut ledger, "C".to_string(), 2, true).unwrap();
    let p1 = query_proposal(&ledger, 1).unwrap();
    let p2 = query_proposal(&ledger, 2).unwrap();
    assert_eq!((p1.creator.as_str(), p1.description.as_str()), ("A", "Raise fee"));
    assert_eq!((p2.creator.as_str(), p2.description.as_str()), ("B", "Lower fee"));
    assert_eq!((p1.yes_votes, p2.yes_votes), (1, 1));
}

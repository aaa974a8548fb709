use secret_cosmwasm_std::coins;
use secret_cosmwasm_std::testing::{mock_env, mock_info};
use voting_contract::contract::{
    execute, instantiate, query, query_candidate_list, query_close_time, query_get_name,
    query_results, query_voters_count, try_submit_vote,
};
use voting_contract::error::VoteError;
use voting_contract::msg::{
    Env, ExecuteMsg, InstantiateMsg, MessageInfo, QueryMsg, QueryResponse,
};
use voting_contract::state::{Candidate, CandidateResult};
use voting_contract::store::ElectionStore;

/// The block of the mock environment.
fn env() -> Env {
    Env { time: mock_env().block.time.seconds() }
}

fn env_at(time: u64) -> Env {
    Env { time }
}

/// A caller as the mock host presents it.
fn info(sender: &str) -> MessageInfo {
    MessageInfo { sender: mock_info(sender, &coins(1000, "earth")).sender.into_string() }
}

fn alice_and_bob() -> Vec<Candidate> {
    vec![
        Candidate { id: 0, name: "Alice".to_string() },
        Candidate { id: 1, name: "Bob".to_string() },
    ]
}

fn setup(voters: &[&str], close_time: u64) -> ElectionStore<'static> {
    let mut store = ElectionStore::in_memory();
    let msg = InstantiateMsg {
        name: "Test voting".to_string(),
        candidates: alice_and_bob(),
        voters: voters.iter().map(|v| v.to_string()).collect(),
        close_time,
    };
    instantiate(&mut store, env(), info("creator"), msg).unwrap();
    store
}

fn lines(results: &[CandidateResult]) -> Vec<(u16, u16)> {
    results.iter().map(|r| (r.id(), r.votes())).collect()
}

#[test]
fn init_test() {
    let mut store = ElectionStore::in_memory();
    let env = env();

    let alice: Candidate = Candidate { id: 0, name: "Alice".to_string() };
    let bob: Candidate = Candidate { id: 1, name: "Bob".to_string() };

    let voter1 = "addr1".to_string();
    let voter2 = "addr2".to_string();
    let voter3 = "addr3".to_string();

    let msg = InstantiateMsg {
        name: "Test voting 001".to_string(),
        candidates: vec![alice, bob],
        voters: vec![voter1, voter2, voter3],
        close_time: 2682000000,
    };
    let info = info("creator");

    // Check for response
    let res = instantiate(&mut store, env.clone(), info, msg);
    assert_eq!(Ok(()), res);

    // Query responses
    let voting_name = query_get_name(&store).unwrap();
    assert_eq!("Test voting 001".to_string(), voting_name);

    let close_time = query_close_time(&store).unwrap();
    assert_eq!(2682000000, close_time);

    let candidates = query_candidate_list(&store).unwrap();
    assert_eq!(0, candidates[0].id);
    assert_eq!("Bob", candidates[1].name);

    // We expect error because voting did not finished yet
    let voting_result = query_results(&store, env).unwrap_err();
    assert_eq!(
        "Generic error: Voting has not been closed yet".to_string(),
        voting_result.to_string()
    );
}

#[test]
fn vote_test() {
    let mut store = ElectionStore::in_memory();
    let env = env();

    let alice: Candidate = Candidate { id: 0, name: "Alice".to_string() };
    let bob: Candidate = Candidate { id: 1, name: "Bob".to_string() };

    let voter1 = "voter1".to_string();
    let voter2 = "voter2".to_string();
    let voter3 = "voter3".to_string();

    let msg = InstantiateMsg {
        name: "Test voting 002".to_string(),
        candidates: vec![alice, bob],
        voters: vec![voter1, voter2, voter3],
        close_time: 2682000000,
    };

    // Check for response
    let res = instantiate(&mut store, env.clone(), info("creator"), msg);
    assert_eq!(Ok(()), res);

    let voter_info = info("voter2");

    // Try to unwrap for the 1st time - successfully vote
    let vote1_msg = ExecuteMsg::SubmitVote { candidate_id: 0 };
    let submit_res1 = execute(&mut store, env.clone(), voter_info.clone(), vote1_msg);
    assert_eq!(Ok(()), submit_res1);

    // Try to unwrap error for the 2nd time - cannot vote twice
    let vote2_msg = ExecuteMsg::SubmitVote { candidate_id: 0 };
    let submit_res2 = execute(&mut store, env.clone(), voter_info.clone(), vote2_msg).unwrap_err();
    assert_ne!(0, submit_res2.to_string().len());
    assert_eq!(VoteError::AlreadyVoted, submit_res2);

    // The same applies for the other candidates
    let vote3_msg = ExecuteMsg::SubmitVote { candidate_id: 1 };
    let submit_res3 = execute(&mut store, env.clone(), voter_info.clone(), vote3_msg).unwrap_err();
    assert_ne!(0, submit_res3.to_string().len());
    assert_eq!(VoteError::AlreadyVoted, submit_res3);

    // Random non-eligible address cannot vote
    let voter_info2 = info("non-eligible-voter");
    let vote4_msg = ExecuteMsg::SubmitVote { candidate_id: 1 };
    let submit_res4 = execute(&mut store, env.clone(), voter_info2, vote4_msg).unwrap_err();
    assert_ne!(0, submit_res4.to_string().len());
    assert_eq!(VoteError::NotEligible, submit_res4);
}

#[test]
fn close_time_test() {
    let mut store = ElectionStore::in_memory();

    let alice: Candidate = Candidate { id: 0, name: "Alice".to_string() };
    let bob: Candidate = Candidate { id: 1, name: "Bob".to_string() };

    let voter1 = "voter1".to_string();
    let voter2 = "voter2".to_string();
    let voter3 = "voter3".to_string();

    let msg = InstantiateMsg {
        name: "Test voting 002".to_string(),
        candidates: vec![alice, bob],
        voters: vec![voter1, voter2, voter3],
        close_time: 4195, // Close time set too low for the purpose of this test
    };

    // Check for response
    let res = instantiate(&mut store, env(), info("creator"), msg);
    assert_eq!(Ok(()), res);

    // Because voting has been closed at the moment as it was created, each candidate should have 0 votes
    let candidate1 = store.votes_for(0).expect("Invalid candidate");
    assert_eq!(0, candidate1);

    let candidate2 = store.votes_for(0).expect("Invalid candidate");
    assert_eq!(0, candidate2);
}

#[test]
fn scenario_open_election() {
    let mut store = setup(&["v1", "v2", "v3"], 2682000000);

    let candidates = query_candidate_list(&store).unwrap();
    assert_eq!(alice_and_bob(), candidates);

    assert_eq!(Ok(()), try_submit_vote(&mut store, env(), info("v2"), 0));
    assert_eq!(Err(VoteError::AlreadyVoted), try_submit_vote(&mut store, env(), info("v2"), 0));
    assert_eq!(Err(VoteError::AlreadyVoted), try_submit_vote(&mut store, env(), info("v2"), 1));
    assert_eq!(
        Err(VoteError::NotEligible),
        try_submit_vote(&mut store, env(), info("unknown_address"), 1)
    );
    assert_eq!(
        Err(VoteError::VotingNotClosed),
        query_results(&store, env_at(2682000000 - 1))
    );
}

#[test]
fn scenario_closed_from_the_start() {
    let mut store = setup(&["v1", "v2", "v3"], 4195);

    let results = query_results(&store, env()).unwrap();
    assert_eq!(vec![(0, 0), (1, 0)], lines(&results));

    assert_eq!(Err(VoteError::VotingClosed), try_submit_vote(&mut store, env(), info("v1"), 0));
    assert_eq!(Err(VoteError::VotingClosed), try_submit_vote(&mut store, env(), info("v1"), 7));
    assert_eq!(
        Err(VoteError::VotingClosed),
        try_submit_vote(&mut store, env(), info("stranger"), 1)
    );
    let results = query_results(&store, env()).unwrap();
    assert_eq!(vec![(0, 0), (1, 0)], lines(&results));
}

#[test]
fn scenario_no_voters() {
    let mut store = setup(&[], 2682000000);

    assert_eq!(Ok(0), query_voters_count(&store));
    for sender in ["v1", "creator", ""] {
        assert_eq!(
            Err(VoteError::NotEligible),
            try_submit_vote(&mut store, env(), info(sender), 0)
        );
        assert_eq!(
            Err(VoteError::NotEligible),
            try_submit_vote(&mut store, env(), info(sender), 9)
        );
    }
}

#[test]
fn setup_gives_each_candidate_and_voter_one_entry() {
    let mut store = ElectionStore::in_memory();
    let msg = InstantiateMsg {
        name: "Twice".to_string(),
        candidates: vec![
            Candidate { id: 7, name: "Seven".to_string() },
            Candidate { id: 3, name: "Three".to_string() },
            Candidate { id: 7, name: "Seven again".to_string() },
        ],
        voters: vec!["a".to_string(), "b".to_string(), "a".to_string()],
        close_time: 10,
    };
    assert_eq!(Ok(()), instantiate(&mut store, env_at(0), info("creator"), msg));

    // Both candidates with id 7 stay in the record; the tally has one entry for the id.
    let candidates = query_candidate_list(&store).unwrap();
    assert_eq!(3, candidates.len());
    assert_eq!("Seven again", candidates[2].name);
    let results = query_results(&store, env_at(10)).unwrap();
    assert_eq!(vec![(7, 0), (3, 0)], lines(&results));
    assert_eq!(Some(0), store.votes_for(7));
    assert_eq!(Some(0), store.votes_for(3));
    assert_eq!(None, store.votes_for(0));

    assert_eq!(Ok(2), query_voters_count(&store));
    assert_eq!(Some(false), store.voter_status(&"a".to_string()));
    assert_eq!(Some(false), store.voter_status(&"b".to_string()));
    assert_eq!(None, store.voter_status(&"c".to_string()));
}

#[test]
fn first_vote_counts_once() {
    let mut store = setup(&["v1", "v2", "v3"], 100);

    assert_eq!(Ok(()), try_submit_vote(&mut store, env_at(99), info("v1"), 1));
    assert_eq!(Some(1), store.votes_for(1));
    assert_eq!(Some(0), store.votes_for(0));
    assert_eq!(Some(true), store.voter_status(&"v1".to_string()));
    assert_eq!(Some(false), store.voter_status(&"v2".to_string()));
    assert_eq!(Some(false), store.voter_status(&"v3".to_string()));

    assert_eq!(Err(VoteError::AlreadyVoted), try_submit_vote(&mut store, env_at(99), info("v1"), 0));
    assert_eq!(Some(1), store.votes_for(1));
    assert_eq!(Some(0), store.votes_for(0));

    assert_eq!(Ok(()), try_submit_vote(&mut store, env_at(99), info("v3"), 1));
    assert_eq!(Ok(()), try_submit_vote(&mut store, env_at(0), info("v2"), 0));
    let results = query_results(&store, env_at(100)).unwrap();
    assert_eq!(vec![(0, 1), (1, 2)], lines(&results));
    assert_eq!(Ok(3), query_voters_count(&store));
}

#[test]
fn checks_come_in_order() {
    let mut store = setup(&["v1", "v2"], 100);

    // Closed comes before everything else.
    assert_eq!(Err(VoteError::VotingClosed), try_submit_vote(&mut store, env_at(100), info("x"), 9));
    assert_eq!(Err(VoteError::VotingClosed), try_submit_vote(&mut store, env_at(101), info("v1"), 0));
    // Not registered comes before the candidate.
    assert_eq!(Err(VoteError::NotEligible), try_submit_vote(&mut store, env_at(99), info("x"), 9));
    // An unknown candidate is refused and the voter keeps the vote.
    assert_eq!(
        Err(VoteError::InvalidCandidate),
        try_submit_vote(&mut store, env_at(99), info("v1"), 9)
    );
    assert_eq!(Some(false), store.voter_status(&"v1".to_string()));
    assert_eq!(Ok(()), try_submit_vote(&mut store, env_at(99), info("v1"), 0));
    // Already voted comes before the candidate.
    assert_eq!(Err(VoteError::AlreadyVoted), try_submit_vote(&mut store, env_at(99), info("v1"), 9));
}

#[test]
fn results_are_gated_by_the_closing_time() {
    let store = setup(&["v1"], 100);

    assert_eq!(Err(VoteError::VotingNotClosed), query_results(&store, env_at(0)));
    assert_eq!(Err(VoteError::VotingNotClosed), query_results(&store, env_at(99)));
    assert_eq!(vec![(0, 0), (1, 0)], lines(&query_results(&store, env_at(100)).unwrap()));
    assert_eq!(vec![(0, 0), (1, 0)], lines(&query_results(&store, env_at(u64::MAX)).unwrap()));
}

#[test]
fn query_answers_each_question() {
    let mut store = setup(&["v1", "v2", "v3"], 100);
    assert_eq!(Ok(()), try_submit_vote(&mut store, env_at(5), info("v3"), 1));

    assert_eq!(
        Ok(QueryResponse::Name("Test voting".to_string())),
        query(&store, env_at(5), QueryMsg::GetName {})
    );
    assert_eq!(
        Ok(QueryResponse::CandidateList(alice_and_bob())),
        query(&store, env_at(5), QueryMsg::GetCandidateList {})
    );
    assert_eq!(
        Ok(QueryResponse::VotersCount(3)),
        query(&store, env_at(5), QueryMsg::GetVotersCount {})
    );
    assert_eq!(
        Ok(QueryResponse::CloseTime(100)),
        query(&store, env_at(5), QueryMsg::GetCloseTime {})
    );
    assert_eq!(
        Err(VoteError::VotingNotClosed),
        query(&store, env_at(5), QueryMsg::GetResults {})
    );
    assert_eq!(
        Ok(QueryResponse::Results(vec![CandidateResult::new(0, 0), CandidateResult::new(1, 1)])),
        query(&store, env_at(100), QueryMsg::GetResults {})
    );
}

#[test]
fn a_store_without_an_election_fails_as_a_store() {
    let mut store = ElectionStore::in_memory();

    assert!(matches!(query_get_name(&store), Err(VoteError::Store(_))));
    assert!(matches!(query_candidate_list(&store), Err(VoteError::Store(_))));
    assert!(matches!(query_close_time(&store), Err(VoteError::Store(_))));
    assert!(matches!(query_results(&store, env()), Err(VoteError::Store(_))));
    assert!(matches!(
        try_submit_vote(&mut store, env(), info("v1"), 0),
        Err(VoteError::Store(_))
    ));
    assert_eq!(Ok(0), query_voters_count(&store));
    assert_eq!(None, store.votes_for(0));
    assert_eq!(None, store.voter_status(&"v1".to_string()));
}

#[test]
fn the_record_comes_back_as_it_went_in() {
    let mut store = ElectionStore::in_memory();
    let msg = InstantiateMsg {
        name: "A \"quoted\" name\n\twith \\ and \u{e9}".to_string(),
        candidates: vec![Candidate { id: 65535, name: String::new() }],
        voters: vec![],
        close_time: u64::MAX,
    };
    assert_eq!(Ok(()), instantiate(&mut store, env(), info("creator"), msg.clone()));

    assert_eq!(Ok(msg.name), query_get_name(&store));
    assert_eq!(Ok(msg.candidates), query_candidate_list(&store));
    assert_eq!(Ok(u64::MAX), query_close_time(&store));
    assert_eq!(Some(0), store.votes_for(65535));
    assert_eq!(Err(VoteError::VotingNotClosed), query_results(&store, env_at(u64::MAX - 1)));
}

#[test]
fn empty_lists_are_accepted() {
    let mut store = ElectionStore::in_memory();
    let msg = InstantiateMsg {
        name: String::new(),
        candidates: vec![],
        voters: vec!["v1".to_string()],
        close_time: 50,
    };
    assert_eq!(Ok(()), instantiate(&mut store, env_at(0), info("creator"), msg));

    assert_eq!(Ok(vec![]), query_candidate_list(&store));
    assert_eq!(Ok(1), query_voters_count(&store));
    assert_eq!(
        Err(VoteError::InvalidCandidate),
        try_submit_vote(&mut store, env_at(0), info("v1"), 0)
    );
    assert_eq!(Ok(vec![]), query_results(&store, env_at(50)));
}

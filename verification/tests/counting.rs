use secret_toolkit::storage::Keymap;
use voting_contract::contract::{instantiate, query_results, try_submit_vote};
use voting_contract::msg::{Env, InstantiateMsg, MessageInfo};
use voting_contract::state::Candidate;
use voting_contract::store::ElectionStore;

fn election(voters: &[&str]) -> ElectionStore<'static> {
    let mut store = ElectionStore::in_memory();
    let msg = InstantiateMsg {
        name: "Counting".to_string(),
        candidates: vec![
            Candidate { id: 10, name: "Ten".to_string() },
            Candidate { id: 20, name: "Twenty".to_string() },
        ],
        voters: voters.iter().map(|v| v.to_string()).collect(),
        close_time: 1000,
    };
    let creator = MessageInfo { sender: "creator".to_string() };
    instantiate(&mut store, Env { time: 0 }, creator, msg).unwrap();
    store
}

fn vote(store: &mut ElectionStore, sender: &str, candidate: u16) {
    let info = MessageInfo { sender: sender.to_string() };
    assert_eq!(Ok(()), try_submit_vote(store, Env { time: 999 }, info, candidate));
}

#[test]
fn each_vote_adds_one() {
    let mut store = election(&["a", "b", "c", "d", "e"]);
    vote(&mut store, "a", 20);
    assert_eq!(Some(1), store.votes_for(20));
    vote(&mut store, "b", 20);
    assert_eq!(Some(2), store.votes_for(20));
    vote(&mut store, "c", 10);
    vote(&mut store, "d", 20);
    assert_eq!(Some(3), store.votes_for(20));
    assert_eq!(Some(1), store.votes_for(10));

    let results = query_results(&store, Env { time: 1000 }).unwrap();
    let total: u32 = results.iter().map(|r| u32::from(r.votes())).sum();
    assert_eq!(4, total);
    assert_eq!(Some(false), store.voter_status(&"e".to_string()));
}

#[test]
fn a_tally_stops_at_its_largest_count() {
    let mut store = election(&["a", "b"]);
    // Put the tally one below the top, as 65534 votes would have.
    let tally: Keymap<u16, u16> = Keymap::new(b"candidate_result_state");
    tally.insert(store.host.as_mut(), &10, &65534).unwrap();
    assert_eq!(Some(65534), store.votes_for(10));

    vote(&mut store, "a", 10);
    assert_eq!(Some(65535), store.votes_for(10));
    vote(&mut store, "b", 10);
    assert_eq!(Some(65535), store.votes_for(10));
    assert_eq!(Some(true), store.voter_status(&"b".to_string()));
    assert_eq!(Some(0), store.votes_for(20));
}

#[test]
fn the_tables_keep_the_order_of_arrival() {
    let mut store = ElectionStore::in_memory();
    let msg = InstantiateMsg {
        name: "Order".to_string(),
        candidates: vec![
            Candidate { id: 9, name: "Nine".to_string() },
            Candidate { id: 2, name: "Two".to_string() },
            Candidate { id: 5, name: "Five".to_string() },
        ],
        voters: vec!["z".to_string(), "a".to_string()],
        close_time: 1,
    };
    let creator = MessageInfo { sender: "creator".to_string() };
    instantiate(&mut store, Env { time: 0 }, creator, msg).unwrap();
    vote_at(&mut store, "a", 2);

    let results = query_results(&store, Env { time: 1 }).unwrap();
    let lines: Vec<(u16, u16)> = results.iter().map(|r| (r.id(), r.votes())).collect();
    assert_eq!(vec![(9, 0), (2, 1), (5, 0)], lines);
}

fn vote_at(store: &mut ElectionStore, sender: &str, candidate: u16) {
    let info = MessageInfo { sender: sender.to_string() };
    assert_eq!(Ok(()), try_submit_vote(store, Env { time: 0 }, info, candidate));
}

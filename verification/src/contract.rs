//! The handlers: set the election up, take a vote, answer a query.
//!
//! Each handler runs to its end on the store it is given. A refusal leaves
//! the store as it was. On a well-formed store the handlers fail only as
//! their contracts say: by a refusal of the rules, or with
//! `VoteError::Store` where the store holds no election record.

use crate::election::{after_setup, after_vote, candidate_ids, counted, is_open, vote_refusal};
use crate::error::VoteError;
use crate::msg::{Env, ExecuteMsg, InstantiateMsg, MessageInfo, QueryMsg, QueryResponse};
use crate::state::{
    candidate_views, config, config_read, result_views, Candidate, CandidateResult, State,
};
use crate::store::{
    tally_entries, tally_get, tally_insert, voters_contains, voters_count, voters_get,
    voters_insert, ElectionStore,
};
use crate::table::{
    distinct_keys, lemma_upsert_all_shape, lemma_upsert_all_step, lemma_upsert_distinct,
    lemma_upsert_len, upsert_all,
};
use vstd::prelude::*;

verus! {

/// Sets the election up: keeps the record, then gives every candidate a
/// tally of zero and every voter the flag "has not voted".
///
/// The host calls this once, on the store of a new election. The tables count
/// their entries in 32 bits, so they must have room for what the message
/// brings.
pub fn instantiate(
    store: &mut ElectionStore,
    _env: Env,
    _info: MessageInfo,
    msg: InstantiateMsg,
) -> (res: Result<(), VoteError>)
    requires
        old(store).wf(),
        old(store)@.tally.len() + msg.candidates.len() <= u32::MAX,
        old(store)@.voters.len() + msg.voters.len() <= u32::MAX,
    ensures
        res is Ok,
        final(store).wf(),
        final(store)@ =~= after_setup(old(store)@, msg@),
{
    let ghost before = old(store)@;
    let ghost record = msg@;
    let state = State {
        name: msg.name,
        candidates_list: msg.candidates,
        voters_addresses: msg.voters,
        close_time: msg.close_time,
    };
    assert(state@ =~= record);
    config(store, &state)?;

    let ghost ids = candidate_ids(record.candidates);
    let mut i: usize = 0;
    while i < state.candidates_list.len()
        invariant
            i <= state.candidates_list.len(),
            state@ == record,
            ids == candidate_ids(record.candidates),
            before.tally.len() + state.candidates_list.len() <= u32::MAX,
            distinct_keys(before.tally),
            store.wf(),
            store@.record == Some(record),
            store@.voters == before.voters,
            store@.tally == upsert_all(before.tally, ids.take(i as int), 0u16),
        decreases state.candidates_list.len() - i,
    {
        let id = state.candidates_list[i].id;
        proof {
            assert(ids[i as int] == id);
            lemma_upsert_all_shape(before.tally, ids.take(i as int), 0u16);
            lemma_upsert_all_step(before.tally, ids, 0u16, i as int);
            lemma_upsert_distinct(store@.tally, id, 0u16);
            lemma_upsert_len(store@.tally, id, 0u16);
        }
        match tally_insert(store, id, 0) {
            Ok(()) => {},
            Err(e) => {
                return Err(VoteError::Store(e));
            },
        }
        i += 1;
    }
    assert(ids.take(i as int) =~= ids);

    let ghost addrs = record.voters;
    let mut j: usize = 0;
    while j < state.voters_addresses.len()
        invariant
            j <= state.voters_addresses.len(),
            state@ == record,
            addrs == record.voters,
            before.voters.len() + state.voters_addresses.len() <= u32::MAX,
            distinct_keys(before.voters),
            store.wf(),
            store@.record == Some(record),
            store@.tally == upsert_all(before.tally, ids, 0u16),
            store@.voters == upsert_all(before.voters, addrs.take(j as int), false),
        decreases state.voters_addresses.len() - j,
    {
        let addr = &state.voters_addresses[j];
        proof {
            assert(addrs[j as int] == addr@);
            lemma_upsert_all_shape(before.voters, addrs.take(j as int), false);
            lemma_upsert_all_step(before.voters, addrs, false, j as int);
            lemma_upsert_distinct(store@.voters, addr@, false);
            lemma_upsert_len(store@.voters, addr@, false);
        }
        match voters_insert(store, addr, false) {
            Ok(()) => {},
            Err(e) => {
                return Err(VoteError::Store(e));
            },
        }
        j += 1;
    }
    assert(addrs.take(j as int) =~= addrs);
    Ok(())
}

/// What a call that submits a vote owes, from the store before it to the
/// store after it and the result.
///
/// Without an election record nothing is decided: the store's error comes
/// back and the store is as it was. A vote that the rules refuse leaves the
/// store as it was and returns the refusal. A vote that the rules take
/// returns `Ok` and is written: the voter's flag is set and the candidate's
/// tally counted up.
pub open spec fn vote_outcome(
    before: ElectionStore,
    after: ElectionStore,
    now: u64,
    sender: Seq<char>,
    candidate: u16,
    res: Result<(), VoteError>,
) -> bool {
    match before@.record {
        None => res is Err && res->Err_0 is Store && after == before,
        Some(record) => match vote_refusal(before@, record, now, sender, candidate) {
            Some(refusal) => res == Err::<(), VoteError>(refusal) && after == before,
            None => res is Ok && after.wf() && after@ =~= after_vote(
                before@,
                sender,
                candidate,
            ),
        },
    }
}

/// Does what the message asks for. There is one kind of message: a vote.
pub fn execute(store: &mut ElectionStore, env: Env, info: MessageInfo, msg: ExecuteMsg) -> (res:
    Result<(), VoteError>)
    requires
        old(store).wf(),
    ensures
        vote_outcome(
            *old(store),
            *final(store),
            env.time,
            info.sender@,
            msg->candidate_id,
            res,
        ),
{
    match msg {
        ExecuteMsg::SubmitVote { candidate_id } => try_submit_vote(store, env, info, candidate_id),
    }
}

/// Answers a query. Each question has its own function below, and the answer
/// here is what that function returns.
pub fn query(store: &ElectionStore, env: Env, msg: QueryMsg) -> (res: Result<
    QueryResponse,
    VoteError,
>)
    requires
        store.wf(),
    ensures
        match msg {
            QueryMsg::GetName {  } => match res {
                Ok(QueryResponse::Name(name)) => store@.record matches Some(record) && name@
                    == record.name,
                Ok(_) => false,
                Err(e) => store@.record is None && e is Store,
            },
            QueryMsg::GetCandidateList {  } => match res {
                Ok(QueryResponse::CandidateList(list)) => store@.record matches Some(record)
                    && candidate_views(list@) == record.candidates,
                Ok(_) => false,
                Err(e) => store@.record is None && e is Store,
            },
            QueryMsg::GetVotersCount {  } => res matches Ok(QueryResponse::VotersCount(count))
                && count == store@.voters.len(),
            QueryMsg::GetCloseTime {  } => match res {
                Ok(QueryResponse::CloseTime(time)) => store@.record matches Some(record) && time
                    == record.close_time,
                Ok(_) => false,
                Err(e) => store@.record is None && e is Store,
            },
            QueryMsg::GetResults {  } => match res {
                Ok(QueryResponse::Results(list)) => results_shown(store, env.time, list@),
                Ok(_) => false,
                Err(e) => results_withheld(store, env.time, e),
            },
        },
{
    match msg {
        QueryMsg::GetName {  } => Ok(QueryResponse::Name(query_get_name(store)?)),
        QueryMsg::GetCandidateList {  } => Ok(
            QueryResponse::CandidateList(query_candidate_list(store)?),
        ),
        QueryMsg::GetVotersCount {  } => Ok(QueryResponse::VotersCount(query_voters_count(store)?)),
        QueryMsg::GetCloseTime {  } => Ok(QueryResponse::CloseTime(query_close_time(store)?)),
        QueryMsg::GetResults {  } => Ok(QueryResponse::Results(query_results(store, env)?)),
    }
}

/// Takes `info.sender`'s vote for `candidate_id`, or refuses it.
///
/// The checks run in the order of `vote_refusal`: the closing time, then
/// whether the caller is registered, then whether the caller has voted, then
/// whether the candidate is known. Only when all have passed is anything
/// written: first the voter's flag, then the tally.
pub fn try_submit_vote(
    store: &mut ElectionStore,
    env: Env,
    info: MessageInfo,
    candidate_id: u16,
) -> (res: Result<(), VoteError>)
    requires
        old(store).wf(),
    ensures
        vote_outcome(*old(store), *final(store), env.time, info.sender@, candidate_id, res),
{
    let state = config_read(store)?;

    if env.time >= state.close_time {
        return Err(VoteError::VotingClosed);
    }
    if !voters_contains(store, &info.sender) {
        return Err(VoteError::NotEligible);
    }
    match voters_get(store, &info.sender) {
        Some(true) => {
            return Err(VoteError::AlreadyVoted);
        },
        Some(false) => {},
        None => {
            return Err(VoteError::NotEligible);
        },
    }
    let votes = match tally_get(store, candidate_id) {
        Some(votes) => votes,
        None => {
            return Err(VoteError::InvalidCandidate);
        },
    };

    proof {
        lemma_upsert_distinct(store@.voters, info.sender@, true);
        lemma_upsert_len(store@.voters, info.sender@, true);
        lemma_upsert_distinct(store@.tally, candidate_id, counted(votes));
        lemma_upsert_len(store@.tally, candidate_id, counted(votes));
    }
    match voters_insert(store, &info.sender, true) {
        Ok(()) => {},
        Err(e) => {
            return Err(VoteError::Store(e));
        },
    }
    match tally_insert(store, candidate_id, votes.saturating_add(1)) {
        Ok(()) => {},
        Err(e) => {
            return Err(VoteError::Store(e));
        },
    }
    Ok(())
}

/// The election's name.
pub fn query_get_name(store: &ElectionStore) -> (res: Result<String, VoteError>)
    requires
        store.wf(),
    ensures
        match res {
            Ok(name) => store@.record matches Some(record) && name@ == record.name,
            Err(e) => store@.record is None && e is Store,
        },
{
    let state = config_read(store)?;
    Ok(state.name)
}

/// The candidates, in the order in which the election was set up with them.
pub fn query_candidate_list(store: &ElectionStore) -> (res: Result<Vec<Candidate>, VoteError>)
    requires
        store.wf(),
    ensures
        match res {
            Ok(list) => store@.record matches Some(record) && candidate_views(list@)
                == record.candidates,
            Err(e) => store@.record is None && e is Store,
        },
{
    let state = config_read(store)?;
    Ok(state.candidates_list)
}

/// How many voters are registered, whether they have voted or not. The
/// voter table is walked and its entries counted.
pub fn query_voters_count(store: &ElectionStore) -> (res: Result<u32, VoteError>)
    requires
        store.wf(),
    ensures
        res matches Ok(count) && count == store@.voters.len(),
{
    match voters_count(store) {
        Ok(count) => Ok(count as u32),
        Err(e) => Err(VoteError::Store(e)),
    }
}

/// The closing time, in Unix seconds.
pub fn query_close_time(store: &ElectionStore) -> (res: Result<u64, VoteError>)
    requires
        store.wf(),
    ensures
        match res {
            Ok(time) => store@.record matches Some(record) && time == record.close_time,
            Err(e) => store@.record is None && e is Store,
        },
{
    let state = config_read(store)?;
    Ok(state.close_time)
}

/// The results are shown: voting is closed, and `list` is the tally table,
/// entry for entry, in the table's order.
pub open spec fn results_shown(store: &ElectionStore, now: u64, list: Seq<CandidateResult>) -> bool {
    &&& store@.record matches Some(record) && !is_open(record, now)
    &&& result_views(list) == store@.tally
}

/// The results are withheld with `error`: as `VotingNotClosed` while voting
/// is open, and with the store's error where there is no election record.
/// From the closing time on they are never withheld.
pub open spec fn results_withheld(store: &ElectionStore, now: u64, error: VoteError) -> bool {
    match store@.record {
        Some(record) => is_open(record, now) && error == VoteError::VotingNotClosed,
        None => error is Store,
    }
}

/// The tally of every candidate, once voting is closed.
pub fn query_results(store: &ElectionStore, env: Env) -> (res: Result<
    Vec<CandidateResult>,
    VoteError,
>)
    requires
        store.wf(),
    ensures
        match res {
            Ok(list) => results_shown(store, env.time, list@),
            Err(e) => results_withheld(store, env.time, e),
        },
{
    let state = config_read(store)?;

    if env.time < state.close_time {
        return Err(VoteError::VotingNotClosed);
    }
    let entries = match tally_entries(store) {
        Ok(entries) => entries,
        Err(e) => {
            return Err(VoteError::Store(e));
        },
    };
    let mut candidate_results: Vec<CandidateResult> = Vec::new();
    let mut i: usize = 0;
    while i < entries.len()
        invariant
            i <= entries.len(),
            candidate_results.len() == i,
            forall|k: int| 0 <= k < i ==> (#[trigger] candidate_results[k])@ == entries[k],
        decreases entries.len() - i,
    {
        candidate_results.push(CandidateResult::new(entries[i].0, entries[i].1));
        i += 1;
    }
    assert(result_views(candidate_results@) =~= entries@);
    Ok(candidate_results)
}

} // verus!

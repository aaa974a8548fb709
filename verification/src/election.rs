//! The rules of the election, as mathematics over what the store holds.
//!
//! `contract` states what its handlers do in the terms defined here, and the
//! proof functions at the end say what follows from the rules.

use crate::error::VoteError;
use crate::state::{CandidateView, StateView};
use crate::store::{view_wf, StoreView};
use crate::table::{
    distinct_keys, has_key, lemma_position_unique, lemma_upsert_all_lookup,
    lemma_upsert_all_shape, lemma_upsert_all_values, lemma_upsert_distinct, lemma_upsert_has_key,
    lemma_upsert_len, lemma_upsert_lookup, lookup, position, upsert, upsert_all,
};
use vstd::prelude::*;

verus! {

/// The ids of a list of candidates, in the list's order.
pub open spec fn candidate_ids(candidates: Seq<CandidateView>) -> Seq<u16> {
    candidates.map_values(|c: CandidateView| c.id)
}

/// The store after the election `record` was set up in it.
///
/// The record is kept as it came. Each candidate id gets a tally of zero and
/// each address the flag "has not voted". An id or address that comes twice
/// is written twice and has one entry; one that the store held before is
/// written over.
pub open spec fn after_setup(before: StoreView, record: StateView) -> StoreView {
    StoreView {
        record: Some(record),
        tally: upsert_all(before.tally, candidate_ids(record.candidates), 0u16),
        voters: upsert_all(before.voters, record.voters, false),
    }
}

/// Voting is open at `now`: the closing time has not come.
pub open spec fn is_open(record: StateView, now: u64) -> bool {
    now < record.close_time
}

/// Why a vote is refused, or `None` where it is taken. The checks come in this
/// order and the first that fails decides.
pub open spec fn vote_refusal(
    store: StoreView,
    record: StateView,
    now: u64,
    sender: Seq<char>,
    candidate: u16,
) -> Option<VoteError> {
    if !is_open(record, now) {
        Some(VoteError::VotingClosed)
    } else if !has_key(store.voters, sender) {
        Some(VoteError::NotEligible)
    } else if lookup(store.voters, sender) == Some(true) {
        Some(VoteError::AlreadyVoted)
    } else if !has_key(store.tally, candidate) {
        Some(VoteError::InvalidCandidate)
    } else {
        None
    }
}

/// A tally after one more vote. The count stops at the largest number that
/// its 16 bits hold; it does not wrap.
pub open spec fn counted(votes: u16) -> u16 {
    if votes < u16::MAX {
        (votes + 1) as u16
    } else {
        votes
    }
}

/// The store after `sender`'s vote for `candidate` was taken.
pub open spec fn after_vote(before: StoreView, sender: Seq<char>, candidate: u16) -> StoreView {
    StoreView {
        record: before.record,
        tally: upsert(before.tally, candidate, counted(lookup(before.tally, candidate).unwrap())),
        voters: upsert(before.voters, sender, true),
    }
}

/// A store in which nothing was ever written.
pub open spec fn empty_store() -> StoreView {
    StoreView {
        record: None,
        tally: Seq::<(u16, u16)>::empty(),
        voters: Seq::<(Seq<char>, bool)>::empty(),
    }
}

/// Setting an election up keeps a well-formed view well formed as long as
/// the tables have room, gives every candidate of the record a tally of zero
/// and every address of the record the flag "has not voted", and leaves what
/// the tables held under other keys.
pub proof fn lemma_setup_writes_what_the_record_names(
    before: StoreView,
    record: StateView,
    id: u16,
    addr: Seq<char>,
)
    requires
        view_wf(before),
        before.tally.len() + record.candidates.len() <= u32::MAX,
        before.voters.len() + record.voters.len() <= u32::MAX,
    ensures
        view_wf(after_setup(before, record)),
        after_setup(before, record).record == Some(record),
        lookup(after_setup(before, record).tally, id) == (if candidate_ids(
            record.candidates,
        ).contains(id) {
            Some(0u16)
        } else {
            lookup(before.tally, id)
        }),
        lookup(after_setup(before, record).voters, addr) == (if record.voters.contains(addr) {
            Some(false)
        } else {
            lookup(before.voters, addr)
        }),
{
    let ids = candidate_ids(record.candidates);
    lemma_upsert_all_shape(before.tally, ids, 0u16);
    lemma_upsert_all_shape(before.voters, record.voters, false);
    lemma_upsert_all_lookup(before.tally, ids, 0u16, id);
    lemma_upsert_all_lookup(before.voters, record.voters, false, addr);
}

/// After an election was set up in an empty store, the tally table has one
/// entry for each distinct candidate id of the record and no other, each with
/// zero votes; and the voter table has one entry for each distinct address of
/// the record and no other, each with the flag "has not voted".
pub proof fn lemma_setup_in_empty_store(record: StateView)
    ensures
        ({
            let after = after_setup(empty_store(), record);
            &&& distinct_keys(after.tally)
            &&& forall|id: u16|
                has_key(after.tally, id) <==> candidate_ids(record.candidates).contains(id)
            &&& forall|i: int| 0 <= i < after.tally.len() ==> (#[trigger] after.tally[i]).1 == 0
            &&& distinct_keys(after.voters)
            &&& forall|addr: Seq<char>|
                has_key(after.voters, addr) <==> record.voters.contains(addr)
            &&& forall|i: int|
                0 <= i < after.voters.len() ==> (#[trigger] after.voters[i]).1 == false
        }),
{
    let ids = candidate_ids(record.candidates);
    let none = empty_store();
    let after = after_setup(none, record);
    lemma_upsert_all_shape(none.tally, ids, 0u16);
    lemma_upsert_all_shape(none.voters, record.voters, false);
    lemma_upsert_all_values::<u16, u16>(ids, 0u16);
    lemma_upsert_all_values::<Seq<char>, bool>(record.voters, false);
    assert forall|id: u16| has_key(after.tally, id) <==> ids.contains(id) by {
        lemma_upsert_all_lookup(none.tally, ids, 0u16, id);
    }
    assert forall|addr: Seq<char>| has_key(after.voters, addr) <==> record.voters.contains(
        addr,
    ) by {
        lemma_upsert_all_lookup(none.voters, record.voters, false, addr);
    }
}

/// While voting is open, an address that the voter table does not hold is
/// refused as not eligible, whatever candidate it names.
pub proof fn lemma_unregistered_is_not_eligible(
    store: StoreView,
    record: StateView,
    now: u64,
    sender: Seq<char>,
    candidate: u16,
)
    requires
        is_open(record, now),
        !has_key(store.voters, sender),
    ensures
        vote_refusal(store, record, now, sender, candidate) == Some(VoteError::NotEligible),
{
}

/// From the closing time on every vote is refused as too late, whoever sends
/// it and whatever it names.
pub proof fn lemma_closed_refuses_every_vote(
    store: StoreView,
    record: StateView,
    now: u64,
    sender: Seq<char>,
    candidate: u16,
)
    requires
        !is_open(record, now),
    ensures
        vote_refusal(store, record, now, sender, candidate) == Some(VoteError::VotingClosed),
{
}

/// A vote that is taken adds no key to a table and takes none away: who is
/// registered and which candidates there are was settled when the election
/// was set up. The record stays as it is, and a voter who has voted stays
/// so.
pub proof fn lemma_vote_keeps_the_register(
    before: StoreView,
    sender: Seq<char>,
    candidate: u16,
    id: u16,
    addr: Seq<char>,
)
    requires
        view_wf(before),
        has_key(before.voters, sender),
        has_key(before.tally, candidate),
    ensures
        view_wf(after_vote(before, sender, candidate)),
        after_vote(before, sender, candidate).record == before.record,
        after_vote(before, sender, candidate).tally.len() == before.tally.len(),
        after_vote(before, sender, candidate).voters.len() == before.voters.len(),
        has_key(after_vote(before, sender, candidate).tally, id) <==> has_key(before.tally, id),
        has_key(after_vote(before, sender, candidate).voters, addr) <==> has_key(
            before.voters,
            addr,
        ),
        lookup(before.voters, addr) == Some(true) ==> lookup(
            after_vote(before, sender, candidate).voters,
            addr,
        ) == Some(true),
{
    let votes = counted(lookup(before.tally, candidate).unwrap());
    lemma_upsert_distinct(before.tally, candidate, votes);
    lemma_upsert_distinct(before.voters, sender, true);
    lemma_upsert_len(before.tally, candidate, votes);
    lemma_upsert_len(before.voters, sender, true);
    lemma_upsert_has_key(before.tally, candidate, votes, id);
    lemma_upsert_has_key(before.voters, sender, true, addr);
    lemma_upsert_lookup(before.voters, sender, true, addr);
}

/// The first vote of a registered voter, for a known candidate and while
/// voting is open, is taken. It raises that candidate's tally by one, leaves
/// every other tally, sets that voter's flag and leaves every other flag.
/// Any further vote of the same voter while voting is open is refused as
/// already cast, whatever candidate it names.
///
/// The tally is taken to be below the largest count that 16 bits hold: at
/// that count it stays (`counted`).
pub proof fn lemma_first_vote_counts_and_second_is_refused(
    before: StoreView,
    record: StateView,
    now: u64,
    sender: Seq<char>,
    candidate: u16,
    later: u64,
    again: u16,
    id: u16,
    addr: Seq<char>,
)
    requires
        view_wf(before),
        is_open(record, now),
        lookup(before.voters, sender) == Some(false),
        has_key(before.tally, candidate),
        lookup(before.tally, candidate).unwrap() < u16::MAX,
        is_open(record, later),
    ensures
        vote_refusal(before, record, now, sender, candidate) is None,
        lookup(after_vote(before, sender, candidate).tally, candidate) == Some(
            (lookup(before.tally, candidate).unwrap() + 1) as u16,
        ),
        id != candidate ==> lookup(after_vote(before, sender, candidate).tally, id) == lookup(
            before.tally,
            id,
        ),
        lookup(after_vote(before, sender, candidate).voters, sender) == Some(true),
        addr != sender ==> lookup(after_vote(before, sender, candidate).voters, addr) == lookup(
            before.voters,
            addr,
        ),
        vote_refusal(after_vote(before, sender, candidate), record, later, sender, again) == Some(
            VoteError::AlreadyVoted,
        ),
{
    let votes = counted(lookup(before.tally, candidate).unwrap());
    lemma_upsert_lookup(before.tally, candidate, votes, candidate);
    lemma_upsert_lookup(before.tally, candidate, votes, id);
    lemma_upsert_lookup(before.voters, sender, true, sender);
    lemma_upsert_lookup(before.voters, sender, true, addr);
    lemma_upsert_has_key(before.voters, sender, true, sender);
}

/// All the votes that a tally table has counted.
pub open spec fn total_votes(tally: Seq<(u16, u16)>) -> nat
    decreases tally.len(),
{
    if tally.len() == 0 {
        0
    } else {
        total_votes(tally.drop_last()) + tally.last().1 as nat
    }
}

/// How many voters of a voter table have voted.
pub open spec fn votes_cast(voters: Seq<(Seq<char>, bool)>) -> nat
    decreases voters.len(),
{
    if voters.len() == 0 {
        0
    } else {
        votes_cast(voters.drop_last()) + (if voters.last().1 {
            1nat
        } else {
            0nat
        })
    }
}

/// Replacing one entry of a tally table changes the total by the difference
/// of the two counts.
proof fn lemma_total_votes_update(tally: Seq<(u16, u16)>, i: int, entry: (u16, u16))
    requires
        0 <= i < tally.len(),
    ensures
        total_votes(tally.update(i, entry)) + tally[i].1 == total_votes(tally) + entry.1,
    decreases tally.len(),
{
    let changed = tally.update(i, entry);
    if i == tally.len() - 1 {
        assert(changed.drop_last() =~= tally.drop_last());
    } else {
        lemma_total_votes_update(tally.drop_last(), i, entry);
        assert(changed.drop_last() =~= tally.drop_last().update(i, entry));
    }
}

/// Replacing one entry of a voter table changes the number of votes cast by
/// what the two flags say.
proof fn lemma_votes_cast_update(
    voters: Seq<(Seq<char>, bool)>,
    i: int,
    entry: (Seq<char>, bool),
)
    requires
        0 <= i < voters.len(),
    ensures
        votes_cast(voters.update(i, entry)) + (if voters[i].1 {
            1nat
        } else {
            0nat
        }) == votes_cast(voters) + (if entry.1 {
            1nat
        } else {
            0nat
        }),
    decreases voters.len(),
{
    let changed = voters.update(i, entry);
    if i == voters.len() - 1 {
        assert(changed.drop_last() =~= voters.drop_last());
    } else {
        lemma_votes_cast_update(voters.drop_last(), i, entry);
        assert(changed.drop_last() =~= voters.drop_last().update(i, entry));
    }
}

/// A tally table of zeros has counted nothing, and a voter table without a
/// set flag has no vote cast.
proof fn lemma_nothing_counted(tally: Seq<(u16, u16)>, voters: Seq<(Seq<char>, bool)>)
    requires
        forall|i: int| 0 <= i < tally.len() ==> (#[trigger] tally[i]).1 == 0,
        forall|i: int| 0 <= i < voters.len() ==> (#[trigger] voters[i]).1 == false,
    ensures
        total_votes(tally) == 0,
        votes_cast(voters) == 0,
    decreases tally.len() + voters.len(),
{
    if tally.len() > 0 {
        assert(tally.last() == tally[tally.len() - 1]);
        assert forall|i: int| 0 <= i < tally.drop_last().len() implies (
        #[trigger] tally.drop_last()[i]).1 == 0 by {
            assert(tally.drop_last()[i] == tally[i]);
        }
        lemma_nothing_counted(tally.drop_last(), voters);
    } else if voters.len() > 0 {
        assert(voters.last() == voters[voters.len() - 1]);
        assert forall|i: int| 0 <= i < voters.drop_last().len() implies (
        #[trigger] voters.drop_last()[i]).1 == false by {
            assert(voters.drop_last()[i] == voters[i]);
        }
        lemma_nothing_counted(tally, voters.drop_last());
    }
}

/// An election that was set up in an empty store starts with no vote counted
/// and no vote cast.
pub proof fn lemma_setup_starts_at_zero(record: StateView)
    ensures
        total_votes(after_setup(empty_store(), record).tally) == 0,
        votes_cast(after_setup(empty_store(), record).voters) == 0,
{
    let after = after_setup(empty_store(), record);
    lemma_setup_in_empty_store(record);
    lemma_nothing_counted(after.tally, after.voters);
}

/// A vote that is taken is one more vote cast, and one more vote counted
/// unless the candidate's tally stood at its largest count. So the tallies
/// never count more votes than were cast, and count exactly the votes cast
/// as long as no tally has reached that count.
pub proof fn lemma_vote_is_counted_once(
    before: StoreView,
    record: StateView,
    now: u64,
    sender: Seq<char>,
    candidate: u16,
)
    requires
        view_wf(before),
        vote_refusal(before, record, now, sender, candidate) is None,
    ensures
        votes_cast(after_vote(before, sender, candidate).voters) == votes_cast(before.voters) + 1,
        total_votes(after_vote(before, sender, candidate).tally) == total_votes(before.tally) + (
        if lookup(before.tally, candidate).unwrap() < u16::MAX {
            1nat
        } else {
            0nat
        }),
        total_votes(before.tally) <= votes_cast(before.voters) ==> total_votes(
            after_vote(before, sender, candidate).tally,
        ) <= votes_cast(after_vote(before, sender, candidate).voters),
{
    let at = position(before.voters, sender);
    let line = position(before.tally, candidate);
    assert(0 <= at < before.voters.len() && before.voters[at].0 == sender);
    assert(0 <= line < before.tally.len() && before.tally[line].0 == candidate);
    lemma_position_unique(before.voters, at);
    lemma_position_unique(before.tally, line);
    let votes = before.tally[line].1;
    lemma_votes_cast_update(before.voters, at, (sender, true));
    lemma_total_votes_update(before.tally, line, (candidate, counted(votes)));
}

} // verus!

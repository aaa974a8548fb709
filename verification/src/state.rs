//! The election's data: candidates, the election record, and the shapes in
//! which tallies and voters are reported.

use crate::error::VoteError;
use crate::store::{record_load, record_save, ElectionStore};
use vstd::prelude::*;

verus! {

/// Someone who can be voted for. The id is what votes name.
#[derive(Clone, Debug, PartialEq, Eq)]
pub struct Candidate {
    pub id: u16,
    pub name: String,
}

/// A candidate as contracts see it.
pub struct CandidateView {
    pub id: u16,
    pub name: Seq<char>,
}

impl View for Candidate {
    type V = CandidateView;

    open spec fn view(&self) -> CandidateView {
        CandidateView { id: self.id, name: self.name@ }
    }
}

/// The election record: written once when the election is set up and only
/// read afterwards.
#[derive(Clone, Debug, PartialEq, Eq)]
pub struct State {
    pub name: String,
    pub candidates_list: Vec<Candidate>,
    pub voters_addresses: Vec<String>,
    /// Unix time in seconds from which on votes are refused and results shown.
    pub close_time: u64,
}

/// The election record as contracts see it.
pub struct StateView {
    pub name: Seq<char>,
    pub candidates: Seq<CandidateView>,
    pub voters: Seq<Seq<char>>,
    pub close_time: u64,
}

/// The candidates of a list, each by its view.
pub open spec fn candidate_views(list: Seq<Candidate>) -> Seq<CandidateView> {
    list.map_values(|c: Candidate| c@)
}

/// The addresses of a list, each by its characters.
pub open spec fn address_views(list: Seq<String>) -> Seq<Seq<char>> {
    list.map_values(|a: String| a@)
}

impl View for State {
    type V = StateView;

    open spec fn view(&self) -> StateView {
        StateView {
            name: self.name@,
            candidates: candidate_views(self.candidates_list@),
            voters: address_views(self.voters_addresses@),
            close_time: self.close_time,
        }
    }
}

/// One line of the results: a candidate id and the votes counted for it.
#[derive(Clone, Debug, PartialEq, Eq)]
pub struct CandidateResult {
    id: u16,
    votes: u16,
}

impl View for CandidateResult {
    type V = (u16, u16);

    closed spec fn view(&self) -> (u16, u16) {
        (self.id, self.votes)
    }
}

impl CandidateResult {
    pub fn new(id: u16, votes: u16) -> (result: CandidateResult)
        ensures
            result@ == (id, votes),
    {
        CandidateResult { id, votes }
    }

    /// The candidate this line is about.
    pub fn id(&self) -> (id: u16)
        ensures
            id == self@.0,
    {
        self.id
    }

    /// The votes counted for the candidate.
    pub fn votes(&self) -> (votes: u16)
        ensures
            votes == self@.1,
    {
        self.votes
    }
}

/// The lines of a result list, each as `(id, votes)`.
pub open spec fn result_views(list: Seq<CandidateResult>) -> Seq<(u16, u16)> {
    list.map_values(|r: CandidateResult| r@)
}

/// A registered voter and whether the vote was cast.
#[derive(Clone, Debug, PartialEq, Eq)]
pub struct Voter {
    addr: String,
    voted: bool,
}

impl View for Voter {
    type V = (Seq<char>, bool);

    closed spec fn view(&self) -> (Seq<char>, bool) {
        (self.addr@, self.voted)
    }
}

impl Voter {
    pub fn new(addr: String, voted: bool) -> (voter: Voter)
        ensures
            voter@ == (addr@, voted),
    {
        Voter { addr, voted }
    }

    /// The voter's address.
    pub fn addr(&self) -> (addr: &String)
        ensures
            addr@ == self@.0,
    {
        &self.addr
    }

    /// Whether the voter has cast the vote.
    pub fn voted(&self) -> (voted: bool)
        ensures
            voted == self@.1,
    {
        self.voted
    }
}

/// Writes the election record: the store then holds `state` as its record
/// and both tables as before. On a well-formed store this succeeds.
pub fn config(store: &mut ElectionStore, state: &State) -> (saved: Result<(), VoteError>)
    requires
        old(store).wf(),
    ensures
        saved is Ok,
        final(store).wf(),
        final(store)@.record == Some(state@),
        final(store)@.tally == old(store)@.tally,
        final(store)@.voters == old(store)@.voters,
{
    match record_save(store, state) {
        Ok(()) => Ok(()),
        Err(e) => Err(VoteError::Store(e)),
    }
}

/// Reads the election record.
///
/// `Ok` exactly where the store holds a record, and then with that record;
/// otherwise the store's error as `VoteError::Store`.
pub fn config_read(store: &ElectionStore) -> (loaded: Result<State, VoteError>)
    requires
        store.wf(),
    ensures
        match loaded {
            Ok(state) => store@.record == Some(state@),
            Err(e) => store@.record is None && e is Store,
        },
{
    match record_load(store) {
        Ok(state) => Ok(state),
        Err(e) => Err(VoteError::Store(e)),
    }
}

} // verus!

//! What callers send to the election and what it answers.

use crate::state::{address_views, candidate_views, Candidate, CandidateResult, StateView};
use vstd::prelude::*;

verus! {

/// The block a call runs in, as far as the election reads it.
#[derive(Clone, Debug, PartialEq, Eq)]
pub struct Env {
    /// The block's time, in Unix seconds.
    pub time: u64,
}

/// The caller of a call. The host has checked the address before the
/// election sees it.
#[derive(Clone, Debug, PartialEq, Eq)]
pub struct MessageInfo {
    pub sender: String,
}

/// Sets the election up.
#[derive(Clone, Debug, PartialEq)]
pub struct InstantiateMsg {
    pub name: String,
    pub candidates: Vec<Candidate>,
    pub voters: Vec<String>,
    /// Unix time in seconds from which on votes are refused and results shown.
    pub close_time: u64,
}

impl View for InstantiateMsg {
    type V = StateView;

    /// The election record that the message asks for.
    open spec fn view(&self) -> StateView {
        StateView {
            name: self.name@,
            candidates: candidate_views(self.candidates@),
            voters: address_views(self.voters@),
            close_time: self.close_time,
        }
    }
}

/// What changes the election.
#[derive(Clone, Debug, PartialEq)]
pub enum ExecuteMsg {
    SubmitVote { candidate_id: u16 },
}

/// What can be asked of the election.
#[derive(Clone, Debug, PartialEq)]
pub enum QueryMsg {
    GetName {  },
    GetCandidateList {  },
    GetVotersCount {  },
    GetCloseTime {  },
    GetResults {  },
}

/// The answer to a query, one variant for each question.
#[derive(Clone, Debug, PartialEq)]
pub enum QueryResponse {
    Name(String),
    CandidateList(Vec<Candidate>),
    VotersCount(u32),
    CloseTime(u64),
    Results(Vec<CandidateResult>),
}

} // verus!

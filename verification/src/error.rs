//! Why a call was refused.

use crate::store::std_error_text;
use secret_cosmwasm_std::StdError;
use vstd::prelude::*;
use vstd::string::StringExecFns;

verus! {

/// The refusals of the election, and the store's own failure.
///
/// The first five are answers to the caller: the election is as it was and
/// the caller may try something else. `Store` carries an error that the host's
/// store returned; on a well-formed store that is the missing election record.
#[derive(Debug, PartialEq)]
pub enum VoteError {
    /// A vote came at or after the closing time.
    VotingClosed,
    /// The caller is not a registered voter.
    NotEligible,
    /// The caller has voted before.
    AlreadyVoted,
    /// The vote names a candidate that the tally does not know.
    InvalidCandidate,
    /// The results were asked for before the closing time.
    VotingNotClosed,
    /// The store returned an error, as it does where it holds no election
    /// record.
    Store(StdError),
}

/// The sentence that goes with a refusal.
pub open spec fn refusal_text(error: VoteError) -> Seq<char>
    recommends
        !(error is Store),
{
    match error {
        VoteError::VotingClosed => "Voting close time has passed, voting is closed"@,
        VoteError::NotEligible => "Voter is not eligible to vote in this smart contract"@,
        VoteError::AlreadyVoted => "Voter has already voted"@,
        VoteError::InvalidCandidate => "Invalid candidate id"@,
        _ => "Voting has not been closed yet"@,
    }
}

impl VoteError {
    /// What went wrong, in a sentence: a refusal's own, or what the store said.
    pub fn message(&self) -> (text: String)
        ensures
            !(self is Store) ==> text@ == refusal_text(*self),
    {
        match self {
            VoteError::VotingClosed => String::from_str(
                "Voting close time has passed, voting is closed",
            ),
            VoteError::NotEligible => String::from_str(
                "Voter is not eligible to vote in this smart contract",
            ),
            VoteError::AlreadyVoted => String::from_str("Voter has already voted"),
            VoteError::InvalidCandidate => String::from_str("Invalid candidate id"),
            VoteError::VotingNotClosed => String::from_str("Voting has not been closed yet"),
            VoteError::Store(e) => std_error_text(e),
        }
    }

    /// The error as the host shows it: a refusal as a generic error with its
    /// sentence, a store error in the store's own words.
    pub fn to_string(&self) -> (text: String)
        ensures
            !(self is Store) ==> text@ == "Generic error: "@ + refusal_text(*self),
    {
        match self {
            VoteError::Store(e) => std_error_text(e),
            _ => {
                let sentence = self.message();
                String::from_str("Generic error: ").concat(sentence.as_str())
            },
        }
    }
}

} // verus!

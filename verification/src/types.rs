//! The data model: members, proposals, votes and the effect type for
//! requested token transfers.

use vstd::prelude::*;
use crate::error::Error;
use crate::kv::KvList;

verus! {

/// An account identity on the host ledger.
pub type AccountId = String;

/// A protocol vote: yes and no move the tallies, null is a recorded
/// abstention.
#[derive(Clone, Copy, Debug, PartialEq, Eq, Structural)]
pub enum Vote {
    Yes,
    No,
    /// Counts as abstention
    Null,
}

impl Vote {
    /// Decodes the wire encoding of a vote: 1 is yes, 2 is no, 3 is
    /// abstention; everything else is rejected.
    pub fn from_u8(value: u8) -> (r: Result<Vote, Error>)
        ensures
            r == (match value {
                1u8 => Ok::<Vote, Error>(Vote::Yes),
                2u8 => Ok::<Vote, Error>(Vote::No),
                3u8 => Ok::<Vote, Error>(Vote::Null),
                _ => Err::<Vote, Error>(Error::InvalidVoteCode),
            }),
    {
        match value {
            1 => Ok(Vote::Yes),
            2 => Ok(Vote::No),
            3 => Ok(Vote::Null),
            _ => Err(Error::InvalidVoteCode),
        }
    }
}

/// A member of the DAO.
#[derive(Debug)]
pub struct Member {
    /// The key allowed to submit proposals and vote on the member's
    /// behalf; defaults to the member's own identity.
    pub delegate_key: AccountId,
    /// The number of shares held by this member.
    pub shares: u128,
    /// Always true once a member has been created.
    pub exists: bool,
    /// Highest proposal index on which the member voted yes.
    pub highest_index_yes_vote: u64,
}

impl Member {
    /// The sentinel record standing for "never existed".
    pub open spec fn spec_is_sentinel(self) -> bool {
        &&& self.delegate_key@.len() == 0
        &&& self.shares == 0
        &&& !self.exists
        &&& self.highest_index_yes_vote == 0
    }
}

impl Clone for Member {
    fn clone(&self) -> (r: Self)
        ensures
            r == *self,
    {
        Member {
            delegate_key: self.delegate_key.clone(),
            shares: self.shares,
            exists: self.exists,
            highest_index_yes_vote: self.highest_index_yes_vote,
        }
    }
}

/// One entry of the append-only proposal queue.
#[derive(Debug)]
pub struct Proposal {
    /// The member who submitted the proposal.
    pub proposer: AccountId,
    /// The account that stands to gain shares and whose tribute is at
    /// stake.
    pub applicant: AccountId,
    /// The number of shares the applicant is requesting.
    pub shares_requested: u128,
    /// The period in which voting on this proposal can start.
    pub starting_period: u64,
    /// Total shares voted yes on this proposal.
    pub yes_votes: u128,
    /// Total shares voted no on this proposal.
    pub no_votes: u128,
    /// True once the proposal has been processed.
    pub processed: bool,
    /// True only if the proposal passed at processing time.
    pub did_pass: bool,
    /// True only if the applicant aborted the proposal before the abort
    /// window closed.
    pub aborted: bool,
    /// Amount of tokens offered as tribute.
    pub token_tribute: u128,
    /// Free-form proposal details.
    pub details: String,
    /// The largest total-share count observed at any yes vote on this
    /// proposal; the dilution-safety watermark.
    pub max_total_shares_at_yes_vote: u128,
    /// The vote each member has cast on this proposal.
    pub votes_by_member: KvList<Vote>,
}

/// A fungible-token transfer that the host runtime is asked to perform
/// after a governance call returns. The state change it follows is already
/// committed; the transfer itself is outside the engine.
#[derive(Debug)]
pub struct TransferRequest {
    /// The token contract to transfer through.
    pub token_id: AccountId,
    /// The receiving account.
    pub to: AccountId,
    /// The amount to transfer.
    pub amount: u128,
}

/// A user's storage-deposit bookkeeping entry, maintained by the host
/// runtime's registration layer.
#[derive(Clone, Copy, Debug, PartialEq, Eq, Structural, Default)]
pub struct UserStorageBalance {
    /// The total storage deposit the user has made.
    pub total: u128,
    /// The part of the deposit not yet consumed by stored state.
    pub available: u128,
}

} // verus!

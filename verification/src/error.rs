//! Typed errors for every way a governance call can be refused.
//!
//! Each variant corresponds to one precondition of the engine; `message`
//! gives the human-readable text that off-chain tooling can assert on.

use vstd::prelude::*;

verus! {

/// Why a governance call was rejected. No state is changed when one of
/// these is returned.
#[derive(Clone, Copy, Debug, PartialEq, Eq, Structural)]
pub enum Error {
    /// The caller does not resolve through the delegate index to a member.
    NotDelegate,
    /// The caller is not itself a registered member identity.
    NotMember,
    /// A proposal index lies outside the queue.
    ProposalNotFound,
    /// A member identity is not registered.
    MemberNotFound,
    /// A vote code other than yes, no or abstain.
    InvalidVoteCode,
    /// A malformed account identity.
    InvalidAccount,
    /// Voting on the proposal has not started yet.
    VotingNotStarted,
    /// The proposal's voting window has closed.
    VotingExpired,
    /// The member has already voted on this proposal.
    AlreadyVoted,
    /// The proposal was aborted.
    ProposalAborted,
    /// The grace period of the proposal has not elapsed yet.
    NotReadyToProcess,
    /// The proposal has already been processed.
    AlreadyProcessed,
    /// The immediately preceding proposal has not been processed.
    PreviousNotProcessed,
    /// The proposal has already been aborted.
    AlreadyAborted,
    /// The abort window of the proposal has closed.
    AbortWindowClosed,
    /// Only the proposal's applicant may abort it.
    NotApplicant,
    /// The new delegate key is an existing member identity.
    CannotOverwriteMember,
    /// The new delegate key is already another member's delegate key.
    CannotOverwriteDelegate,
    /// Granting the requested shares could overflow the share counters.
    TooManySharesRequested,
    /// An escrow balance is too small for the requested withdrawal.
    InsufficientEscrowBalance,
    /// The member holds fewer shares than they asked to burn.
    InsufficientShares,
    /// The highest proposal the member voted yes on is still pending.
    CannotRageQuitPendingVote,
    /// A balance update would overflow its counter.
    ArithmeticOverflow,
    /// A proportional payout cannot be computed from zero total shares.
    DivisionByZero,
    /// A genesis parameter violates its documented bounds.
    ConfigurationError,
}

impl Error {
    /// The text of each variant's message.
    pub open spec fn spec_message(self) -> Seq<char> {
        match self {
            Error::NotDelegate => "Account is not a delegate"@,
            Error::NotMember => "Account is not a member"@,
            Error::ProposalNotFound => "Proposal does not exist"@,
            Error::MemberNotFound => "Member does not exist"@,
            Error::InvalidVoteCode => "Vote must be yes, no or abstain"@,
            Error::InvalidAccount => "Account is not a valid account id"@,
            Error::VotingNotStarted => "Voting period has not begun"@,
            Error::VotingExpired => "Proposal voting period has expired"@,
            Error::AlreadyVoted => "Member has already voted"@,
            Error::ProposalAborted => "Proposal has been aborted"@,
            Error::NotReadyToProcess => "Proposal is not ready to be processed"@,
            Error::AlreadyProcessed => "Proposal has already been processed"@,
            Error::PreviousNotProcessed => "Previous proposal must be processed"@,
            Error::AlreadyAborted => "Proposal has already been aborted"@,
            Error::AbortWindowClosed => "Abort window has passed!"@,
            Error::NotApplicant => "Calling account is not the proposal applicant"@,
            Error::CannotOverwriteMember => "Can't overwrite an existing members delegate_key"@,
            Error::CannotOverwriteDelegate => "Can't overwrite existing delegate keys"@,
            Error::TooManySharesRequested => "Too many shares were requested"@,
            Error::InsufficientEscrowBalance => {
                "Insufficient balance to withdraw the requested amount"@
            },
            Error::InsufficientShares => "Not enough shares to be burned"@,
            Error::CannotRageQuitPendingVote => {
                "Can't rage quit until the highest index proposal member voted YES is processed"@
            },
            Error::ArithmeticOverflow => "Balance update overflows"@,
            Error::DivisionByZero => "Total shares is 0 a withdrawal cannot be calculated"@,
            Error::ConfigurationError => "Invalid genesis parameter"@,
        }
    }

    /// The human-readable message naming the violated invariant.
    pub fn message(&self) -> (r: &'static str)
        ensures
            r@ == self.spec_message(),
    {
        match self {
            Error::NotDelegate => "Account is not a delegate",
            Error::NotMember => "Account is not a member",
            Error::ProposalNotFound => "Proposal does not exist",
            Error::MemberNotFound => "Member does not exist",
            Error::InvalidVoteCode => "Vote must be yes, no or abstain",
            Error::InvalidAccount => "Account is not a valid account id",
            Error::VotingNotStarted => "Voting period has not begun",
            Error::VotingExpired => "Proposal voting period has expired",
            Error::AlreadyVoted => "Member has already voted",
            Error::ProposalAborted => "Proposal has been aborted",
            Error::NotReadyToProcess => "Proposal is not ready to be processed",
            Error::AlreadyProcessed => "Proposal has already been processed",
            Error::PreviousNotProcessed => "Previous proposal must be processed",
            Error::AlreadyAborted => "Proposal has already been aborted",
            Error::AbortWindowClosed => "Abort window has passed!",
            Error::NotApplicant => "Calling account is not the proposal applicant",
            Error::CannotOverwriteMember => "Can't overwrite an existing members delegate_key",
            Error::CannotOverwriteDelegate => "Can't overwrite existing delegate keys",
            Error::TooManySharesRequested => "Too many shares were requested",
            Error::InsufficientEscrowBalance => {
                "Insufficient balance to withdraw the requested amount"
            },
            Error::InsufficientShares => "Not enough shares to be burned",
            Error::CannotRageQuitPendingVote => {
                "Can't rage quit until the highest index proposal member voted YES is processed"
            },
            Error::ArithmeticOverflow => "Balance update overflows",
            Error::DivisionByZero => "Total shares is 0 a withdrawal cannot be calculated",
            Error::ConfigurationError => "Invalid genesis parameter",
        }
    }
}

} // verus!

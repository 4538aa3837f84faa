//! The governance engine: the proposal lifecycle state machine.
//!
//! Every operation takes the caller identity and, where timing matters,
//! the current block timestamp as explicit arguments, validates all of its
//! preconditions before touching any state, and either commits the whole
//! step or returns a typed error leaving the state exactly as it was.
//! Token transfers that must follow a committed step are handed back as
//! [`TransferRequest`] values for the host runtime to perform.

use vstd::prelude::*;
use crate::account::{is_valid_account_id, spec_valid_account};
use crate::bank::GuildBank;
use crate::error::Error;
use crate::escrow::ProposalEscrow;
use crate::kv::KvList;
use crate::types::{AccountId, Member, Proposal, TransferRequest, Vote};

verus! {

/// Maximum number of periods a voting window may span.
pub const MAX_VOTING_PERIOD_LENGTH: u64 = 10000000000000000000;

/// Maximum number of periods a grace window may span.
pub const MAX_GRACE_PERIOD_LENGTH: u64 = 10000000000000000000;

/// Maximum dilution bound a genesis may configure.
pub const MAX_DILUTION_BOUND: u128 = 10000000000000000000;

/// `a + b`, clamped to the `u64` maximum.
pub open spec fn sat_add_u64(a: u64, b: u64) -> u64 {
    if a + b > u64::MAX {
        u64::MAX
    } else {
        (a + b) as u64
    }
}

/// `a + b`, clamped to the `u128` maximum.
pub open spec fn sat_add_u128(a: u128, b: u128) -> u128 {
    if a + b > u128::MAX {
        u128::MAX
    } else {
        (a + b) as u128
    }
}

/// `a - b`, clamped to zero.
pub open spec fn sat_sub_u128(a: u128, b: u128) -> u128 {
    if a >= b {
        (a - b) as u128
    } else {
        0
    }
}

/// The whole state of one DAO: configuration fixed at genesis, the member
/// registry and delegate index, the escrow and treasury ledgers, the
/// global share counters and the append-only proposal queue.
#[derive(Debug)]
pub struct Moloch {
    /// The length of a period in nanoseconds.
    pub period_duration: u64,
    /// The number of periods a proposal can be voted on.
    pub voting_period_length: u64,
    /// The number of periods between the end of voting and processing.
    pub grace_period_length: u64,
    /// Deposit a proposer must escrow to submit a proposal.
    pub proposal_deposit: u128,
    /// The number of periods during which a proposal can be aborted.
    pub abort_window: u64,
    /// Maximum multiplier a yes voter can be diluted by before the
    /// proposal is failed outright.
    pub dilution_bound: u128,
    /// Reward paid to whoever processes a proposal.
    pub processing_reward: u128,
    /// The genesis timestamp periods are counted from.
    pub summoning_time: u64,
    /// The approved payment token.
    pub token_id: AccountId,
    /// The member registry, keyed by member identity.
    pub members: KvList<Member>,
    /// The delegate index: delegate identity to member identity.
    pub members_by_delegate_key: KvList<AccountId>,
    /// Total shares across all members.
    pub total_shares: u128,
    /// The pooled guild treasury.
    pub bank: GuildBank,
    /// Escrowed deposits awaiting governance decisions.
    pub escrow: ProposalEscrow,
    /// Total shares requested across all unprocessed proposals.
    pub total_shares_requested: u128,
    /// The proposals, in submission order.
    pub proposal_queue: Vec<Proposal>,
}

impl Moloch {
    /// What an unprocessed proposal contributes to the outstanding
    /// requested-share count.
    pub open spec fn pending_request(p: Proposal) -> int {
        if !p.processed {
            p.shares_requested as int
        } else {
            0
        }
    }

    /// The sum of requested shares over the unprocessed proposals of `q`.
    pub open spec fn tsr_of(q: Seq<Proposal>) -> int
        decreases q.len(),
    {
        if q.len() == 0 {
            0
        } else {
            Self::tsr_of(q.drop_last()) + Self::pending_request(q.last())
        }
    }

    /// The structural invariant of a DAO state: the genesis parameters are
    /// within their documented bounds, starting periods never decrease
    /// along the queue, and the outstanding requested-share counter equals
    /// the sum over the unprocessed proposals.
    pub open spec fn wf(self) -> bool {
        &&& 1 <= self.period_duration
        &&& 1 <= self.voting_period_length <= MAX_VOTING_PERIOD_LENGTH
        &&& self.grace_period_length <= MAX_GRACE_PERIOD_LENGTH
        &&& 1 <= self.abort_window <= self.voting_period_length
        &&& 1 <= self.dilution_bound <= MAX_DILUTION_BOUND
        &&& self.processing_reward <= self.proposal_deposit
        &&& forall|i: int|
            0 <= i < self.proposal_queue@.len() - 1
                ==> #[trigger] self.proposal_queue@[i].starting_period
                <= self.proposal_queue@[i + 1].starting_period
        &&& forall|i: int|
            0 <= i < self.proposal_queue@.len() - 1 ==> (#[trigger] self.proposal_queue@[
                i + 1
            ].processed ==> self.proposal_queue@[i].processed)
        &&& self.total_shares_requested == Self::tsr_of(self.proposal_queue@)
        &&& self.total_shares + self.total_shares_requested <= u128::MAX
    }

    /// The current period: elapsed time since genesis, floor-divided by
    /// the period duration, with elapsed time clamped at zero.
    pub open spec fn spec_current_period(self, now: u64) -> int {
        if self.period_duration == 0 {
            0
        } else {
            (if now >= self.summoning_time {
                now - self.summoning_time
            } else {
                0
            }) / (self.period_duration as int)
        }
    }

    /// Whether the voting window that opened at `starting_period` has
    /// closed by `now`.
    pub open spec fn spec_voting_period_expired(self, starting_period: u64, now: u64) -> bool {
        self.spec_current_period(now) >= sat_add_u64(starting_period, self.voting_period_length)
    }

    /// Whether `caller` resolves through the delegate index to a live
    /// member identity.
    pub open spec fn spec_delegate_ok(self, caller: Seq<char>) -> bool {
        match self.members_by_delegate_key.spec_get(caller) {
            Some(v) => v@.len() != 0,
            None => false,
        }
    }

    /// The member identity `caller` resolves to through the delegate
    /// index.
    pub open spec fn spec_delegate_target(self, caller: Seq<char>) -> Seq<char> {
        match self.members_by_delegate_key.spec_get(caller) {
            Some(v) => v@,
            None => Seq::<char>::empty(),
        }
    }

    /// Whether `id` is a registered member: bound in the registry to a
    /// record other than the never-existed sentinel.
    pub open spec fn spec_is_member(self, id: Seq<char>) -> bool {
        match self.members.spec_get(id) {
            Some(m) => !m.spec_is_sentinel(),
            None => false,
        }
    }

    /// The starting period a proposal submitted at `now` is assigned: one
    /// past the later of the current period and the last queued proposal's
    /// starting period.
    pub open spec fn spec_starting_period(self, now: u64) -> u64 {
        let base = if self.proposal_queue@.len() == 0 {
            0
        } else {
            self.proposal_queue@.last().starting_period
        };
        let cur = self.spec_current_period(now);
        if cur >= base {
            sat_add_u64(cur as u64, 1)
        } else {
            sat_add_u64(base, 1)
        }
    }

    /// The genesis parameters are unchanged between `a` and `b`.
    pub open spec fn same_config(a: Self, b: Self) -> bool {
        &&& b.period_duration == a.period_duration
        &&& b.voting_period_length == a.voting_period_length
        &&& b.grace_period_length == a.grace_period_length
        &&& b.proposal_deposit == a.proposal_deposit
        &&& b.abort_window == a.abort_window
        &&& b.dilution_bound == a.dilution_bound
        &&& b.processing_reward == a.processing_reward
        &&& b.summoning_time == a.summoning_time
        &&& b.token_id@ == a.token_id@
    }

    /// Appending a proposal adds its contribution to the outstanding sum.
    proof fn lemma_tsr_push(q: Seq<Proposal>, p: Proposal)
        ensures
            Self::tsr_of(q.push(p)) == Self::tsr_of(q) + Self::pending_request(p),
    {
        assert(q.push(p).drop_last() =~= q);
        assert(q.push(p).last() == p);
    }

    /// Replacing the proposal at `i` swaps its contribution in the
    /// outstanding sum.
    proof fn lemma_tsr_update(q: Seq<Proposal>, i: int, p: Proposal)
        requires
            0 <= i < q.len(),
        ensures
            Self::tsr_of(q.update(i, p)) == Self::tsr_of(q) - Self::pending_request(q[i]) + Self::pending_request(
                p,
            ),
        decreases q.len(),
    {
        let t = q.update(i, p);
        if i == q.len() - 1 {
            assert(t.drop_last() =~= q.drop_last());
            assert(t.last() == p);
        } else {
            assert(t.drop_last() =~= q.drop_last().update(i, p));
            assert(q.drop_last()[i] == q[i]);
            Self::lemma_tsr_update(q.drop_last(), i, p);
            assert(t.last() == q.last());
        }
    }

    /// The outstanding sum is never negative.
    proof fn lemma_tsr_nonneg(q: Seq<Proposal>)
        ensures
            Self::tsr_of(q) >= 0,
        decreases q.len(),
    {
        if q.len() > 0 {
            Self::lemma_tsr_nonneg(q.drop_last());
        }
    }

    /// Each unprocessed proposal's request is a lower bound on the
    /// outstanding sum.
    proof fn lemma_tsr_lower(q: Seq<Proposal>, i: int)
        requires
            0 <= i < q.len(),
            !q[i].processed,
        ensures
            Self::tsr_of(q) >= q[i].shares_requested,
        decreases q.len(),
    {
        if i == q.len() - 1 {
            Self::lemma_tsr_nonneg(q.drop_last());
        } else {
            assert(q.drop_last()[i] == q[i]);
            Self::lemma_tsr_lower(q.drop_last(), i);
        }
    }

    /// Law: in a well-formed state, starting periods are non-decreasing
    /// across increasing proposal indices.
    pub proof fn lemma_starting_periods_monotone(m: Self, i: int, j: int)
        requires
            m.wf(),
            0 <= i <= j < m.proposal_queue@.len(),
        ensures
            m.proposal_queue@[i].starting_period <= m.proposal_queue@[j].starting_period,
        decreases j - i,
    {
        if i < j {
            Self::lemma_starting_periods_monotone(m, i, j - 1);
            assert(m.proposal_queue@[j - 1].starting_period
                <= m.proposal_queue@[j].starting_period);
        }
    }

    /// Law: in a well-formed state, every proposal below a processed one
    /// is itself processed — processing happens strictly in queue order.
    pub proof fn lemma_processed_prefix(m: Self, i: int, j: int)
        requires
            m.wf(),
            0 <= j <= i < m.proposal_queue@.len(),
            m.proposal_queue@[i].processed,
        ensures
            m.proposal_queue@[j].processed,
        decreases i - j,
    {
        if j < i {
            assert(m.proposal_queue@[(i - 1) + 1].processed);
            assert(m.proposal_queue@[i - 1].processed);
            Self::lemma_processed_prefix(m, i - 1, j);
        }
    }

    /// The first genesis parameter violation, if any.
    pub open spec fn spec_genesis_err(
        summoner: Seq<char>,
        approved_token: Seq<char>,
        period_duration: u64,
        voting_period_length: u64,
        grace_period_length: u64,
        abort_window: u64,
        proposal_deposit: u128,
        dilution_bound: u128,
        processing_reward: u128,
    ) -> Option<Error> {
        if !spec_valid_account(summoner) {
            Some(Error::InvalidAccount)
        } else if !spec_valid_account(approved_token) {
            Some(Error::InvalidAccount)
        } else if period_duration == 0 {
            Some(Error::ConfigurationError)
        } else if voting_period_length == 0 {
            Some(Error::ConfigurationError)
        } else if voting_period_length > MAX_VOTING_PERIOD_LENGTH {
            Some(Error::ConfigurationError)
        } else if grace_period_length > MAX_GRACE_PERIOD_LENGTH {
            Some(Error::ConfigurationError)
        } else if abort_window == 0 {
            Some(Error::ConfigurationError)
        } else if abort_window > voting_period_length {
            Some(Error::ConfigurationError)
        } else if dilution_bound == 0 {
            Some(Error::ConfigurationError)
        } else if dilution_bound > MAX_DILUTION_BOUND {
            Some(Error::ConfigurationError)
        } else if proposal_deposit < processing_reward {
            Some(Error::ConfigurationError)
        } else {
            None
        }
    }

    /// Summons a DAO at time `now`: validates every genesis parameter and,
    /// if all are in bounds, starts with the summoner as the only member,
    /// holding one share and acting as their own delegate.
    pub fn new(
        summoner: AccountId,
        approved_token: AccountId,
        period_duration: u64,
        voting_period_length: u64,
        grace_period_length: u64,
        abort_window: u64,
        proposal_deposit: u128,
        dilution_bound: u128,
        processing_reward: u128,
        now: u64,
    ) -> (r: Result<Moloch, Error>)
        ensures
            match r {
                Ok(m) => {
                    &&& Self::spec_genesis_err(
                        summoner@,
                        approved_token@,
                        period_duration,
                        voting_period_length,
                        grace_period_length,
                        abort_window,
                        proposal_deposit,
                        dilution_bound,
                        processing_reward,
                    ) is None
                    &&& m.wf()
                    &&& m.period_duration == period_duration
                    &&& m.voting_period_length == voting_period_length
                    &&& m.grace_period_length == grace_period_length
                    &&& m.proposal_deposit == proposal_deposit
                    &&& m.abort_window == abort_window
                    &&& m.dilution_bound == dilution_bound
                    &&& m.processing_reward == processing_reward
                    &&& m.summoning_time == now
                    &&& m.token_id@ == approved_token@
                    &&& m.total_shares == 1
                    &&& m.total_shares_requested == 0
                    &&& m.proposal_queue@.len() == 0
                    &&& m.bank.balance == 0
                    &&& m.bank.token_id@ == approved_token@
                    &&& forall|k: Seq<char>| m.escrow.spec_balance(k) == 0
                    &&& (match m.members.spec_get(summoner@) {
                        Some(mem) => {
                            &&& mem.delegate_key@ == summoner@
                            &&& mem.shares == 1
                            &&& mem.exists
                            &&& mem.highest_index_yes_vote == 0
                        },
                        None => false,
                    })
                    &&& forall|k: Seq<char>|
                        k != summoner@ ==> #[trigger] m.members.spec_get(k) is None
                    &&& (match m.members_by_delegate_key.spec_get(summoner@) {
                        Some(v) => v@ == summoner@,
                        None => false,
                    })
                    &&& forall|k: Seq<char>|
                        k != summoner@ ==> #[trigger] m.members_by_delegate_key.spec_get(k) is None
                },
                Err(e) => Some(e) == Self::spec_genesis_err(
                    summoner@,
                    approved_token@,
                    period_duration,
                    voting_period_length,
                    grace_period_length,
                    abort_window,
                    proposal_deposit,
                    dilution_bound,
                    processing_reward,
                ),
            },
    {
        if !is_valid_account_id(summoner.as_str()) {
            return Err(Error::InvalidAccount);
        }
        if !is_valid_account_id(approved_token.as_str()) {
            return Err(Error::InvalidAccount);
        }
        if period_duration == 0 {
            return Err(Error::ConfigurationError);
        }
        if voting_period_length == 0 {
            return Err(Error::ConfigurationError);
        }
        if voting_period_length > MAX_VOTING_PERIOD_LENGTH {
            return Err(Error::ConfigurationError);
        }
        if grace_period_length > MAX_GRACE_PERIOD_LENGTH {
            return Err(Error::ConfigurationError);
        }
        if abort_window == 0 {
            return Err(Error::ConfigurationError);
        }
        if abort_window > voting_period_length {
            return Err(Error::ConfigurationError);
        }
        if dilution_bound == 0 {
            return Err(Error::ConfigurationError);
        }
        if dilution_bound > MAX_DILUTION_BOUND {
            return Err(Error::ConfigurationError);
        }
        if proposal_deposit < processing_reward {
            return Err(Error::ConfigurationError);
        }

        let bank = GuildBank::new(approved_token.clone());
        let escrow = ProposalEscrow::new();

        let mut members: KvList<Member> = KvList::new();
        members.set(
            &summoner,
            Member {
                delegate_key: summoner.clone(),
                shares: 1,
                exists: true,
                highest_index_yes_vote: 0,
            },
        );

        let mut members_by_delegate_key: KvList<AccountId> = KvList::new();
        members_by_delegate_key.set(&summoner, summoner.clone());

        Ok(
            Moloch {
                period_duration,
                voting_period_length,
                grace_period_length,
                proposal_deposit,
                abort_window,
                dilution_bound,
                processing_reward,
                summoning_time: now,
                token_id: approved_token,
                members,
                members_by_delegate_key,
                total_shares: 1,
                bank,
                escrow,
                total_shares_requested: 0,
                proposal_queue: Vec::new(),
            },
        )
    }

    /// The number of periods elapsed since genesis at time `now`.
    pub fn get_current_period(&self, now: u64) -> (r: u64)
        ensures
            r == self.spec_current_period(now),
    {
        if self.period_duration == 0 {
            return 0;
        }
        let elapsed = if now >= self.summoning_time {
            now - self.summoning_time
        } else {
            0
        };
        elapsed / self.period_duration
    }

    /// The number of proposals ever submitted.
    pub fn get_proposal_queue_length(&self) -> (r: u64)
        ensures
            r == self.proposal_queue@.len(),
    {
        self.proposal_queue.len() as u64
    }

    /// Whether the voting window that opened at `starting_period` has
    /// closed by `now`.
    pub fn has_voting_period_expired(&self, starting_period: u64, now: u64) -> (r: bool)
        ensures
            r == self.spec_voting_period_expired(starting_period, now),
    {
        self.get_current_period(now) >= starting_period.saturating_add(self.voting_period_length)
    }

    /// Whether the proposal at `highest_index_yes_vote` has been
    /// processed, which is what clears a member for ragequit.
    pub fn can_rage_quit(&self, highest_index_yes_vote: u64) -> (r: Result<bool, Error>)
        ensures
            match r {
                Ok(b) => {
                    &&& highest_index_yes_vote < self.proposal_queue@.len()
                    &&& b == self.proposal_queue@[highest_index_yes_vote as int].processed
                },
                Err(e) => {
                    &&& e == Error::ProposalNotFound
                    &&& highest_index_yes_vote >= self.proposal_queue@.len()
                },
            },
    {
        if highest_index_yes_vote >= self.proposal_queue.len() as u64 {
            return Err(Error::ProposalNotFound);
        }
        let i = highest_index_yes_vote as usize;
        Ok(self.proposal_queue[i].processed)
    }

    /// A user's escrowed balance.
    pub fn get_escrow_user_balance(&self, account_id: AccountId) -> (r: u128)
        ensures
            r == self.escrow.spec_balance(account_id@),
    {
        self.escrow.user_balance(account_id)
    }

    /// The pooled treasury balance.
    pub fn get_bank_balance(&self) -> (r: u128)
        ensures
            r == self.bank.balance,
    {
        self.bank.get_balance()
    }

    /// Resolves `caller` through the delegate index, returning the member
    /// identity it acts for; fails unless the caller is a live delegate.
    pub fn only_delegate(&self, caller: &AccountId) -> (r: Result<AccountId, Error>)
        ensures
            match r {
                Ok(mid) => {
                    &&& self.spec_delegate_ok(caller@)
                    &&& mid@ == self.spec_delegate_target(caller@)
                },
                Err(e) => {
                    &&& e == Error::NotDelegate
                    &&& !self.spec_delegate_ok(caller@)
                },
            },
    {
        match self.members_by_delegate_key.get(caller) {
            Some(member_id) => {
                if member_id.as_str().is_empty() {
                    Err(Error::NotDelegate)
                } else {
                    Ok(member_id.clone())
                }
            },
            None => Err(Error::NotDelegate),
        }
    }

    /// Fails unless `caller` is itself a registered member identity.
    pub fn only_member(&self, caller: &AccountId) -> (r: Result<(), Error>)
        ensures
            match r {
                Ok(_) => self.spec_is_member(caller@),
                Err(e) => {
                    &&& e == Error::NotMember
                    &&& !self.spec_is_member(caller@)
                },
            },
    {
        match self.members.get(caller) {
            Some(m) => {
                if m.delegate_key.as_str().is_empty() && m.shares == 0 && !m.exists
                    && m.highest_index_yes_vote == 0 {
                    Err(Error::NotMember)
                } else {
                    Ok(())
                }
            },
            None => Err(Error::NotMember),
        }
    }

    /// Whether `id` is bound in the registry to a record whose `exists`
    /// flag is set.
    pub open spec fn spec_member_flagged(self, id: Seq<char>) -> bool {
        match self.members.spec_get(id) {
            Some(m) => m.exists,
            None => false,
        }
    }

    /// The vote `member_id` cast on the proposal at `proposal_index`, or
    /// the null vote if they have not voted on it.
    pub fn get_member_proposal_vote(&self, member_id: AccountId, proposal_index: u64) -> (r: Result<
        Vote,
        Error,
    >)
        ensures
            match r {
                Ok(v) => {
                    &&& self.spec_member_flagged(member_id@)
                    &&& proposal_index < self.proposal_queue@.len()
                    &&& v == (match self.proposal_queue@[proposal_index as int].votes_by_member.spec_get(
                        member_id@,
                    ) {
                        Some(vote) => vote,
                        None => Vote::Null,
                    })
                },
                Err(e) => {
                    if !self.spec_member_flagged(member_id@) {
                        e == Error::MemberNotFound
                    } else {
                        &&& e == Error::ProposalNotFound
                        &&& proposal_index >= self.proposal_queue@.len()
                    }
                },
            },
    {
        let member_flagged = match self.members.get(&member_id) {
            Some(m) => m.exists,
            None => false,
        };
        if !member_flagged {
            return Err(Error::MemberNotFound);
        }
        if proposal_index >= self.proposal_queue.len() as u64 {
            return Err(Error::ProposalNotFound);
        }
        let i = proposal_index as usize;
        match self.proposal_queue[i].votes_by_member.get(&member_id) {
            Some(v) => Ok(*v),
            None => Ok(Vote::Null),
        }
    }

    /// The first reason a submission would be refused, if any: the caller
    /// must be a live delegate, the applicant well formed, the share
    /// counters must have room for the request, and the proposer's deposit
    /// and the applicant's tribute must already sit in escrow.
    pub open spec fn spec_submit_err(
        self,
        caller: Seq<char>,
        applicant: Seq<char>,
        token_tribute: u128,
        shares_requested: u128,
    ) -> Option<Error> {
        let mid = self.spec_delegate_target(caller);
        if !self.spec_delegate_ok(caller) {
            Some(Error::NotDelegate)
        } else if !spec_valid_account(applicant) {
            Some(Error::InvalidAccount)
        } else if self.total_shares + shares_requested > u128::MAX {
            Some(Error::TooManySharesRequested)
        } else if self.total_shares + shares_requested + self.total_shares_requested
            > u128::MAX {
            Some(Error::TooManySharesRequested)
        } else if self.escrow.spec_balance(mid) < self.proposal_deposit {
            Some(Error::InsufficientEscrowBalance)
        } else if (if mid == applicant {
            self.escrow.spec_balance(mid) - self.proposal_deposit
        } else {
            self.escrow.spec_balance(applicant) as int
        }) < token_tribute {
            Some(Error::InsufficientEscrowBalance)
        } else {
            None
        }
    }

    /// Submits a proposal on behalf of the member the caller delegates
    /// for: moves the proposal deposit and the applicant's tribute into
    /// the pending position, bumps the outstanding requested-share count,
    /// and appends the proposal with a starting period one past the later
    /// of the current period and the last queued proposal's.
    pub fn submit_proposal(
        &mut self,
        caller: &AccountId,
        applicant: AccountId,
        token_tribute: u128,
        shares_requested: u128,
        details: String,
        now: u64,
    ) -> (r: Result<(), Error>)
        ensures
            match r {
                Ok(_) => ({
                    let mid = old(self).spec_delegate_target(caller@);
                    let sp = old(self).spec_starting_period(now);
                    let q0 = old(self).proposal_queue@;
                    let q1 = final(self).proposal_queue@;
                    &&& old(self).spec_submit_err(
                        caller@,
                        applicant@,
                        token_tribute,
                        shares_requested,
                    ) is None
                    &&& q1.len() == q0.len() + 1
                    &&& forall|i: int| 0 <= i < q0.len() ==> q1[i] == q0[i]
                    &&& ({
                        let p = q1.last();
                        &&& p.proposer@ == mid
                        &&& p.applicant@ == applicant@
                        &&& p.shares_requested == shares_requested
                        &&& p.starting_period == sp
                        &&& p.yes_votes == 0
                        &&& p.no_votes == 0
                        &&& !p.processed
                        &&& !p.did_pass
                        &&& !p.aborted
                        &&& p.token_tribute == token_tribute
                        &&& p.details@ == details@
                        &&& p.max_total_shares_at_yes_vote == 0
                        &&& forall|k: Seq<char>| p.votes_by_member.spec_get(k) is None
                    })
                    &&& final(self).total_shares_requested == old(self).total_shares_requested
                        + shares_requested
                    &&& forall|k: Seq<char>|
                        #[trigger] final(self).escrow.spec_balance(k) == old(
                            self,
                        ).escrow.spec_balance(k) - (if k == mid {
                            old(self).proposal_deposit as int
                        } else {
                            0
                        }) - (if k == applicant@ {
                            token_tribute as int
                        } else {
                            0
                        })
                    &&& final(self).members == old(self).members
                    &&& final(self).members_by_delegate_key == old(self).members_by_delegate_key
                    &&& final(self).total_shares == old(self).total_shares
                    &&& final(self).bank == old(self).bank
                    &&& Self::same_config(*old(self), *final(self))
                    &&& (q0.len() > 0 ==> sp >= q0.last().starting_period)
                    &&& (old(self).spec_current_period(now) < u64::MAX ==> sp > old(
                        self,
                    ).spec_current_period(now))
                    &&& (old(self).wf() ==> final(self).wf())
                }),
                Err(e) => {
                    &&& Some(e) == old(self).spec_submit_err(
                        caller@,
                        applicant@,
                        token_tribute,
                        shares_requested,
                    )
                    &&& *final(self) == *old(self)
                },
            },
    {
        let member_id = match self.only_delegate(caller) {
            Ok(mid) => mid,
            Err(e) => {
                return Err(e);
            },
        };
        if !is_valid_account_id(applicant.as_str()) {
            return Err(Error::InvalidAccount);
        }
        let shares_with_request = match self.total_shares.checked_add(shares_requested) {
            Some(v) => v,
            None => {
                return Err(Error::TooManySharesRequested);
            },
        };
        if shares_with_request.checked_add(self.total_shares_requested).is_none() {
            return Err(Error::TooManySharesRequested);
        }

        // every debit is checked before either balance is touched, so a
        // refusal can never leave half of the funds collected
        let proposer_balance = self.escrow.user_balance(member_id.clone());
        if proposer_balance < self.proposal_deposit {
            return Err(Error::InsufficientEscrowBalance);
        }
        let applicant_balance = if member_id == applicant {
            proposer_balance - self.proposal_deposit
        } else {
            self.escrow.user_balance(applicant.clone())
        };
        if applicant_balance < token_tribute {
            return Err(Error::InsufficientEscrowBalance);
        }

        self.total_shares_requested = self.total_shares_requested.saturating_add(shares_requested);
        // both balances were checked above, so neither withdrawal can fail
        let _ = self.escrow.withdraw(member_id.clone(), self.proposal_deposit);
        let _ = self.escrow.withdraw(applicant.clone(), token_tribute);

        let mut period_based_on_queue: u64 = 0;
        let queue_len = self.proposal_queue.len();
        if queue_len != 0 {
            period_based_on_queue = self.proposal_queue[queue_len - 1].starting_period;
        }
        let current_period = self.get_current_period(now);
        let base = if current_period >= period_based_on_queue {
            current_period
        } else {
            period_based_on_queue
        };
        let starting_period = base.saturating_add(1);

        let proposal = Proposal {
            proposer: member_id,
            applicant,
            shares_requested,
            starting_period,
            yes_votes: 0,
            no_votes: 0,
            processed: false,
            did_pass: false,
            aborted: false,
            token_tribute,
            details,
            max_total_shares_at_yes_vote: 0,
            votes_by_member: KvList::new(),
        };
        proof {
            Self::lemma_tsr_push(old(self).proposal_queue@, proposal);
        }
        self.proposal_queue.push(proposal);
        Ok(())
    }

    /// The vote a wire code decodes to, on the codes the engine accepts.
    pub open spec fn spec_vote_of(value: u8) -> Vote {
        if value == 1 {
            Vote::Yes
        } else if value == 2 {
            Vote::No
        } else {
            Vote::Null
        }
    }

    /// The first reason a vote would be refused, if any.
    pub open spec fn spec_vote_err(
        self,
        caller: Seq<char>,
        proposal_index: u64,
        uint_vote: u8,
        now: u64,
    ) -> Option<Error> {
        let mid = self.spec_delegate_target(caller);
        if !self.spec_delegate_ok(caller) {
            Some(Error::NotDelegate)
        } else if self.members.spec_get(mid) is None {
            Some(Error::MemberNotFound)
        } else if proposal_index >= self.proposal_queue@.len() {
            Some(Error::ProposalNotFound)
        } else if !(1 <= uint_vote <= 3) {
            Some(Error::InvalidVoteCode)
        } else if self.spec_current_period(now) < self.proposal_queue@[
            proposal_index as int
        ].starting_period {
            Some(Error::VotingNotStarted)
        } else if self.spec_voting_period_expired(
            self.proposal_queue@[proposal_index as int].starting_period,
            now,
        ) {
            Some(Error::VotingExpired)
        } else if self.proposal_queue@[proposal_index as int].votes_by_member.spec_get(
            mid,
        ) is Some {
            Some(Error::AlreadyVoted)
        } else if self.proposal_queue@[proposal_index as int].aborted {
            Some(Error::ProposalAborted)
        } else {
            None
        }
    }

    /// Casts the caller's member's vote on a proposal inside its voting
    /// window. A yes vote adds the member's shares to the yes tally,
    /// raises the member's highest yes-voted index and the proposal's
    /// total-share watermark; a no vote adds to the no tally; an
    /// abstention is recorded without moving either tally.
    pub fn submit_vote(&mut self, caller: &AccountId, proposal_index: u64, uint_vote: u8, now: u64)
        -> (r: Result<(), Error>)
        ensures
            match r {
                Ok(_) => ({
                    let mid = old(self).spec_delegate_target(caller@);
                    let i = proposal_index as int;
                    let vote = Self::spec_vote_of(uint_vote);
                    let q0 = old(self).proposal_queue@;
                    let q1 = final(self).proposal_queue@;
                    let p0 = q0[i];
                    let p1 = q1[i];
                    &&& old(self).spec_vote_err(caller@, proposal_index, uint_vote, now) is None
                    &&& q1.len() == q0.len()
                    &&& forall|j: int| 0 <= j < q0.len() && j != i ==> q1[j] == q0[j]
                    &&& p1.votes_by_member.spec_get(mid) == Some(vote)
                    &&& forall|k: Seq<char>|
                        k != mid ==> #[trigger] p1.votes_by_member.spec_get(k)
                            == p0.votes_by_member.spec_get(k)
                    &&& (match old(self).members.spec_get(mid) {
                        Some(m0) => {
                            &&& (vote == Vote::Yes ==> {
                                &&& p1.yes_votes == sat_add_u128(p0.yes_votes, m0.shares)
                                &&& p1.no_votes == p0.no_votes
                                &&& p1.max_total_shares_at_yes_vote == (if old(self).total_shares
                                    > p0.max_total_shares_at_yes_vote {
                                    old(self).total_shares
                                } else {
                                    p0.max_total_shares_at_yes_vote
                                })
                            })
                            &&& (vote == Vote::No ==> {
                                &&& p1.no_votes == sat_add_u128(p0.no_votes, m0.shares)
                                &&& p1.yes_votes == p0.yes_votes
                                &&& p1.max_total_shares_at_yes_vote
                                    == p0.max_total_shares_at_yes_vote
                            })
                            &&& (vote == Vote::Null ==> {
                                &&& p1.yes_votes == p0.yes_votes
                                &&& p1.no_votes == p0.no_votes
                                &&& p1.max_total_shares_at_yes_vote
                                    == p0.max_total_shares_at_yes_vote
                            })
                            &&& (match final(self).members.spec_get(mid) {
                                Some(m1) => {
                                    &&& m1.delegate_key@ == m0.delegate_key@
                                    &&& m1.shares == m0.shares
                                    &&& m1.exists == m0.exists
                                    &&& m1.highest_index_yes_vote == (if vote == Vote::Yes
                                        && proposal_index > m0.highest_index_yes_vote {
                                        proposal_index
                                    } else {
                                        m0.highest_index_yes_vote
                                    })
                                },
                                None => false,
                            })
                        },
                        None => false,
                    })
                    &&& p1.proposer@ == p0.proposer@
                    &&& p1.applicant@ == p0.applicant@
                    &&& p1.shares_requested == p0.shares_requested
                    &&& p1.starting_period == p0.starting_period
                    &&& p1.processed == p0.processed
                    &&& p1.did_pass == p0.did_pass
                    &&& p1.aborted == p0.aborted
                    &&& p1.token_tribute == p0.token_tribute
                    &&& p1.details@ == p0.details@
                    &&& forall|k: Seq<char>|
                        k != mid ==> #[trigger] final(self).members.spec_get(k) == old(
                            self,
                        ).members.spec_get(k)
                    &&& final(self).members_by_delegate_key == old(self).members_by_delegate_key
                    &&& final(self).escrow == old(self).escrow
                    &&& final(self).bank == old(self).bank
                    &&& final(self).total_shares == old(self).total_shares
                    &&& final(self).total_shares_requested == old(self).total_shares_requested
                    &&& Self::same_config(*old(self), *final(self))
                    &&& (old(self).wf() ==> final(self).wf())
                }),
                Err(e) => {
                    &&& Some(e) == old(self).spec_vote_err(caller@, proposal_index, uint_vote, now)
                    &&& *final(self) == *old(self)
                },
            },
    {
        let member_id = match self.only_delegate(caller) {
            Ok(mid) => mid,
            Err(e) => {
                return Err(e);
            },
        };
        let member = match self.members.get(&member_id) {
            Some(m) => m.clone(),
            None => {
                return Err(Error::MemberNotFound);
            },
        };
        if proposal_index >= self.proposal_queue.len() as u64 {
            return Err(Error::ProposalNotFound);
        }
        let i = proposal_index as usize;
        let vote = match Vote::from_u8(uint_vote) {
            Ok(v) => v,
            Err(e) => {
                return Err(e);
            },
        };
        let current_period = self.get_current_period(now);
        let starting_period = self.proposal_queue[i].starting_period;
        if current_period < starting_period {
            return Err(Error::VotingNotStarted);
        }
        if self.has_voting_period_expired(starting_period, now) {
            return Err(Error::VotingExpired);
        }
        if self.proposal_queue[i].votes_by_member.get(&member_id).is_some() {
            return Err(Error::AlreadyVoted);
        }
        if self.proposal_queue[i].aborted {
            return Err(Error::ProposalAborted);
        }

        let total_shares = self.total_shares;
        let ghost q0 = self.proposal_queue@;
        let p = &mut self.proposal_queue[i];
        p.votes_by_member.set(&member_id, vote);
        let mut new_highest = member.highest_index_yes_vote;
        match vote {
            Vote::Yes => {
                p.yes_votes = p.yes_votes.saturating_add(member.shares);
                if proposal_index > member.highest_index_yes_vote {
                    new_highest = proposal_index;
                }
                if total_shares > p.max_total_shares_at_yes_vote {
                    p.max_total_shares_at_yes_vote = total_shares;
                }
            },
            Vote::No => {
                p.no_votes = p.no_votes.saturating_add(member.shares);
            },
            Vote::Null => {},
        }
        proof {
            Self::lemma_tsr_update(q0, i as int, self.proposal_queue@[i as int]);
        }
        self.members.set(
            &member_id,
            Member {
                delegate_key: member.delegate_key,
                shares: member.shares,
                exists: member.exists,
                highest_index_yes_vote: new_highest,
            },
        );
        Ok(())
    }

    /// The dilution ceiling at processing time: the outstanding
    /// requested-share count after this proposal, times the dilution
    /// bound, clamped to the machine maximum.
    pub open spec fn spec_dilution_ceiling(tsr_after: u128, dilution_bound: u128) -> int {
        if tsr_after * dilution_bound > u128::MAX {
            u128::MAX as int
        } else {
            tsr_after * dilution_bound
        }
    }

    /// Whether a proposal passes at processing time: more yes shares than
    /// no shares, and the dilution ceiling must not exceed the total-share
    /// watermark recorded at the yes votes.
    pub open spec fn spec_passes(p: Proposal, tsr_after: u128, dilution_bound: u128) -> bool {
        &&& p.yes_votes > p.no_votes
        &&& !(Self::spec_dilution_ceiling(tsr_after, dilution_bound)
            > p.max_total_shares_at_yes_vote)
    }

    /// Whether processing the proposal at `i` grants the requested shares:
    /// it passes and was not aborted.
    pub open spec fn spec_grants(self, i: int) -> bool {
        let p = self.proposal_queue@[i];
        &&& Self::spec_passes(
            p,
            sat_sub_u128(self.total_shares_requested, p.shares_requested),
            self.dilution_bound,
        )
        &&& !p.aborted
    }

    /// The first reason processing would be refused, if any: the proposal
    /// must exist, its grace period must have elapsed, it must not have
    /// been processed, every earlier proposal must have been, and each
    /// balance this call credits must have room.
    pub open spec fn spec_process_err(self, proposal_index: u64, now: u64) -> Option<Error> {
        let i = proposal_index as int;
        let q = self.proposal_queue@;
        if proposal_index >= q.len() {
            Some(Error::ProposalNotFound)
        } else if self.spec_current_period(now) < sat_add_u64(
            sat_add_u64(q[i].starting_period, self.voting_period_length),
            self.grace_period_length,
        ) {
            Some(Error::NotReadyToProcess)
        } else if q[i].processed {
            Some(Error::AlreadyProcessed)
        } else if proposal_index != 0 && !q[i - 1].processed {
            Some(Error::PreviousNotProcessed)
        } else {
            let p = q[i];
            let granted = self.spec_grants(i);
            let rebate = sat_sub_u128(self.proposal_deposit, self.processing_reward);
            let applicant_credit: int = if !granted {
                p.token_tribute as int
            } else {
                0
            };
            let proposer_mid = self.escrow.spec_balance(p.proposer@) + (if p.proposer@
                == p.applicant@ {
                applicant_credit
            } else {
                0
            });
            if granted && self.bank.balance + p.token_tribute > u128::MAX {
                Some(Error::ArithmeticOverflow)
            } else if !granted && self.escrow.spec_balance(p.applicant@) + p.token_tribute
                > u128::MAX {
                Some(Error::ArithmeticOverflow)
            } else if proposer_mid + rebate > u128::MAX {
                Some(Error::ArithmeticOverflow)
            } else {
                None
            }
        }
    }

    /// Processes the proposal at `proposal_index` once its grace period has
    /// elapsed and every earlier proposal has been processed. Exactly once
    /// per proposal, the outstanding requested-share count drops by its
    /// request. If it passes and was not aborted, the applicant is granted
    /// the requested shares (created as a member if need be, reclaiming
    /// their identity from any member using it as a delegate key), total
    /// shares grow by the request and the tribute moves into the treasury;
    /// otherwise the tribute is returned to the applicant's escrow. Either
    /// way the proposer is credited the deposit minus the processing
    /// reward, and the caller is owed the processing reward.
    pub fn process_proposal(&mut self, caller: &AccountId, proposal_index: u64, now: u64) -> (r:
        Result<TransferRequest, Error>)
        ensures
            match r {
                Ok(t) => ({
                    let i = proposal_index as int;
                    let q0 = old(self).proposal_queue@;
                    let q1 = final(self).proposal_queue@;
                    let p0 = q0[i];
                    let p1 = q1[i];
                    let tsr_after = sat_sub_u128(
                        old(self).total_shares_requested,
                        p0.shares_requested,
                    );
                    let granted = old(self).spec_grants(i);
                    let rebate = sat_sub_u128(
                        old(self).proposal_deposit,
                        old(self).processing_reward,
                    );
                    &&& old(self).spec_process_err(proposal_index, now) is None
                    &&& !p0.processed
                    &&& (old(self).wf() ==> forall|j: int|
                        0 <= j < i ==> #[trigger] q0[j].processed)
                    &&& q1.len() == q0.len()
                    &&& forall|j: int| 0 <= j < q0.len() && j != i ==> q1[j] == q0[j]
                    &&& p1.processed
                    &&& p1.did_pass == granted
                    &&& p1.proposer@ == p0.proposer@
                    &&& p1.applicant@ == p0.applicant@
                    &&& p1.shares_requested == p0.shares_requested
                    &&& p1.starting_period == p0.starting_period
                    &&& p1.yes_votes == p0.yes_votes
                    &&& p1.no_votes == p0.no_votes
                    &&& p1.aborted == p0.aborted
                    &&& p1.token_tribute == p0.token_tribute
                    &&& p1.details@ == p0.details@
                    &&& p1.max_total_shares_at_yes_vote == p0.max_total_shares_at_yes_vote
                    &&& p1.votes_by_member == p0.votes_by_member
                    &&& final(self).total_shares_requested == tsr_after
                    &&& (old(self).wf() ==> final(self).total_shares_requested == old(
                        self,
                    ).total_shares_requested - p0.shares_requested)
                    &&& final(self).total_shares == (if granted {
                        sat_add_u128(old(self).total_shares, p0.shares_requested)
                    } else {
                        old(self).total_shares
                    })
                    &&& (old(self).wf() && granted ==> final(self).total_shares == old(
                        self,
                    ).total_shares + p0.shares_requested)
                    &&& final(self).bank.balance == (if granted {
                        old(self).bank.balance + p0.token_tribute
                    } else {
                        old(self).bank.balance as int
                    })
                    &&& final(self).bank.token_id@ == old(self).bank.token_id@
                    &&& forall|k: Seq<char>|
                        #[trigger] final(self).escrow.spec_balance(k) == old(
                            self,
                        ).escrow.spec_balance(k) + (if !granted && k == p0.applicant@ {
                            p0.token_tribute as int
                        } else {
                            0
                        }) + (if k == p0.proposer@ {
                            rebate as int
                        } else {
                            0
                        })
                    &&& (if !granted {
                        &&& final(self).members == old(self).members
                        &&& final(self).members_by_delegate_key == old(
                            self,
                        ).members_by_delegate_key
                    } else {
                        match old(self).members.spec_get(p0.applicant@) {
                            Some(m0) => {
                                &&& (match final(self).members.spec_get(p0.applicant@) {
                                    Some(m1) => {
                                        &&& m1.delegate_key@ == m0.delegate_key@
                                        &&& m1.shares == sat_add_u128(
                                            m0.shares,
                                            p0.shares_requested,
                                        )
                                        &&& m1.exists == m0.exists
                                        &&& m1.highest_index_yes_vote
                                            == m0.highest_index_yes_vote
                                    },
                                    None => false,
                                })
                                &&& forall|k: Seq<char>|
                                    k != p0.applicant@
                                        ==> #[trigger] final(self).members.spec_get(k) == old(
                                        self,
                                    ).members.spec_get(k)
                                &&& final(self).members_by_delegate_key == old(
                                    self,
                                ).members_by_delegate_key
                            },
                            None => ({
                                let reclaimed = match old(
                                    self,
                                ).members_by_delegate_key.spec_get(p0.applicant@) {
                                    Some(d) => old(self).members.spec_get(d@) is Some,
                                    None => false,
                                };
                                let d = old(self).spec_delegate_target(p0.applicant@);
                                &&& (match final(self).members.spec_get(p0.applicant@) {
                                    Some(m1) => {
                                        &&& m1.delegate_key@ == p0.applicant@
                                        &&& m1.shares == p0.shares_requested
                                        &&& m1.exists
                                        &&& m1.highest_index_yes_vote == 0
                                    },
                                    None => false,
                                })
                                &&& (reclaimed ==> (match final(self).members.spec_get(d) {
                                    Some(m1) => (match old(self).members.spec_get(d) {
                                        Some(m0) => {
                                            &&& m1.delegate_key@ == d
                                            &&& m1.shares == m0.shares
                                            &&& m1.exists == m0.exists
                                            &&& m1.highest_index_yes_vote
                                                == m0.highest_index_yes_vote
                                        },
                                        None => false,
                                    }),
                                    None => false,
                                }))
                                &&& forall|k: Seq<char>|
                                    k != p0.applicant@ && !(reclaimed && k == d)
                                        ==> #[trigger] final(self).members.spec_get(k) == old(
                                        self,
                                    ).members.spec_get(k)
                                &&& (match final(self).members_by_delegate_key.spec_get(
                                    p0.applicant@,
                                ) {
                                    Some(v) => v@ == p0.applicant@,
                                    None => false,
                                })
                                &&& (reclaimed
                                    ==> (match final(self).members_by_delegate_key.spec_get(d) {
                                    Some(v) => v@ == d,
                                    None => false,
                                }))
                                &&& forall|k: Seq<char>|
                                    k != p0.applicant@ && !(reclaimed && k == d)
                                        ==> #[trigger] final(self).members_by_delegate_key.spec_get(
                                        k,
                                    ) == old(self).members_by_delegate_key.spec_get(k)
                            }),
                        }
                    })
                    &&& t.amount == old(self).processing_reward
                    &&& t.to@ == caller@
                    &&& t.token_id@ == old(self).token_id@
                    &&& Self::same_config(*old(self), *final(self))
                    &&& (old(self).wf() ==> final(self).wf())
                }),
                Err(e) => {
                    &&& Some(e) == old(self).spec_process_err(proposal_index, now)
                    &&& *final(self) == *old(self)
                },
            },
    {
        if proposal_index >= self.proposal_queue.len() as u64 {
            return Err(Error::ProposalNotFound);
        }
        let i = proposal_index as usize;
        let ready_at = self.proposal_queue[i].starting_period.saturating_add(
            self.voting_period_length,
        ).saturating_add(self.grace_period_length);
        if self.get_current_period(now) < ready_at {
            return Err(Error::NotReadyToProcess);
        }
        if self.proposal_queue[i].processed {
            return Err(Error::AlreadyProcessed);
        }
        if proposal_index != 0 {
            if !self.proposal_queue[i - 1].processed {
                return Err(Error::PreviousNotProcessed);
            }
        }
        proof {
            if self.wf() && i > 0 {
                assert forall|j: int| 0 <= j < i as int implies #[trigger] self.proposal_queue@[
                    j
                ].processed by {
                    Self::lemma_processed_prefix(*self, i as int - 1, j);
                }
            }
        }

        let shares_requested = self.proposal_queue[i].shares_requested;
        let token_tribute = self.proposal_queue[i].token_tribute;
        let applicant = self.proposal_queue[i].applicant.clone();
        let proposer = self.proposal_queue[i].proposer.clone();

        let tsr_after = self.total_shares_requested.saturating_sub(shares_requested);
        let mut passed = self.proposal_queue[i].yes_votes > self.proposal_queue[i].no_votes;
        let max_total_shares = match tsr_after.checked_mul(self.dilution_bound) {
            Some(v) => v,
            None => u128::MAX,
        };
        if max_total_shares > self.proposal_queue[i].max_total_shares_at_yes_vote {
            passed = false;
        }
        let granted = passed && !self.proposal_queue[i].aborted;

        // every credit this call will make is checked before any state
        // changes, so a refusal can never commit half of the step
        let rebate = self.proposal_deposit.saturating_sub(self.processing_reward);
        if granted {
            if self.bank.balance.checked_add(token_tribute).is_none() {
                return Err(Error::ArithmeticOverflow);
            }
        } else {
            if self.escrow.user_balance(applicant.clone()).checked_add(token_tribute).is_none() {
                return Err(Error::ArithmeticOverflow);
            }
        }
        let proposer_balance = self.escrow.user_balance(proposer.clone());
        let proposer_mid = if !granted && proposer == applicant {
            proposer_balance.saturating_add(token_tribute)
        } else {
            proposer_balance
        };
        if proposer_mid.checked_add(rebate).is_none() {
            return Err(Error::ArithmeticOverflow);
        }

        let ghost q0 = self.proposal_queue@;
        {
            let p = &mut self.proposal_queue[i];
            p.processed = true;
            p.did_pass = granted;
        }
        proof {
            Self::lemma_tsr_update(q0, i as int, self.proposal_queue@[i as int]);
            Self::lemma_tsr_lower(q0, i as int);
        }
        self.total_shares_requested = tsr_after;

        if granted {
            let existing = match self.members.get(&applicant) {
                Some(m) => Some(m.clone()),
                None => None,
            };
            match existing {
                Some(m0) => {
                    self.members.set(
                        &applicant,
                        Member {
                            delegate_key: m0.delegate_key,
                            shares: m0.shares.saturating_add(shares_requested),
                            exists: m0.exists,
                            highest_index_yes_vote: m0.highest_index_yes_vote,
                        },
                    );
                },
                None => {
                    // if the applicant identity is in use as another
                    // member's delegate key, hand that member their own
                    // identity back before creating the applicant
                    let delegate_target = match self.members_by_delegate_key.get(&applicant) {
                        Some(d) => Some(d.clone()),
                        None => None,
                    };
                    if let Some(d) = delegate_target {
                        let displaced = match self.members.get(&d) {
                            Some(m) => Some(m.clone()),
                            None => None,
                        };
                        if let Some(m) = displaced {
                            self.members_by_delegate_key.set(&d, d.clone());
                            self.members.set(
                                &d,
                                Member {
                                    delegate_key: d.clone(),
                                    shares: m.shares,
                                    exists: m.exists,
                                    highest_index_yes_vote: m.highest_index_yes_vote,
                                },
                            );
                        }
                    }
                    self.members.set(
                        &applicant,
                        Member {
                            delegate_key: applicant.clone(),
                            shares: shares_requested,
                            exists: true,
                            highest_index_yes_vote: 0,
                        },
                    );
                    self.members_by_delegate_key.set(&applicant, applicant.clone());
                },
            }
            self.total_shares = self.total_shares.saturating_add(shares_requested);
            // room for every credit was checked above, so none can fail
            let _ = self.bank.deposit(token_tribute);
        } else {
            let _ = self.escrow.deposit(applicant.clone(), token_tribute);
        }
        let _ = self.escrow.deposit(proposer.clone(), rebate);

        Ok(
            TransferRequest {
                token_id: self.token_id.clone(),
                to: caller.clone(),
                amount: self.processing_reward,
            },
        )
    }

    /// The first reason a ragequit would be refused, if any. A burn larger
    /// than the total share supply is refused as an insufficient-shares
    /// error; it can only arise in states the engine itself never
    /// produces.
    pub open spec fn spec_rage_quit_err(self, caller: Seq<char>, shares_to_burn: u128) -> Option<
        Error,
    > {
        if !self.spec_is_member(caller) {
            Some(Error::NotMember)
        } else {
            match self.members.spec_get(caller) {
                Some(m) => {
                    if m.shares < shares_to_burn {
                        Some(Error::InsufficientShares)
                    } else if m.highest_index_yes_vote >= self.proposal_queue@.len() {
                        Some(Error::ProposalNotFound)
                    } else if !self.proposal_queue@[m.highest_index_yes_vote as int].processed {
                        Some(Error::CannotRageQuitPendingVote)
                    } else if self.total_shares == 0 {
                        Some(Error::DivisionByZero)
                    } else if shares_to_burn > self.total_shares {
                        Some(Error::InsufficientShares)
                    } else {
                        None
                    }
                },
                None => Some(Error::NotMember),
            }
        }
    }

    /// Burns `shares_to_burn` of the caller's shares in exchange for a
    /// proportional payout from the treasury, using the pre-burn total
    /// share count as the denominator. Refused while the highest proposal
    /// the member voted yes on is still unprocessed.
    pub fn rage_quit(&mut self, caller: &AccountId, shares_to_burn: u128) -> (r: Result<
        TransferRequest,
        Error,
    >)
        ensures
            match r {
                Ok(t) => ({
                    let payout = GuildBank::spec_payout(
                        old(self).bank.balance,
                        shares_to_burn,
                        old(self).total_shares,
                    );
                    &&& old(self).spec_rage_quit_err(caller@, shares_to_burn) is None
                    &&& (match (old(self).members.spec_get(caller@), final(self).members.spec_get(
                        caller@,
                    )) {
                        (Some(m0), Some(m1)) => {
                            &&& m1.delegate_key@ == m0.delegate_key@
                            &&& m1.shares == m0.shares - shares_to_burn
                            &&& m1.exists == m0.exists
                            &&& m1.highest_index_yes_vote == m0.highest_index_yes_vote
                        },
                        _ => false,
                    })
                    &&& forall|k: Seq<char>|
                        k != caller@ ==> #[trigger] final(self).members.spec_get(k) == old(
                            self,
                        ).members.spec_get(k)
                    &&& final(self).total_shares == old(self).total_shares - shares_to_burn
                    &&& final(self).bank.balance == old(self).bank.balance - payout
                    &&& final(self).bank.token_id@ == old(self).bank.token_id@
                    &&& t.amount == payout
                    &&& t.to@ == caller@
                    &&& t.token_id@ == old(self).bank.token_id@
                    &&& final(self).members_by_delegate_key == old(self).members_by_delegate_key
                    &&& final(self).escrow == old(self).escrow
                    &&& final(self).proposal_queue == old(self).proposal_queue
                    &&& final(self).total_shares_requested == old(self).total_shares_requested
                    &&& Self::same_config(*old(self), *final(self))
                    &&& (old(self).wf() ==> final(self).wf())
                }),
                Err(e) => {
                    &&& Some(e) == old(self).spec_rage_quit_err(caller@, shares_to_burn)
                    &&& *final(self) == *old(self)
                },
            },
    {
        match self.only_member(caller) {
            Ok(_) => (),
            Err(e) => {
                return Err(e);
            },
        };
        let member = match self.members.get(caller) {
            Some(m) => m.clone(),
            None => {
                return Err(Error::NotMember);
            },
        };
        if member.shares < shares_to_burn {
            return Err(Error::InsufficientShares);
        }
        let can = match self.can_rage_quit(member.highest_index_yes_vote) {
            Ok(b) => b,
            Err(e) => {
                return Err(e);
            },
        };
        if !can {
            return Err(Error::CannotRageQuitPendingVote);
        }
        if self.total_shares == 0 {
            return Err(Error::DivisionByZero);
        }
        if shares_to_burn > self.total_shares {
            return Err(Error::InsufficientShares);
        }
        let initial_total_shares = self.total_shares;
        self.members.set(
            caller,
            Member {
                delegate_key: member.delegate_key,
                shares: member.shares - shares_to_burn,
                exists: member.exists,
                highest_index_yes_vote: member.highest_index_yes_vote,
            },
        );
        self.total_shares = self.total_shares - shares_to_burn;
        match self.bank.withdraw(caller.clone(), shares_to_burn, initial_total_shares) {
            Ok(t) => Ok(t),
            Err(e) => Err(e),
        }
    }

    /// The first reason an abort would be refused, if any.
    pub open spec fn spec_abort_err(self, caller: Seq<char>, proposal_index: u64, now: u64)
        -> Option<Error> {
        let i = proposal_index as int;
        let q = self.proposal_queue@;
        if proposal_index >= q.len() {
            Some(Error::ProposalNotFound)
        } else if caller != q[i].applicant@ {
            Some(Error::NotApplicant)
        } else if self.spec_current_period(now) >= sat_add_u64(
            q[i].starting_period,
            self.abort_window,
        ) {
            Some(Error::AbortWindowClosed)
        } else if q[i].aborted {
            Some(Error::AlreadyAborted)
        } else if self.escrow.spec_balance(q[i].proposer@) + self.processing_reward > u128::MAX {
            Some(Error::ArithmeticOverflow)
        } else {
            None
        }
    }

    /// Aborts a proposal: only its applicant may call this, and only while
    /// the abort window is open. The tribute is forfeited (zeroed) and the
    /// processing reward's worth of the deposit is returned to the
    /// proposer's escrow.
    pub fn abort(&mut self, caller: &AccountId, proposal_index: u64, now: u64) -> (r: Result<
        (),
        Error,
    >)
        ensures
            match r {
                Ok(_) => ({
                    let i = proposal_index as int;
                    let q0 = old(self).proposal_queue@;
                    let q1 = final(self).proposal_queue@;
                    let p0 = q0[i];
                    let p1 = q1[i];
                    &&& old(self).spec_abort_err(caller@, proposal_index, now) is None
                    &&& q1.len() == q0.len()
                    &&& forall|j: int| 0 <= j < q0.len() && j != i ==> q1[j] == q0[j]
                    &&& p1.aborted
                    &&& p1.token_tribute == 0
                    &&& p1.proposer@ == p0.proposer@
                    &&& p1.applicant@ == p0.applicant@
                    &&& p1.shares_requested == p0.shares_requested
                    &&& p1.starting_period == p0.starting_period
                    &&& p1.yes_votes == p0.yes_votes
                    &&& p1.no_votes == p0.no_votes
                    &&& p1.processed == p0.processed
                    &&& p1.did_pass == p0.did_pass
                    &&& p1.details@ == p0.details@
                    &&& p1.max_total_shares_at_yes_vote == p0.max_total_shares_at_yes_vote
                    &&& p1.votes_by_member == p0.votes_by_member
                    &&& forall|k: Seq<char>|
                        #[trigger] final(self).escrow.spec_balance(k) == old(
                            self,
                        ).escrow.spec_balance(k) + (if k == p0.proposer@ {
                            old(self).processing_reward as int
                        } else {
                            0
                        })
                    &&& final(self).members == old(self).members
                    &&& final(self).members_by_delegate_key == old(self).members_by_delegate_key
                    &&& final(self).bank == old(self).bank
                    &&& final(self).total_shares == old(self).total_shares
                    &&& final(self).total_shares_requested == old(self).total_shares_requested
                    &&& Self::same_config(*old(self), *final(self))
                    &&& (old(self).wf() ==> final(self).wf())
                }),
                Err(e) => {
                    &&& Some(e) == old(self).spec_abort_err(caller@, proposal_index, now)
                    &&& *final(self) == *old(self)
                },
            },
    {
        if proposal_index >= self.proposal_queue.len() as u64 {
            return Err(Error::ProposalNotFound);
        }
        let i = proposal_index as usize;
        if !(*caller == self.proposal_queue[i].applicant) {
            return Err(Error::NotApplicant);
        }
        let window_end = self.proposal_queue[i].starting_period.saturating_add(self.abort_window);
        if self.get_current_period(now) >= window_end {
            return Err(Error::AbortWindowClosed);
        }
        if self.proposal_queue[i].aborted {
            return Err(Error::AlreadyAborted);
        }
        let proposer = self.proposal_queue[i].proposer.clone();
        if self.escrow.user_balance(proposer.clone()).checked_add(self.processing_reward).is_none()
        {
            return Err(Error::ArithmeticOverflow);
        }

        let ghost q0 = self.proposal_queue@;
        {
            let p = &mut self.proposal_queue[i];
            p.aborted = true;
            p.token_tribute = 0;
        }
        proof {
            Self::lemma_tsr_update(q0, i as int, self.proposal_queue@[i as int]);
        }
        // room for the refund was checked above, so it cannot fail
        let _ = self.escrow.deposit(proposer, self.processing_reward);
        Ok(())
    }

    /// The first reason a delegate-key update would be refused, if any.
    pub open spec fn spec_update_delegate_err(self, caller: Seq<char>, new_key: Seq<char>)
        -> Option<Error> {
        if !self.spec_is_member(caller) {
            Some(Error::NotMember)
        } else if !spec_valid_account(new_key) {
            Some(Error::InvalidAccount)
        } else if caller != new_key && (match self.members.spec_get(new_key) {
            Some(m) => m.exists,
            None => false,
        }) {
            Some(Error::CannotOverwriteMember)
        } else if caller != new_key && (match self.members.spec_get(
            self.spec_delegate_target(new_key),
        ) {
            Some(m) => m.exists,
            None => false,
        }) {
            Some(Error::CannotOverwriteDelegate)
        } else {
            None
        }
    }

    /// Points the caller's membership at a new delegate key: the old key's
    /// index entry is cleared to the empty tombstone, the new key is bound
    /// to the caller, and the member record is updated. A key in use as
    /// another member's identity or delegate key is refused.
    pub fn update_delegate_key(&mut self, caller: &AccountId, new_delegate_key: AccountId) -> (r:
        Result<(), Error>)
        ensures
            match r {
                Ok(_) => ({
                    &&& old(self).spec_update_delegate_err(caller@, new_delegate_key@) is None
                    &&& (match (old(self).members.spec_get(caller@), final(self).members.spec_get(
                        caller@,
                    )) {
                        (Some(m0), Some(m1)) => {
                            &&& m1.delegate_key@ == new_delegate_key@
                            &&& m1.shares == m0.shares
                            &&& m1.exists == m0.exists
                            &&& m1.highest_index_yes_vote == m0.highest_index_yes_vote
                            &&& (match final(self).members_by_delegate_key.spec_get(
                                new_delegate_key@,
                            ) {
                                Some(v) => v@ == caller@,
                                None => false,
                            })
                            &&& (m0.delegate_key@ != new_delegate_key@
                                ==> (match final(self).members_by_delegate_key.spec_get(
                                m0.delegate_key@,
                            ) {
                                Some(v) => v@.len() == 0,
                                None => false,
                            }))
                            &&& forall|k: Seq<char>|
                                k != new_delegate_key@ && k != m0.delegate_key@
                                    ==> #[trigger] final(self).members_by_delegate_key.spec_get(
                                    k,
                                ) == old(self).members_by_delegate_key.spec_get(k)
                        },
                        _ => false,
                    })
                    &&& forall|k: Seq<char>|
                        k != caller@ ==> #[trigger] final(self).members.spec_get(k) == old(
                            self,
                        ).members.spec_get(k)
                    &&& final(self).escrow == old(self).escrow
                    &&& final(self).bank == old(self).bank
                    &&& final(self).proposal_queue == old(self).proposal_queue
                    &&& final(self).total_shares == old(self).total_shares
                    &&& final(self).total_shares_requested == old(self).total_shares_requested
                    &&& Self::same_config(*old(self), *final(self))
                    &&& (old(self).wf() ==> final(self).wf())
                }),
                Err(e) => {
                    &&& Some(e) == old(self).spec_update_delegate_err(caller@, new_delegate_key@)
                    &&& *final(self) == *old(self)
                },
            },
    {
        match self.only_member(caller) {
            Ok(_) => (),
            Err(e) => {
                return Err(e);
            },
        };
        if !is_valid_account_id(new_delegate_key.as_str()) {
            return Err(Error::InvalidAccount);
        }
        if !(*caller == new_delegate_key) {
            let member_exists = match self.members.get(&new_delegate_key) {
                Some(m) => m.exists,
                None => false,
            };
            if member_exists {
                return Err(Error::CannotOverwriteMember);
            }
            let target = match self.members_by_delegate_key.get(&new_delegate_key) {
                Some(d) => d.clone(),
                None => String::new(),
            };
            let delegate_exists = match self.members.get(&target) {
                Some(m) => m.exists,
                None => false,
            };
            if delegate_exists {
                return Err(Error::CannotOverwriteDelegate);
            }
        }
        let member = match self.members.get(caller) {
            Some(m) => m.clone(),
            None => {
                return Err(Error::NotMember);
            },
        };
        self.members_by_delegate_key.set(&member.delegate_key, String::new());
        self.members_by_delegate_key.set(&new_delegate_key, caller.clone());
        self.members.set(
            caller,
            Member {
                delegate_key: new_delegate_key,
                shares: member.shares,
                exists: member.exists,
                highest_index_yes_vote: member.highest_index_yes_vote,
            },
        );
        Ok(())
    }

    /// Handles a deposit notification from the token contract `token_id`:
    /// a deposit in the approved token is credited to the sender's escrow
    /// and nothing is refunded; a deposit in any other token is refunded
    /// in full. The returned value is the amount to send back.
    pub fn ft_on_transfer(&mut self, token_id: AccountId, sender_id: AccountId, amount: u128) -> (r:
        Result<u128, Error>)
        ensures
            match r {
                Ok(refund) => {
                    if token_id@ == old(self).token_id@ {
                        &&& refund == 0
                        &&& ProposalEscrow::spec_deposit_rel(
                            old(self).escrow,
                            final(self).escrow,
                            sender_id@,
                            amount,
                        )
                        &&& final(self).members == old(self).members
                        &&& final(self).members_by_delegate_key == old(
                            self,
                        ).members_by_delegate_key
                        &&& final(self).proposal_queue == old(self).proposal_queue
                        &&& final(self).bank == old(self).bank
                        &&& final(self).total_shares == old(self).total_shares
                        &&& final(self).total_shares_requested == old(self).total_shares_requested
                        &&& Self::same_config(*old(self), *final(self))
                    } else {
                        &&& refund == amount
                        &&& *final(self) == *old(self)
                    }
                },
                Err(e) => {
                    &&& e == Error::ArithmeticOverflow
                    &&& token_id@ == old(self).token_id@
                    &&& old(self).escrow.spec_balance(sender_id@) + amount > u128::MAX
                    &&& *final(self) == *old(self)
                },
            },
    {
        if token_id == self.token_id {
            match self.escrow.deposit(sender_id, amount) {
                Ok(_) => Ok(0),
                Err(e) => Err(e),
            }
        } else {
            Ok(amount)
        }
    }
}

} // verus!

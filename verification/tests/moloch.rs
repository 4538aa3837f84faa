use moloch::engine::Moloch;
use moloch::error::Error;
use moloch::kv::KvList;
use moloch::types::{Member, Proposal, Vote};

const PERIOD: u64 = 1000000000;

fn bob() -> String {
    "bob.near".to_string()
}

fn robert() -> String {
    "robert.testnet".to_string()
}

fn alice() -> String {
    "alice.testnet".to_string()
}

fn fdai() -> String {
    "fdai.testnet".to_string()
}

/// A DAO summoned by bob at time 0 with the reference test parameters.
fn mock_moloch() -> Moloch {
    Moloch::new(bob(), fdai(), PERIOD, 3, 2, 1, 100, 10, 10, 0).unwrap()
}

fn mock_member(delegate_key: String, shares: u128) -> Member {
    Member {
        delegate_key,
        shares,
        exists: true,
        highest_index_yes_vote: 0,
    }
}

fn mock_proposal(applicant: String) -> Proposal {
    Proposal {
        proposer: bob(),
        applicant,
        shares_requested: 10,
        starting_period: 1,
        yes_votes: 0,
        no_votes: 0,
        processed: false,
        did_pass: false,
        aborted: false,
        token_tribute: 12,
        details: String::new(),
        max_total_shares_at_yes_vote: 0,
        votes_by_member: KvList::new(),
    }
}

fn yes_vote(p: &mut Proposal, member: &Member) {
    p.yes_votes += member.shares;
    p.votes_by_member.set(&member.delegate_key, Vote::Yes);
}

fn no_vote(p: &mut Proposal, member: &Member) {
    p.no_votes += member.shares;
    p.votes_by_member.set(&member.delegate_key, Vote::No);
}

fn add_proposal(contract: &mut Moloch, p: Proposal) {
    contract.total_shares_requested += p.shares_requested;
    contract.proposal_queue.push(p);
}

fn add_member(contract: &mut Moloch, m: Member) {
    let key = m.delegate_key.clone();
    contract.members_by_delegate_key.set(&key, key.clone());
    contract.total_shares += m.shares;
    contract.members.set(&key, m);
}

fn add_escrow_deposit(contract: &mut Moloch, sender: String, amount: u128) {
    contract.escrow.deposit(sender, amount).unwrap();
}

#[test]
fn lib_submit_proposal() {
    let mut contract = mock_moloch();
    add_escrow_deposit(&mut contract, robert(), 13);
    add_escrow_deposit(&mut contract, bob(), 101);
    contract
        .submit_proposal(&bob(), robert(), 12, 10, String::new(), 0)
        .unwrap();

    let proposal = &contract.proposal_queue[0];
    assert_eq!(proposal.proposer, bob());
    assert_eq!(proposal.applicant, robert());
    assert_eq!(proposal.shares_requested, 10);
    assert_eq!(proposal.starting_period, 1);
    assert_eq!(proposal.yes_votes, 0);
    assert_eq!(proposal.no_votes, 0);
    assert_eq!(proposal.processed, false);
    assert_eq!(proposal.did_pass, false);
    assert_eq!(proposal.aborted, false);
    assert_eq!(proposal.token_tribute, 12);
    assert_eq!(proposal.details, "".to_string());
    assert_eq!(proposal.max_total_shares_at_yes_vote, 0);
    assert!(proposal.votes_by_member.get(&bob()).is_none());
    assert_eq!(contract.total_shares_requested, 10);
    assert_eq!(contract.get_escrow_user_balance(bob()), 1);
    assert_eq!(contract.get_escrow_user_balance(robert()), 1);
}

#[test]
fn lib_submit_proposal_multiple_proposals() {
    let mut contract = mock_moloch();
    add_escrow_deposit(&mut contract, bob(), 200);
    add_escrow_deposit(&mut contract, robert(), 32);
    contract
        .submit_proposal(&bob(), robert(), 12, 10, String::new(), 0)
        .unwrap();
    contract
        .submit_proposal(&bob(), robert(), 20, 20, String::new(), 0)
        .unwrap();

    let proposal = &contract.proposal_queue[1];
    assert_eq!(proposal.proposer, bob());
    assert_eq!(proposal.applicant, robert());
    assert_eq!(proposal.shares_requested, 20);
    assert_eq!(proposal.starting_period, 2);
    assert_eq!(proposal.token_tribute, 20);
    assert_eq!(contract.total_shares_requested, 30);
}

#[test]
fn submit_proposal_invalid_account_fails() {
    let mut contract = mock_moloch();
    let result = contract.submit_proposal(&bob(), "".to_string(), 10, 10, String::new(), 0);
    assert_eq!(result.unwrap_err(), Error::InvalidAccount);
}

#[test]
fn submit_proposal_shares_overflow_fails() {
    let mut contract = mock_moloch();
    let result = contract.submit_proposal(&bob(), robert(), 10, u128::MAX, String::new(), 0);
    assert_eq!(result.unwrap_err(), Error::TooManySharesRequested);
}

#[test]
fn submit_proposal_total_shares_overflow_fails() {
    let mut contract = mock_moloch();
    add_escrow_deposit(&mut contract, bob(), 100);
    add_escrow_deposit(&mut contract, robert(), 10);
    contract
        .submit_proposal(&bob(), robert(), 10, u128::MAX - 1, String::new(), 0)
        .unwrap();
    let result = contract.submit_proposal(&bob(), robert(), 10, 1, String::new(), 0);
    assert_eq!(result.unwrap_err(), Error::TooManySharesRequested);
}

#[test]
fn submit_proposal_not_delegate_fails() {
    let mut contract = mock_moloch();
    let result = contract.submit_proposal(&robert(), robert(), 10, 10, String::new(), 0);
    assert_eq!(result.unwrap_err(), Error::NotDelegate);
}

#[test]
fn submit_proposal_without_escrow_fails() {
    let mut contract = mock_moloch();
    let result = contract.submit_proposal(&bob(), robert(), 12, 10, String::new(), 0);
    assert_eq!(result.unwrap_err(), Error::InsufficientEscrowBalance);
    assert_eq!(contract.total_shares_requested, 0);
    assert_eq!(contract.get_proposal_queue_length(), 0);
}

#[test]
fn submit_vote_yes() {
    let mut contract = mock_moloch();
    add_proposal(&mut contract, mock_proposal(robert()));
    contract.submit_vote(&bob(), 0, 1, PERIOD).unwrap();

    let proposal = &contract.proposal_queue[0];
    assert_eq!(proposal.yes_votes, 1);
    assert_eq!(proposal.no_votes, 0);
    assert_eq!(proposal.max_total_shares_at_yes_vote, 1);
    let member = contract.members.get(&bob()).unwrap();
    assert_eq!(member.highest_index_yes_vote, 0);
}

#[test]
fn submit_vote_no() {
    let mut contract = mock_moloch();
    add_proposal(&mut contract, mock_proposal(robert()));
    contract.submit_vote(&bob(), 0, 2, PERIOD).unwrap();

    let proposal = &contract.proposal_queue[0];
    assert_eq!(proposal.yes_votes, 0);
    assert_eq!(proposal.no_votes, 1);
    let member = contract.members.get(&bob()).unwrap();
    assert_eq!(member.highest_index_yes_vote, 0);
}

#[test]
fn submit_vote_complex() {
    let mut contract = mock_moloch();
    add_proposal(&mut contract, mock_proposal(robert()));
    add_proposal(&mut contract, mock_proposal(robert()));
    add_member(&mut contract, mock_member(robert(), 30));
    add_member(&mut contract, mock_member(alice(), 50));
    let now: u64 = PERIOD * 2;

    contract.submit_vote(&bob(), 0, 1, now).unwrap();
    contract.submit_vote(&bob(), 1, 1, now).unwrap();
    let member = contract.members.get(&bob()).unwrap();
    assert_eq!(
        member.highest_index_yes_vote, 1,
        "Highest proposal index is wrong"
    );
    let proposal = &contract.proposal_queue[0];
    assert_eq!(
        proposal.max_total_shares_at_yes_vote, 81,
        "Max number of total shares is wrong"
    );

    contract.submit_vote(&robert(), 0, 1, now).unwrap();
    contract.submit_vote(&robert(), 1, 2, now).unwrap();
    let member = contract.members.get(&robert()).unwrap();
    assert_eq!(
        member.highest_index_yes_vote, 0,
        "Highest proposal index is wrong for robert"
    );

    contract.submit_vote(&alice(), 0, 1, now).unwrap();
    contract.submit_vote(&alice(), 1, 1, now).unwrap();
    let member = contract.members.get(&alice()).unwrap();
    assert_eq!(
        member.highest_index_yes_vote, 1,
        "Highest proposal index is wrong for alice"
    );

    let proposal_zero = &contract.proposal_queue[0];
    assert_eq!(proposal_zero.yes_votes, 81);
    assert_eq!(proposal_zero.no_votes, 0);
    assert_eq!(proposal_zero.processed, false);
    assert_eq!(proposal_zero.aborted, false);

    let proposal_one = &contract.proposal_queue[1];
    assert_eq!(proposal_one.yes_votes, 51);
    assert_eq!(proposal_one.no_votes, 30);
    assert_eq!(proposal_one.processed, false);
    assert_eq!(proposal_one.aborted, false);
}

#[test]
fn submit_vote_no_existing_proposal_fails() {
    let mut contract = mock_moloch();
    let result = contract.submit_vote(&bob(), 0, 1, 0);
    assert_eq!(result.unwrap_err(), Error::ProposalNotFound);
}

#[test]
fn submit_vote_undefined_vote_fails() {
    let mut contract = mock_moloch();
    add_proposal(&mut contract, mock_proposal(robert()));
    let result = contract.submit_vote(&bob(), 0, 0, PERIOD);
    assert_eq!(result.unwrap_err(), Error::InvalidVoteCode);
    let result = contract.submit_vote(&bob(), 0, 4, PERIOD);
    assert_eq!(result.unwrap_err(), Error::InvalidVoteCode);
}

#[test]
fn submit_vote_abstain_moves_no_tally() {
    let mut contract = mock_moloch();
    add_proposal(&mut contract, mock_proposal(robert()));
    contract.submit_vote(&bob(), 0, 3, PERIOD).unwrap();
    let proposal = &contract.proposal_queue[0];
    assert_eq!(proposal.yes_votes, 0);
    assert_eq!(proposal.no_votes, 0);
    assert_eq!(
        contract.get_member_proposal_vote(bob(), 0).unwrap(),
        Vote::Null
    );
}

#[test]
fn submit_vote_has_not_begun_fails() {
    let mut contract = mock_moloch();
    add_proposal(&mut contract, mock_proposal(robert()));
    let result = contract.submit_vote(&bob(), 0, 2, 0);
    assert_eq!(result.unwrap_err(), Error::VotingNotStarted);
}

#[test]
fn submit_vote_expired_fails() {
    let mut contract = mock_moloch();
    add_proposal(&mut contract, mock_proposal(robert()));
    let now: u64 = PERIOD * 4;
    let result = contract.submit_vote(&bob(), 0, 2, now);
    assert_eq!(result.unwrap_err(), Error::VotingExpired);
}

#[test]
fn submit_vote_member_already_voted_fails() {
    let mut contract = mock_moloch();
    add_proposal(&mut contract, mock_proposal(robert()));
    contract.submit_vote(&bob(), 0, 2, PERIOD).unwrap();
    let result = contract.submit_vote(&bob(), 0, 1, PERIOD);
    assert_eq!(result.unwrap_err(), Error::AlreadyVoted);
    let proposal = &contract.proposal_queue[0];
    assert_eq!(proposal.no_votes, 1);
    assert_eq!(proposal.yes_votes, 0);
}

#[test]
fn submit_vote_proposal_aborted_fails() {
    let mut contract = mock_moloch();
    let mut proposal = mock_proposal(robert());
    proposal.aborted = true;
    add_proposal(&mut contract, proposal);
    let result = contract.submit_vote(&bob(), 0, 2, PERIOD);
    assert_eq!(result.unwrap_err(), Error::ProposalAborted);
}

#[test]
fn submit_vote_dangling_delegate_fails() {
    let mut contract = mock_moloch();
    add_proposal(&mut contract, mock_proposal(robert()));
    // a delegate entry pointing at an identity with no member record
    contract.members_by_delegate_key.set(&robert(), alice());
    let result = contract.submit_vote(&robert(), 0, 1, PERIOD);
    assert_eq!(result.unwrap_err(), Error::MemberNotFound);
}

#[test]
fn submit_vote_not_delegate_fails() {
    let mut contract = mock_moloch();
    add_proposal(&mut contract, mock_proposal(robert()));
    let result = contract.submit_vote(&alice(), 0, 2, PERIOD);
    assert_eq!(result.unwrap_err(), Error::NotDelegate);
}

#[test]
fn process_proposal_passed() {
    let mut contract = mock_moloch();
    let member = mock_member(robert(), 10);
    let mut proposal = mock_proposal(robert());
    yes_vote(&mut proposal, &member);
    add_proposal(&mut contract, proposal);
    add_member(&mut contract, member);

    let proposal = &contract.proposal_queue[0];
    assert_eq!(proposal.processed, false, "Proposal has been processed");
    assert_eq!(
        contract.total_shares_requested, proposal.shares_requested,
        "Total shares requested has not been set correctly"
    );

    let now: u64 = PERIOD * 6;
    contract.process_proposal(&bob(), 0, now).unwrap();

    let proposal = &contract.proposal_queue[0];
    assert_eq!(proposal.processed, true, "Proposal has not been processed");
    assert_eq!(
        contract.total_shares_requested, 0,
        "Number of requested shares has not been subtracted"
    );
    let member = contract.members.get(&robert()).unwrap();
    assert_eq!(
        member.shares, 20,
        "Member does not have the correct number not shares"
    );
    assert_eq!(
        contract.total_shares, 21,
        "Total shares has not been updated correctly"
    );
}

#[test]
fn process_proposal_passed_existing_member() {
    let mut contract = mock_moloch();
    let voter = mock_member(bob(), 1);
    let mut proposal = mock_proposal(alice());
    proposal.shares_requested = 15;
    yes_vote(&mut proposal, &voter);
    add_proposal(&mut contract, proposal);
    add_member(&mut contract, mock_member(alice(), 7));

    let now: u64 = PERIOD * 6;
    contract.process_proposal(&bob(), 0, now).unwrap();

    let member = contract.members.get(&alice()).unwrap();
    assert_eq!(
        member.shares, 22,
        "Member does not have the correct number not shares"
    );
    assert_eq!(
        contract.total_shares, 23,
        "Total shares has not been updated correctly"
    );
}

#[test]
fn process_proposal_passed_new_member() {
    let mut contract = mock_moloch();
    let voter = mock_member(bob(), 1);
    let mut proposal = mock_proposal(alice());
    proposal.shares_requested = 15;
    yes_vote(&mut proposal, &voter);
    add_proposal(&mut contract, proposal);

    let now: u64 = PERIOD * 6;
    contract.process_proposal(&bob(), 0, now).unwrap();

    let member = contract.members.get(&alice()).unwrap();
    assert_eq!(
        member.shares, 15,
        "Member does not have the correct number not shares"
    );
    assert_eq!(member.delegate_key, alice(), "Member delegate_key is incorrect");
    assert_eq!(member.exists, true, "Member does not exists");
    assert_eq!(
        member.highest_index_yes_vote, 0,
        "Highest index vote is incorrect"
    );
    let member_delegate_key = contract.members_by_delegate_key.get(&alice()).unwrap();
    assert_eq!(*member_delegate_key, alice());
    assert_eq!(
        contract.total_shares, 16,
        "Total shares has not been updated correctly"
    );
}

#[test]
fn process_proposal_passed_new_member_existing_delegate_key() {
    let mut contract = mock_moloch();
    let member = mock_member(robert(), 10);
    let mut proposal = mock_proposal(alice());
    proposal.shares_requested = 15;
    yes_vote(&mut proposal, &member);
    add_proposal(&mut contract, proposal);
    add_member(&mut contract, member);
    // robert moves his delegate key onto alice's identity
    contract.members_by_delegate_key.set(&alice(), robert());
    let mut robert_member = contract.members.get(&robert()).unwrap().clone();
    robert_member.delegate_key = alice();
    contract.members.set(&robert(), robert_member);

    let member_robert = contract.members.get(&robert()).unwrap();
    assert_eq!(
        member_robert.delegate_key,
        alice(),
        "Delegate key has not been setup correctly"
    );

    let now: u64 = PERIOD * 6;
    contract.process_proposal(&bob(), 0, now).unwrap();

    let member_robert = contract.members.get(&robert()).unwrap();
    assert_eq!(
        member_robert.delegate_key,
        robert(),
        "Delegate key has not been updated correctly"
    );

    let member = contract.members.get(&alice()).unwrap();
    assert_eq!(
        member.shares, 15,
        "Member does not have the correct number not shares"
    );
    assert_eq!(member.delegate_key, alice(), "Member delegate_key is incorrect");
    assert_eq!(member.exists, true, "Member does not exists");
    assert_eq!(
        member.highest_index_yes_vote, 0,
        "Highest index vote is incorrect"
    );
    let member_delegate_key = contract.members_by_delegate_key.get(&alice()).unwrap();
    assert_eq!(*member_delegate_key, alice());
    assert_eq!(
        contract.total_shares, 26,
        "Total shares has not been updated correctly"
    );
}

#[test]
fn process_proposal_failed() {
    let mut contract = mock_moloch();
    let member = mock_member(robert(), 10);
    let mut proposal = mock_proposal(robert());
    no_vote(&mut proposal, &member);
    add_proposal(&mut contract, proposal);
    add_member(&mut contract, member);

    let proposal = &contract.proposal_queue[0];
    assert_eq!(proposal.processed, false, "Proposal has been processed");
    assert_eq!(
        contract.total_shares_requested, proposal.shares_requested,
        "Total shares requested has not been set correctly"
    );

    let now: u64 = PERIOD * 6;
    contract.process_proposal(&bob(), 0, now).unwrap();

    let proposal = &contract.proposal_queue[0];
    assert_eq!(proposal.processed, true, "Proposal has not been processed");
    assert_eq!(proposal.did_pass, false);
    assert_eq!(
        contract.total_shares_requested, 0,
        "Number of requested shares has not been subtracted"
    );
    let member = contract.members.get(&robert()).unwrap();
    assert_eq!(
        member.shares, 10,
        "Member does not have the correct number not shares"
    );
    assert_eq!(contract.total_shares, 11, "Total shares is not correct");
}

#[test]
fn process_proposal_failed_aborted() {
    let mut contract = mock_moloch();
    let member = mock_member(robert(), 10);
    let mut proposal = mock_proposal(robert());
    yes_vote(&mut proposal, &member);
    proposal.aborted = true;
    add_proposal(&mut contract, proposal);
    add_member(&mut contract, member);

    let proposal = &contract.proposal_queue[0];
    assert_eq!(proposal.processed, false, "Proposal has been processed");
    assert_eq!(
        contract.total_shares_requested, proposal.shares_requested,
        "Total shares requested has not been set correctly"
    );

    let now: u64 = PERIOD * 6;
    contract.process_proposal(&bob(), 0, now).unwrap();

    let proposal = &contract.proposal_queue[0];
    assert_eq!(proposal.processed, true, "Proposal has not been processed");
    assert_eq!(proposal.did_pass, false);
    assert_eq!(
        contract.total_shares_requested, 0,
        "Number of requested shares has not been subtracted"
    );
    let member = contract.members.get(&robert()).unwrap();
    assert_eq!(
        member.shares, 10,
        "Member does not have the correct number not shares"
    );
    assert_eq!(contract.total_shares, 11, "Total shares is not correct");
}

#[test]
fn process_proposal_does_not_exist_fails() {
    let mut contract = mock_moloch();
    let result = contract.process_proposal(&bob(), 0, 0);
    assert_eq!(result.unwrap_err(), Error::ProposalNotFound);
}

#[test]
fn process_proposal_not_ready_fails() {
    let mut contract = mock_moloch();
    add_proposal(&mut contract, mock_proposal(robert()));
    let result = contract.process_proposal(&bob(), 0, 0);
    assert_eq!(result.unwrap_err(), Error::NotReadyToProcess);
}

#[test]
fn process_proposal_already_processed_fails() {
    let mut contract = mock_moloch();
    let mut proposal = mock_proposal(robert());
    proposal.processed = true;
    contract.proposal_queue.push(proposal);
    let now: u64 = PERIOD * 6;
    let result = contract.process_proposal(&bob(), 0, now);
    assert_eq!(result.unwrap_err(), Error::AlreadyProcessed);
}

#[test]
fn process_proposal_previous_not_processed_fails() {
    let mut contract = mock_moloch();
    add_proposal(&mut contract, mock_proposal(robert()));
    add_proposal(&mut contract, mock_proposal(robert()));
    let now: u64 = PERIOD * 6;
    let result = contract.process_proposal(&bob(), 1, now);
    assert_eq!(result.unwrap_err(), Error::PreviousNotProcessed);
}

#[test]
fn rage_quit_basic() {
    let mut contract = mock_moloch();
    let mut proposal = mock_proposal(robert());
    proposal.processed = true;
    contract.proposal_queue.push(proposal);
    add_member(&mut contract, mock_member(robert(), 30));

    contract.rage_quit(&robert(), 30).unwrap();
    assert_eq!(
        contract.total_shares, 1,
        "Total shares have not properly been subtracted"
    );
    let member = contract.members.get(&robert()).unwrap();
    assert_eq!(
        member.shares, 0,
        "Shares have not been properly subtracted by a memeber"
    );
}

#[test]
fn rage_quit_partial() {
    let mut contract = mock_moloch();
    let mut proposal = mock_proposal(robert());
    proposal.processed = true;
    contract.proposal_queue.push(proposal);
    add_member(&mut contract, mock_member(robert(), 30));

    contract.rage_quit(&robert(), 20).unwrap();
    assert_eq!(
        contract.total_shares, 11,
        "Total shares have not properly been subtracted"
    );
    let member = contract.members.get(&robert()).unwrap();
    assert_eq!(
        member.shares, 10,
        "Shares have not been properly subtracted by a memeber"
    );
}

#[test]
fn rage_quit_payout_is_proportional() {
    let mut contract = mock_moloch();
    let mut proposal = mock_proposal(robert());
    proposal.processed = true;
    contract.proposal_queue.push(proposal);
    add_member(&mut contract, mock_member(robert(), 30));
    contract.bank.deposit(100).unwrap();

    // 31 total shares, treasury 100: burning 20 pays floor(100 * 20 / 31)
    let transfer = contract.rage_quit(&robert(), 20).unwrap();
    assert_eq!(transfer.amount, 64);
    assert_eq!(transfer.to, robert());
    assert_eq!(contract.get_bank_balance(), 36);
    assert_eq!(contract.total_shares, 11);
}

#[test]
fn rage_quit_large_treasury_exact_payout() {
    let mut contract = mock_moloch();
    let mut proposal = mock_proposal(robert());
    proposal.processed = true;
    contract.proposal_queue.push(proposal);
    add_member(&mut contract, mock_member(robert(), 3));
    // treasury of 2^127: balance * shares overflows one machine word, yet
    // burning 3 of the 4 total shares must pay exactly 3 * 2^125
    contract.bank.deposit(170141183460469231731687303715884105728).unwrap();

    let transfer = contract.rage_quit(&robert(), 3).unwrap();
    assert_eq!(transfer.amount, 127605887595351923798765477786913079296);
    assert_eq!(contract.get_bank_balance(), 42535295865117307932921825928971026432);
    assert_eq!(contract.total_shares, 1);
    let member = contract.members.get(&robert()).unwrap();
    assert_eq!(member.shares, 0);
}

#[test]
fn rage_quit_pending_vote_fails() {
    let mut contract = mock_moloch();
    add_proposal(&mut contract, mock_proposal(robert()));
    add_member(&mut contract, mock_member(robert(), 30));

    let result = contract.rage_quit(&robert(), 20);
    assert_eq!(result.unwrap_err(), Error::CannotRageQuitPendingVote);
    assert_eq!(contract.total_shares, 31);
}

#[test]
fn rage_quit_not_a_member_fails() {
    let mut contract = mock_moloch();
    add_proposal(&mut contract, mock_proposal(robert()));
    let result = contract.rage_quit(&robert(), 20);
    assert_eq!(result.unwrap_err(), Error::NotMember);
}

#[test]
fn rage_quit_insufficient_shares_fails() {
    let mut contract = mock_moloch();
    let mut proposal = mock_proposal(robert());
    proposal.processed = true;
    contract.proposal_queue.push(proposal);
    add_member(&mut contract, mock_member(robert(), 30));
    let result = contract.rage_quit(&robert(), 31);
    assert_eq!(result.unwrap_err(), Error::InsufficientShares);
}

#[test]
fn abort() {
    let mut contract = mock_moloch();
    add_proposal(&mut contract, mock_proposal(robert()));
    contract.abort(&robert(), 0, PERIOD).unwrap();

    let proposal = &contract.proposal_queue[0];
    assert_eq!(proposal.aborted, true);
    assert_eq!(proposal.token_tribute, 0);
}

#[test]
fn abort_proposal_does_not_exist_fails() {
    let mut contract = mock_moloch();
    let result = contract.abort(&robert(), 0, PERIOD);
    assert_eq!(result.unwrap_err(), Error::ProposalNotFound);
}

#[test]
fn abort_not_applicant_fails() {
    let mut contract = mock_moloch();
    add_proposal(&mut contract, mock_proposal(robert()));
    let result = contract.abort(&bob(), 0, PERIOD);
    assert_eq!(result.unwrap_err(), Error::NotApplicant);
}

#[test]
fn abort_window_has_passed_fails() {
    let mut contract = mock_moloch();
    add_proposal(&mut contract, mock_proposal(robert()));
    let now: u64 = PERIOD * 5;
    let result = contract.abort(&robert(), 0, now);
    assert_eq!(result.unwrap_err(), Error::AbortWindowClosed);
}

#[test]
fn abort_already_aborted_fails() {
    let mut contract = mock_moloch();
    let mut proposal = mock_proposal(robert());
    proposal.aborted = true;
    add_proposal(&mut contract, proposal);
    let result = contract.abort(&robert(), 0, PERIOD);
    assert_eq!(result.unwrap_err(), Error::AlreadyAborted);
}

#[test]
fn lib_update_delegate_key() {
    let mut contract = mock_moloch();
    contract.update_delegate_key(&bob(), "soda".to_string()).unwrap();
    let old_key = contract.members_by_delegate_key.get(&bob()).unwrap();
    assert_eq!(
        *old_key,
        "".to_string(),
        "Old has not been updated to an empty string"
    );
    let new_key = contract
        .members_by_delegate_key
        .get(&"soda".to_string())
        .unwrap();
    assert_eq!(*new_key, bob(), "New key has been created");
    let member = contract.members.get(&bob()).unwrap();
    assert_eq!(
        member.delegate_key,
        "soda".to_string(),
        "Member delegate key has not been updated"
    );
}

#[test]
fn update_delegate_key_only_member_fails() {
    let mut contract = mock_moloch();
    let result = contract.update_delegate_key(&robert(), "soda".to_string());
    assert_eq!(result.unwrap_err(), Error::NotMember);
}

#[test]
fn update_delegate_key_empty_string_fails() {
    let mut contract = mock_moloch();
    let result = contract.update_delegate_key(&bob(), "".to_string());
    assert_eq!(result.unwrap_err(), Error::InvalidAccount);
}

#[test]
fn update_delegate_cannot_be_an_existing_member_fails() {
    let mut contract = mock_moloch();
    add_member(&mut contract, mock_member(robert(), 10));
    let result = contract.update_delegate_key(&bob(), robert());
    assert_eq!(result.unwrap_err(), Error::CannotOverwriteMember);
}

#[test]
fn update_delegate_cannot_be_an_existing_delegate_key_fails() {
    let mut contract = mock_moloch();
    add_member(&mut contract, mock_member(robert(), 10));
    contract.update_delegate_key(&bob(), "soda".to_string()).unwrap();
    let result = contract.update_delegate_key(&robert(), "soda".to_string());
    assert_eq!(result.unwrap_err(), Error::CannotOverwriteDelegate);
}

#[test]
fn lib_get_current_period() {
    let contract = mock_moloch();
    assert_eq!(contract.get_current_period(0), 0, "Current period is not 0");
}

#[test]
fn get_current_period_after_three_periods() {
    let contract = mock_moloch();
    let now: u64 = PERIOD * 3;
    assert_eq!(contract.get_current_period(now), 3, "Current period is not 3");
}

#[test]
fn lib_get_proposal_queue_length() {
    let contract = mock_moloch();
    assert_eq!(contract.get_proposal_queue_length(), 0);
}

#[test]
fn get_proposal_queue_length_two() {
    let mut contract = mock_moloch();
    add_proposal(&mut contract, mock_proposal(robert()));
    add_proposal(&mut contract, mock_proposal(robert()));
    assert_eq!(contract.get_proposal_queue_length(), 2);
}

#[test]
fn lib_can_rage_quit() {
    let mut contract = mock_moloch();
    let mut proposal = mock_proposal(robert());
    proposal.processed = true;
    contract.proposal_queue.push(proposal);
    assert_eq!(contract.can_rage_quit(0).unwrap(), true);
}

#[test]
fn can_rage_quit_false() {
    let mut contract = mock_moloch();
    add_proposal(&mut contract, mock_proposal(robert()));
    assert_eq!(contract.can_rage_quit(0).unwrap(), false);
}

#[test]
fn can_rage_quit_proposal_does_not_exist_fails() {
    let contract = mock_moloch();
    assert_eq!(contract.can_rage_quit(0).unwrap_err(), Error::ProposalNotFound);
}

#[test]
fn has_voting_period_expired_no() {
    let contract = mock_moloch();
    assert_eq!(
        contract.has_voting_period_expired(0, 0),
        false,
        "The voting period has expired"
    );
}

#[test]
fn has_voting_period_expired_yes() {
    let contract = mock_moloch();
    let now: u64 = PERIOD * 3;
    assert_eq!(
        contract.has_voting_period_expired(0, now),
        true,
        "The voting period has not expired"
    );
}

#[test]
fn get_member_proposal_vote_yes() {
    let mut contract = mock_moloch();
    let member = mock_member(bob(), 10);
    let mut proposal = mock_proposal(robert());
    yes_vote(&mut proposal, &member);
    add_proposal(&mut contract, proposal);
    let vote = contract.get_member_proposal_vote(bob(), 0).unwrap();
    assert_eq!(vote, Vote::Yes, "Bob did not vote yes");
}

#[test]
fn get_member_proposal_vote_null() {
    let mut contract = mock_moloch();
    let member = mock_member(robert(), 10);
    let mut proposal = mock_proposal(robert());
    yes_vote(&mut proposal, &member);
    add_proposal(&mut contract, proposal);
    let vote = contract.get_member_proposal_vote(bob(), 0).unwrap();
    assert_eq!(vote, Vote::Null, "Bob has not voted yes yet");
}

#[test]
fn get_member_proposal_vote_member_does_not_exist_fails() {
    let mut contract = mock_moloch();
    add_proposal(&mut contract, mock_proposal(robert()));
    let result = contract.get_member_proposal_vote(robert(), 0);
    assert_eq!(result.unwrap_err(), Error::MemberNotFound);
}

#[test]
fn get_member_proposal_vote_proposal_does_not_exist_fails() {
    let contract = mock_moloch();
    let result = contract.get_member_proposal_vote(bob(), 0);
    assert_eq!(result.unwrap_err(), Error::ProposalNotFound);
}

#[test]
fn get_user_escrow_balance() {
    let mut contract = mock_moloch();
    contract.escrow.deposit(robert(), 10).unwrap();
    assert_eq!(
        contract.get_escrow_user_balance(robert()),
        10,
        "Guild escrow balance is incorrect"
    );
}

#[test]
fn get_bank_balance() {
    let mut contract = mock_moloch();
    contract.bank.deposit(10).unwrap();
    assert_eq!(
        contract.get_bank_balance(),
        10,
        "Guild bank balance is incorrect"
    );
}

#[test]
fn only_delegate() {
    let contract = mock_moloch();
    assert_eq!(contract.only_delegate(&bob()).unwrap(), bob());
}

#[test]
fn only_delegate_not_fails() {
    let contract = mock_moloch();
    assert_eq!(
        contract.only_delegate(&robert()).unwrap_err(),
        Error::NotDelegate
    );
}

#[test]
fn only_member() {
    let contract = mock_moloch();
    assert!(contract.only_member(&bob()).is_ok());
}

#[test]
fn only_member_not_fails() {
    let contract = mock_moloch();
    assert_eq!(contract.only_member(&robert()).unwrap_err(), Error::NotMember);
}

#[test]
fn ft_on_transfer() {
    let mut contract = Moloch::new(
        "bob.near".to_string(),
        "fdau.near".to_string(),
        10,
        10,
        10,
        10,
        10,
        10,
        10,
        0,
    )
    .unwrap();
    let returned_amount = contract
        .ft_on_transfer("bob.near".to_string(), "bob.near".to_string(), 10)
        .unwrap();
    assert_eq!(returned_amount, 10, "Returned amount is incorrect");
}

#[test]
fn ft_on_transfer_approved_token_credits_escrow() {
    let mut contract = mock_moloch();
    let returned_amount = contract.ft_on_transfer(fdai(), bob(), 25).unwrap();
    assert_eq!(returned_amount, 0);
    assert_eq!(contract.get_escrow_user_balance(bob()), 25);
}

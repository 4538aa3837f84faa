use moloch::bank::GuildBank;
use moloch::error::Error;
use moloch::escrow::ProposalEscrow;

fn bob() -> String {
    "bob.near".to_string()
}

fn robert() -> String {
    "robert.testnet".to_string()
}

fn fdai() -> String {
    "fdai.testnet".to_string()
}

#[test]
fn deposit() {
    let mut contract = GuildBank::new(fdai());
    contract.deposit(77).unwrap();
    contract.deposit(10).unwrap();
    assert_eq!(
        contract.get_balance(),
        87,
        "Balance did not have the correct amount deposited"
    );
}

#[test]
fn guild_bank_withdraw() {
    let mut contract = GuildBank::new(fdai());
    contract.deposit(77).unwrap();
    let transfer = contract.withdraw(robert(), 10, 100).unwrap();
    assert_eq!(
        contract.get_balance(),
        70,
        "Balance did not have the correct amount withdrawn"
    );
    assert_eq!(transfer.amount, 7);
    assert_eq!(transfer.to, robert());
    assert_eq!(transfer.token_id, fdai());
}

#[test]
fn withdraw_large_treasury_exact_floor() {
    let mut contract = GuildBank::new(fdai());
    // a treasury too large for balance * shares to fit one machine word:
    // the payout must still be the exact floor(balance * 3 / 4)
    let treasury: u128 = 170141183460469231731687303715884105728;
    contract.deposit(treasury).unwrap();
    let transfer = contract.withdraw(robert(), 3, 4).unwrap();
    assert_eq!(transfer.amount, 127605887595351923798765477786913079296);
    assert_eq!(contract.get_balance(), 42535295865117307932921825928971026432);
}

#[test]
fn withdraw_full_share_count_drains_treasury() {
    let mut contract = GuildBank::new(fdai());
    contract.deposit(u128::MAX).unwrap();
    let transfer = contract.withdraw(robert(), u128::MAX, u128::MAX).unwrap();
    assert_eq!(transfer.amount, u128::MAX);
    assert_eq!(contract.get_balance(), 0);
}

#[test]
fn withdraw_zero_total_shares_fails() {
    let mut contract = GuildBank::new(fdai());
    contract.deposit(77).unwrap();
    let result = contract.withdraw(robert(), 0, 0);
    assert_eq!(result.unwrap_err(), Error::DivisionByZero);
    assert_eq!(contract.get_balance(), 77);
}

#[test]
fn bank_deposit_overflow_fails() {
    let mut contract = GuildBank::new(fdai());
    contract.deposit(u128::MAX).unwrap();
    let result = contract.deposit(1);
    assert_eq!(result.unwrap_err(), Error::ArithmeticOverflow);
    assert_eq!(contract.get_balance(), u128::MAX);
}

#[test]
fn deposit_no_previous_balance() {
    let mut proposal_escrow = ProposalEscrow::new();
    let balance = proposal_escrow.deposit(bob(), 100).unwrap();
    assert_eq!(balance, 100, "Balance does not equal 100");
    assert_eq!(
        proposal_escrow.user_balance(bob()),
        100,
        "Saved balance does not equal 100"
    );
}

#[test]
fn deposit_with_previous_balance() {
    let mut proposal_escrow = ProposalEscrow::new();
    proposal_escrow.deposit(bob(), 20).unwrap();
    let balance = proposal_escrow.deposit(bob(), 100).unwrap();
    assert_eq!(balance, 120, "Balance does not equal 120");
    assert_eq!(
        proposal_escrow.user_balance(bob()),
        120,
        "Saved balance does not equal 120"
    );
}

#[test]
fn withdraw_with_previous_balance() {
    let mut proposal_escrow = ProposalEscrow::new();
    proposal_escrow.deposit(bob(), 20).unwrap();
    let balance = proposal_escrow.withdraw(bob(), 17).unwrap();
    assert_eq!(balance, 3, "Balance does not equal 3");
    assert_eq!(
        proposal_escrow.user_balance(bob()),
        3,
        "Saved balance does not equal 3"
    );
}

#[test]
fn escrow_withdraw_more_than_balance_fails() {
    let mut proposal_escrow = ProposalEscrow::new();
    proposal_escrow.deposit(bob(), 20).unwrap();
    let result = proposal_escrow.withdraw(bob(), 21);
    assert_eq!(result.unwrap_err(), Error::InsufficientEscrowBalance);
    assert_eq!(proposal_escrow.user_balance(bob()), 20);
}

#[test]
fn escrow_deposit_withdraw_round_trip() {
    let mut proposal_escrow = ProposalEscrow::new();
    proposal_escrow.deposit(bob(), 5).unwrap();
    proposal_escrow.deposit(robert(), 9).unwrap();
    proposal_escrow.deposit(bob(), 42).unwrap();
    proposal_escrow.withdraw(bob(), 42).unwrap();
    assert_eq!(proposal_escrow.user_balance(bob()), 5);
    assert_eq!(proposal_escrow.user_balance(robert()), 9);
}

#[test]
fn escrow_deposit_overflow_fails() {
    let mut proposal_escrow = ProposalEscrow::new();
    proposal_escrow.deposit(bob(), u128::MAX - 1).unwrap();
    let result = proposal_escrow.deposit(bob(), 2);
    assert_eq!(result.unwrap_err(), Error::ArithmeticOverflow);
    assert_eq!(proposal_escrow.user_balance(bob()), u128::MAX - 1);
}

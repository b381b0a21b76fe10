//! Flash loans, step by step.
use lending::flash::{FlashLoan, FlashLoanAction, FlashLoanReply, FlashLoanStage};
use lending::state::{Env, LendingContract};
use lending::types::{Address, Event};
use lending::LendingError;

fn named(kind: u8, n: u8) -> Address {
    let mut strkey = [b'A'; 56];
    strkey[0] = kind;
    strkey[55] = n;
    Address { strkey }
}

fn pool() -> Address {
    named(b'C', 0)
}

fn receiver() -> Address {
    named(b'C', 1)
}

fn token() -> Address {
    named(b'C', 2)
}

fn start(c: &LendingContract, amount: i128) -> FlashLoan {
    c.flash_loan(receiver(), token(), amount, vec![1, 2, 3]).unwrap()
}

#[test]
fn a_repaid_flash_loan_settles() {
    let mut c = LendingContract::new(pool());
    let loan = start(&c, 1_000_000);
    match loan.action() {
        FlashLoanAction::QueryBalance { token: t, holder } => {
            assert_eq!(t, token());
            assert_eq!(holder, pool());
        }
        _ => panic!("the balance comes first"),
    }
    let loan = c.resume_flash_loan(loan, FlashLoanReply::Balance(5_000_000)).unwrap();
    match loan.action() {
        FlashLoanAction::Transfer { token: t, from, to, amount } => {
            assert_eq!(t, token());
            assert_eq!(from, pool());
            assert_eq!(to, receiver());
            assert_eq!(amount, 1_000_000);
        }
        _ => panic!("the transfer comes second"),
    }
    let loan = c.resume_flash_loan(loan, FlashLoanReply::Done).unwrap();
    match loan.action() {
        FlashLoanAction::ExecuteOperation {
            receiver: r,
            token: t,
            amount,
            fee,
            initiator,
            params,
        } => {
            assert_eq!(r, receiver());
            assert_eq!(t, token());
            assert_eq!(amount, 1_000_000);
            assert_eq!(fee, 900);
            assert_eq!(initiator, pool());
            assert_eq!(params, vec![1, 2, 3]);
        }
        _ => panic!("the callback comes third"),
    }
    let loan = c.resume_flash_loan(loan, FlashLoanReply::Done).unwrap();
    assert!(matches!(loan.action(), FlashLoanAction::QueryBalance { .. }));
    assert!(c.events.is_empty());
    let loan = c.resume_flash_loan(loan, FlashLoanReply::Balance(5_000_900)).unwrap();
    assert!(matches!(loan.action(), FlashLoanAction::Finish));
    assert_eq!(
        c.events,
        vec![Event::FlashLoan {
            receiver: receiver(),
            token: token(),
            amount: 1_000_000,
            fee: 900,
        }]
    );
    assert_eq!(c.events[0].topics(), ("flash", "loan"));
}

#[test]
fn a_loan_that_is_not_repaid_is_refused() {
    let mut c = LendingContract::new(pool());
    let loan = start(&c, 1_000_000);
    let loan = c.resume_flash_loan(loan, FlashLoanReply::Balance(1_000_000)).unwrap();
    let loan = c.resume_flash_loan(loan, FlashLoanReply::Done).unwrap();
    let loan = c.resume_flash_loan(loan, FlashLoanReply::Done).unwrap();
    assert_eq!(
        loan.stage(),
        FlashLoanStage::AwaitingRepayment { fee: 900, required_after: 1_000_900 }
    );
    let result = c.resume_flash_loan(loan, FlashLoanReply::Balance(1_000_899));
    assert_eq!(result.err(), Some(LendingError::FlashLoanNotRepaid));
    assert!(c.events.is_empty());
}

#[test]
fn amounts_must_be_positive() {
    let c = LendingContract::new(pool());
    for amount in [0, -1] {
        let result = c.flash_loan(receiver(), token(), amount, vec![]);
        assert_eq!(result.err(), Some(LendingError::FlashLoanAmountNotPositive));
    }
}

#[test]
fn the_pool_lends_only_what_it_has() {
    let mut c = LendingContract::new(pool());
    let loan = start(&c, 100);
    let result = c.resume_flash_loan(loan, FlashLoanReply::Balance(99));
    assert_eq!(result.err(), Some(LendingError::InsufficientLiquidity));
    let loan = start(&c, 100);
    let loan = c.resume_flash_loan(loan, FlashLoanReply::Balance(100)).unwrap();
    assert_eq!(
        loan.stage(),
        FlashLoanStage::AwaitingTransfer { fee: 0, required_after: 100 }
    );
}

#[test]
fn fees_that_are_too_large_are_refused() {
    let mut c = LendingContract::new(pool());
    let loan = start(&c, i128::MAX);
    let result = c.resume_flash_loan(loan, FlashLoanReply::Balance(i128::MAX));
    assert_eq!(result.err(), Some(LendingError::FlashLoanFeeOverflow));
    let loan = start(&c, 1_000_000);
    let result = c.resume_flash_loan(loan, FlashLoanReply::Balance(i128::MAX));
    assert_eq!(result.err(), Some(LendingError::RequiredBalanceOverflow));
}

#[test]
fn the_fee_in_force_is_charged() {
    let mut c = LendingContract::new(pool());
    let (admin, multisig) = (named(b'G', 1), named(b'G', 2));
    c.initialize(admin).unwrap();
    let by_admin = Env { timestamp: 0, authorizers: vec![admin] };
    let by_multisig = Env { timestamp: 0, authorizers: vec![multisig] };
    c.set_multisig_admin(&by_admin, admin, multisig).unwrap();
    c.set_flash_loan_fee_bps(&by_multisig, multisig, 500).unwrap();
    let loan = start(&c, 1_019);
    let loan = c.resume_flash_loan(loan, FlashLoanReply::Balance(2_000)).unwrap();
    assert_eq!(
        loan.stage(),
        FlashLoanStage::AwaitingTransfer { fee: 50, required_after: 2_050 }
    );
}

#[test]
fn unexpected_replies_are_refused() {
    let mut c = LendingContract::new(pool());
    let loan = start(&c, 100);
    let result = c.resume_flash_loan(loan, FlashLoanReply::Done);
    assert_eq!(result.err(), Some(LendingError::UnexpectedReply));
    let loan = start(&c, 100);
    let loan = c.resume_flash_loan(loan, FlashLoanReply::Balance(100)).unwrap();
    let result = c.resume_flash_loan(loan, FlashLoanReply::Balance(100));
    assert_eq!(result.err(), Some(LendingError::UnexpectedReply));
}

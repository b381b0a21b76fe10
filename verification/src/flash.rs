//! Flash loans: uncollateralised loans out of the pool's own balance that are
//! repaid, with a fee, within one transaction.
//!
//! A flash loan alternates between decisions of the contract and work that
//! only its host can do. The contract says by [`FlashLoan::action`] what the
//! host is to do next, and goes on from the host's reply. The steps are:
//!
//! 1. Ask for the pool's balance; it must cover the amount.
//! 2. Transfer the amount to the receiver.
//! 3. Run the receiver's callback, which must send back amount and fee.
//! 4. Ask for the pool's balance again; it must have grown by the fee.
//!
//! A refusal at any step aborts the transaction, and the host rolls back
//! everything that was done in it, the transfer included.
use crate::errors::LendingError;
use crate::math;
use crate::state::{LendingContract, State};
use crate::types::{Address, Event};
use vstd::prelude::*;

verus! {

/// What a flash loan waits for.
#[derive(Clone, Copy, Debug, PartialEq, Eq, Structural)]
pub enum FlashLoanStage {
    /// The balance of the pool, before anything has moved.
    AwaitingBalance,
    /// The transfer to the receiver.
    AwaitingTransfer { fee: i128, required_after: i128 },
    /// The receiver's callback.
    AwaitingCallback { fee: i128, required_after: i128 },
    /// The balance of the pool, after the callback.
    AwaitingRepayment { fee: i128, required_after: i128 },
    /// Nothing: the loan is repaid.
    Settled,
}

/// A flash loan under way. Only the contract makes one and moves it on.
pub struct FlashLoan {
    /// The contract that lends.
    pool: Address,
    receiver: Address,
    token: Address,
    amount: i128,
    /// Handed through to the receiver.
    params: Vec<u8>,
    stage: FlashLoanStage,
}

/// The view of a [`FlashLoan`].
pub struct FlashLoanView {
    pub pool: Address,
    pub receiver: Address,
    pub token: Address,
    pub amount: i128,
    pub params: Seq<u8>,
    pub stage: FlashLoanStage,
}

impl View for FlashLoan {
    type V = FlashLoanView;

    closed spec fn view(&self) -> FlashLoanView {
        FlashLoanView {
            pool: self.pool,
            receiver: self.receiver,
            token: self.token,
            amount: self.amount,
            params: self.params@,
            stage: self.stage,
        }
    }
}

/// What holds of every flash loan under way: it lends a positive amount, its
/// fee is not negative, and it is owed at least the amount and the fee.
pub open spec fn owes_amount_and_fee(loan: FlashLoanView) -> bool {
    &&& loan.amount > 0
    &&& match loan.stage {
        FlashLoanStage::AwaitingTransfer { fee, required_after }
        | FlashLoanStage::AwaitingCallback { fee, required_after }
        | FlashLoanStage::AwaitingRepayment { fee, required_after } => fee >= 0 && required_after
            >= loan.amount + fee,
        _ => true,
    }
}

/// What the host is to do next.
pub enum FlashLoanAction {
    /// Reply with the balance that `holder` has of `token`.
    QueryBalance { token: Address, holder: Address },
    Transfer { token: Address, from: Address, to: Address, amount: i128 },
    /// Call the receiver, which must send `amount` and `fee` of `token` to
    /// `initiator` before it returns.
    ExecuteOperation {
        receiver: Address,
        token: Address,
        amount: i128,
        fee: i128,
        initiator: Address,
        params: Vec<u8>,
    },
    /// Nothing is left to do.
    Finish,
}

/// What the host replies.
#[derive(Clone, Copy, Debug, PartialEq, Eq, Structural)]
pub enum FlashLoanReply {
    Balance(i128),
    Done,
}

/// The fee for borrowing `amount`.
pub open spec fn flash_fee(s: State, amount: i128) -> int {
    math::bps_of(amount as int, s.flash_loan_fee() as int)
}

/// Why a pool with this balance does not lend, if it does not.
pub open spec fn lending_refusal(s: State, amount: i128, balance: i128) -> Option<LendingError> {
    if balance < amount {
        Some(LendingError::InsufficientLiquidity)
    } else if !math::fits_i128(amount * s.flash_loan_fee()) {
        Some(LendingError::FlashLoanFeeOverflow)
    } else if !math::fits_i128(balance + flash_fee(s, amount)) {
        Some(LendingError::RequiredBalanceOverflow)
    } else {
        None
    }
}

/// Why a flash loan does not go on from a reply, if it does not.
pub open spec fn resume_refusal(s: State, loan: FlashLoanView, reply: FlashLoanReply) -> Option<
    LendingError,
> {
    match (loan.stage, reply) {
        (FlashLoanStage::AwaitingBalance, FlashLoanReply::Balance(balance)) => lending_refusal(
            s,
            loan.amount,
            balance,
        ),
        (FlashLoanStage::AwaitingTransfer { .. }, FlashLoanReply::Done) => None,
        (FlashLoanStage::AwaitingCallback { .. }, FlashLoanReply::Done) => None,
        (
            FlashLoanStage::AwaitingRepayment { required_after, .. },
            FlashLoanReply::Balance(balance),
        ) => if balance < required_after {
            Some(LendingError::FlashLoanNotRepaid)
        } else {
            None
        },
        _ => Some(LendingError::UnexpectedReply),
    }
}

/// The stage to which a reply brings a flash loan.
pub open spec fn resumed_stage(s: State, loan: FlashLoanView, reply: FlashLoanReply) -> FlashLoanStage {
    match (loan.stage, reply) {
        (FlashLoanStage::AwaitingBalance, FlashLoanReply::Balance(balance)) => {
            FlashLoanStage::AwaitingTransfer {
                fee: flash_fee(s, loan.amount) as i128,
                required_after: (balance + flash_fee(s, loan.amount)) as i128,
            }
        },
        (FlashLoanStage::AwaitingTransfer { fee, required_after }, _) => {
            FlashLoanStage::AwaitingCallback { fee, required_after }
        },
        (FlashLoanStage::AwaitingCallback { fee, required_after }, _) => {
            FlashLoanStage::AwaitingRepayment { fee, required_after }
        },
        _ => FlashLoanStage::Settled,
    }
}

/// The state after a reply: a loan that is settled is published.
pub open spec fn resume_effect(s: State, loan: FlashLoanView) -> State {
    match loan.stage {
        FlashLoanStage::AwaitingRepayment { fee, .. } => State {
            events: s.events.push(
                Event::FlashLoan {
                    receiver: loan.receiver,
                    token: loan.token,
                    amount: loan.amount,
                    fee,
                },
            ),
            ..s
        },
        _ => s,
    }
}

impl FlashLoan {
    #[verifier::type_invariant]
    spec fn sound(self) -> bool {
        owes_amount_and_fee(self@)
    }

    /// What the loan waits for.
    pub fn stage(&self) -> (stage: FlashLoanStage)
        ensures
            stage == self@.stage,
            owes_amount_and_fee(self@),
    {
        proof {
            use_type_invariant(self);
        }
        self.stage
    }

    /// What the host is to do next.
    pub fn action(&self) -> (action: FlashLoanAction)
        ensures
            owes_amount_and_fee(self@),
            match self@.stage {
                FlashLoanStage::AwaitingBalance | FlashLoanStage::AwaitingRepayment { .. } => action
                    == (FlashLoanAction::QueryBalance { token: self@.token, holder: self@.pool }),
                FlashLoanStage::AwaitingTransfer { .. } => action == (FlashLoanAction::Transfer {
                    token: self@.token,
                    from: self@.pool,
                    to: self@.receiver,
                    amount: self@.amount,
                }),
                FlashLoanStage::AwaitingCallback { fee, .. } => {
                    &&& action is ExecuteOperation
                    &&& action->receiver == self@.receiver
                    &&& action->ExecuteOperation_token == self@.token
                    &&& action->ExecuteOperation_amount == self@.amount
                    &&& action->fee == fee
                    &&& action->initiator == self@.pool
                    &&& action->params@ == self@.params
                },
                FlashLoanStage::Settled => action == FlashLoanAction::Finish,
            },
    {
        proof {
            use_type_invariant(self);
        }
        match self.stage {
            FlashLoanStage::AwaitingBalance | FlashLoanStage::AwaitingRepayment { .. } => {
                FlashLoanAction::QueryBalance { token: self.token, holder: self.pool }
            },
            FlashLoanStage::AwaitingTransfer { .. } => FlashLoanAction::Transfer {
                token: self.token,
                from: self.pool,
                to: self.receiver,
                amount: self.amount,
            },
            FlashLoanStage::AwaitingCallback { fee, .. } => {
                let params = self.params.clone();
                assert(params@ =~= self.params@);
                FlashLoanAction::ExecuteOperation {
                    receiver: self.receiver,
                    token: self.token,
                    amount: self.amount,
                    fee,
                    initiator: self.pool,
                    params,
                }
            },
            FlashLoanStage::Settled => FlashLoanAction::Finish,
        }
    }
}

impl LendingContract {
    /// Starts a flash loan of `amount` of `token` to `receiver`.
    pub fn flash_loan(&self, receiver: Address, token: Address, amount: i128, params: Vec<u8>) -> (result:
        Result<FlashLoan, LendingError>)
        ensures
            amount <= 0 ==> result == Err::<FlashLoan, LendingError>(
                LendingError::FlashLoanAmountNotPositive,
            ),
            amount > 0 ==> result is Ok && result->Ok_0@ == (FlashLoanView {
                pool: self@.address,
                receiver,
                token,
                amount,
                params: params@,
                stage: FlashLoanStage::AwaitingBalance,
            }),
    {
        if amount <= 0 {
            return Err(LendingError::FlashLoanAmountNotPositive);
        }
        Ok(
            FlashLoan {
                pool: self.address,
                receiver,
                token,
                amount,
                params,
                stage: FlashLoanStage::AwaitingBalance,
            },
        )
    }

    /// Fee and required balance for lending out of a pool with this balance.
    fn lending_terms(&self, amount: i128, balance: i128) -> (result: Result<
        (i128, i128),
        LendingError,
    >)
        ensures
            match lending_refusal(self@, amount, balance) {
                Some(error) => result == Err::<(i128, i128), LendingError>(error),
                None => result is Ok && result->Ok_0.0 == flash_fee(self@, amount)
                    && result->Ok_0.1 == balance + flash_fee(self@, amount),
            },
    {
        if balance < amount {
            return Err(LendingError::InsufficientLiquidity);
        }
        let fee = match math::checked_bps_of(amount, self.get_flash_loan_fee_bps()) {
            Some(fee) => fee,
            None => return Err(LendingError::FlashLoanFeeOverflow),
        };
        match balance.checked_add(fee) {
            Some(required_after) => Ok((fee, required_after)),
            None => Err(LendingError::RequiredBalanceOverflow),
        }
    }

    /// Brings a flash loan on by one step.
    pub fn resume_flash_loan(&mut self, loan: FlashLoan, reply: FlashLoanReply) -> (result: Result<
        FlashLoan,
        LendingError,
    >)
        ensures
            match resume_refusal(old(self)@, loan@, reply) {
                Some(error) => {
                    &&& result == Err::<FlashLoan, LendingError>(error)
                    &&& final(self)@ == old(self)@
                },
                None => {
                    &&& result is Ok
                    &&& result->Ok_0@ == (FlashLoanView {
                        stage: resumed_stage(old(self)@, loan@, reply),
                        ..loan@
                    })
                    &&& final(self)@ == resume_effect(old(self)@, loan@)
                },
            },
    {
        proof {
            use_type_invariant(&loan);
        }
        let stage = match (loan.stage, reply) {
            (FlashLoanStage::AwaitingBalance, FlashLoanReply::Balance(balance)) => {
                proof {
                    let fee_bps = self@.flash_loan_fee() as int;
                    math::bps_share(loan.amount as int, fee_bps, fee_bps);
                }
                match self.lending_terms(loan.amount, balance) {
                    Ok((fee, required_after)) => FlashLoanStage::AwaitingTransfer {
                        fee,
                        required_after,
                    },
                    Err(error) => return Err(error),
                }
            },
            (FlashLoanStage::AwaitingTransfer { fee, required_after }, FlashLoanReply::Done) => {
                FlashLoanStage::AwaitingCallback { fee, required_after }
            },
            (FlashLoanStage::AwaitingCallback { fee, required_after }, FlashLoanReply::Done) => {
                FlashLoanStage::AwaitingRepayment { fee, required_after }
            },
            (
                FlashLoanStage::AwaitingRepayment { fee, required_after },
                FlashLoanReply::Balance(balance),
            ) => {
                if balance < required_after {
                    return Err(LendingError::FlashLoanNotRepaid);
                }
                self.events.push(
                    Event::FlashLoan {
                        receiver: loan.receiver,
                        token: loan.token,
                        amount: loan.amount,
                        fee,
                    },
                );
                FlashLoanStage::Settled
            },
            _ => return Err(LendingError::UnexpectedReply),
        };
        assert(self@ =~= resume_effect(old(self)@, loan@));
        Ok(FlashLoan { stage, ..loan })
    }
}

} // verus!

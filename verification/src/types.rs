//! Records, ledger keys and events of the lending contract.
use vstd::prelude::*;

verus! {

/// A network address, by the text that names it: an account or contract key
/// of 56 characters.
#[derive(Clone, Copy, Debug)]
pub struct Address {
    pub strkey: [u8; 56],
}

impl PartialEq for Address {
    fn eq(&self, other: &Address) -> (r: bool) {
        let mut i: usize = 0;
        while i < 56
            invariant
                i <= 56,
                forall|j: int| 0 <= j < i ==> self.strkey@[j] == other.strkey@[j],
            decreases 56 - i,
        {
            if self.strkey[i] != other.strkey[i] {
                return false;
            }
            i = i + 1;
        }
        assert(self.strkey =~= other.strkey);
        true
    }
}

impl vstd::std_specs::cmp::PartialEqSpecImpl for Address {
    open spec fn obeys_eq_spec() -> bool {
        true
    }

    open spec fn eq_spec(&self, other: &Address) -> bool {
        *self == *other
    }
}

impl Eq for Address {

}

/// Full lifecycle status of a loan.
#[derive(Clone, Copy, Debug, PartialEq, Eq, Structural)]
pub enum LoanStatus {
    Pending,
    Approved,
    Active,
    Repaid,
    Defaulted,
    Cancelled,
}

/// Interest rate model of a loan.
#[derive(Clone, Copy, Debug, PartialEq, Eq, Structural)]
pub enum InterestRateModel {
    Fixed,
    Floating,
}

/// A single loan record.
#[derive(Clone, Copy, Debug, PartialEq, Eq)]
pub struct LoanRecord {
    pub id: u32,
    pub borrower: Address,
    /// The contract's own address until a lender approves.
    pub lender: Address,
    /// Principal in stroops.
    pub amount: i128,
    pub duration_days: u32,
    /// Interest rate in basis points (1500 = 15.00 %).
    pub interest_rate_bps: u32,
    /// Principal and full interest in stroops.
    pub total_due: i128,
    /// Remaining balance that the borrower still owes.
    pub remaining_due: i128,
    /// Ledger timestamp of loan creation.
    pub created_at: u64,
    /// Ledger timestamp of the repayment deadline.
    pub due_at: u64,
    pub status: LoanStatus,
    /// Identifier of the escrow that holds the funds.
    pub escrow_id: u32,
    /// Platform fee taken out of the interest, in stroops.
    pub platform_fee: i128,
    pub collateral_asset: Address,
    /// Collateral in the asset's smallest unit.
    pub collateral_amount: i128,
    pub rate_model: InterestRateModel,
    /// Rate at loan creation in basis points.
    pub base_rate_bps: u32,
    /// Timestamp of the last change of rate or rate model.
    pub last_rate_update: u64,
}

/// A partial or full payment.
#[derive(Clone, Copy, Debug, PartialEq, Eq, Structural)]
pub struct PaymentRecord {
    pub loan_id: u32,
    pub amount: i128,
    pub paid_at: u64,
}

/// Ledger storage keys.
#[derive(Clone, Copy, Debug, PartialEq, Eq)]
pub enum DataKey {
    Loan(u32),
    LoanCount,
    BorrowerLoans(Address),
    LenderLoans(Address),
    /// Loan and payment index; the first payment of a loan has index 1.
    Payment(u32, u32),
    /// Number of payments, per loan.
    PaymentCount(u32),
    Admin,
    /// Platform fee in basis points of interest (100 = 1.00 %).
    PlatformFeeBps,
    /// Address of the governance contract, which alone may change that fee.
    Governance,
    /// A whitelisted collateral asset.
    WhitelistedAsset(Address),
    /// Flash-loan fee in basis points of the borrowed amount.
    FlashLoanFeeBps,
    /// Address of the multisig contract, the only caller that may whitelist
    /// assets, change the flash-loan fee and link governance.
    MultiSigAdmin,
    /// Timestamp of the last rate-model switch, per loan.
    RateSwitchCooldown(u32),
    /// Timestamp of the last approval, per loan.
    ApprovedAt(u32),
}

/// What the contract publishes when a call succeeds.
#[derive(Clone, Copy, Debug, PartialEq, Eq)]
pub enum Event {
    FlashLoan { receiver: Address, token: Address, amount: i128, fee: i128 },
    LoanRequested {
        loan_id: u32,
        borrower: Address,
        amount: i128,
        duration_days: u32,
        interest_rate_bps: u32,
        total_due: i128,
        due_at: u64,
    },
    LoanApproved { loan_id: u32, lender: Address, escrow_id: u32 },
    ApprovalRevoked { loan_id: u32 },
    LoanActivated { loan_id: u32 },
    PaymentRecorded { loan_id: u32, amount: i128, remaining_due: i128, status: LoanStatus },
    LoanDefaulted { loan_id: u32 },
    RateModelSwitched { loan_id: u32, rate_model: InterestRateModel, fee: i128 },
    RateUpdated { loan_id: u32, new_rate_bps: u32, remaining_due: i128 },
}

impl Event {
    /// The two topics under which the event is published.
    pub open spec fn spec_topics(self) -> (Seq<char>, Seq<char>) {
        match self {
            Event::FlashLoan { .. } => ("flash"@, "loan"@),
            Event::LoanRequested { .. } => ("loan"@, "request"@),
            Event::LoanApproved { .. } => ("loan"@, "approved"@),
            Event::ApprovalRevoked { .. } => ("loan"@, "revoked"@),
            Event::LoanActivated { .. } => ("loan"@, "active"@),
            Event::PaymentRecorded { .. } => ("loan"@, "payment"@),
            Event::LoanDefaulted { .. } => ("loan"@, "default"@),
            Event::RateModelSwitched { .. } => ("loan"@, "rswitch"@),
            Event::RateUpdated { .. } => ("loan"@, "ratechg"@),
        }
    }

    /// The two topics under which the event is published.
    pub fn topics(&self) -> (topics: (&'static str, &'static str))
        ensures
            topics.0@ == self.spec_topics().0,
            topics.1@ == self.spec_topics().1,
            match self {
                Event::FlashLoan { .. } => topics.0@ == "flash"@ && topics.1@ == "loan"@,
                Event::LoanRequested { .. } => topics.0@ == "loan"@ && topics.1@ == "request"@,
                Event::LoanApproved { .. } => topics.0@ == "loan"@ && topics.1@ == "approved"@,
                Event::ApprovalRevoked { .. } => topics.0@ == "loan"@ && topics.1@ == "revoked"@,
                Event::LoanActivated { .. } => topics.0@ == "loan"@ && topics.1@ == "active"@,
                Event::PaymentRecorded { .. } => topics.0@ == "loan"@ && topics.1@ == "payment"@,
                Event::LoanDefaulted { .. } => topics.0@ == "loan"@ && topics.1@ == "default"@,
                Event::RateModelSwitched { .. } => topics.0@ == "loan"@ && topics.1@ == "rswitch"@,
                Event::RateUpdated { .. } => topics.0@ == "loan"@ && topics.1@ == "ratechg"@,
            },
    {
        match self {
            Event::FlashLoan { .. } => ("flash", "loan"),
            Event::LoanRequested { .. } => ("loan", "request"),
            Event::LoanApproved { .. } => ("loan", "approved"),
            Event::ApprovalRevoked { .. } => ("loan", "revoked"),
            Event::LoanActivated { .. } => ("loan", "active"),
            Event::PaymentRecorded { .. } => ("loan", "payment"),
            Event::LoanDefaulted { .. } => ("loan", "default"),
            Event::RateModelSwitched { .. } => ("loan", "rswitch"),
            Event::RateUpdated { .. } => ("loan", "ratechg"),
        }
    }
}

} // verus!

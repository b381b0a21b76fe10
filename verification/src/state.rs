//! The contract state and its mathematical view.
use crate::entries::Entries;
use crate::types::{Address, DataKey, Event, LoanRecord, PaymentRecord};
use vstd::prelude::*;

verus! {

/// Platform fee until governance changes it: 1 % of interest.
pub const DEFAULT_PLATFORM_FEE_BPS: u32 = 100;

/// Ceiling of the platform fee: 10 % of interest, even by a passed proposal.
pub const MAX_PLATFORM_FEE_BPS: u32 = 1000;

/// Flash-loan fee until it is changed: 0.09 % of the borrowed amount.
pub const DEFAULT_FLASH_LOAN_FEE_BPS: u32 = 9;

/// Ceiling of the flash-loan fee: 5 % of the borrowed amount.
pub const MAX_FLASH_LOAN_FEE_BPS: u32 = 500;

/// Fee for switching rate models: 0.5 % of the remaining debt.
pub const RATE_SWITCH_FEE_BPS: u32 = 50;

/// Time between two rate-model switches of a loan: 24 hours.
pub const RATE_SWITCH_COOLDOWN_SECS: u64 = 86_400;

/// Time in which a lender can take an approval back: 1 hour.
pub const REVOCATION_WINDOW_SECS: u64 = 3_600;

/// Longest duration of a loan.
pub const MAX_DURATION_DAYS: u32 = 365;

/// What a call sees of the ledger that runs it.
pub struct Env {
    /// Time of the ledger, in seconds.
    pub timestamp: u64,
    /// The addresses that authorised this call.
    pub authorizers: Vec<Address>,
}

/// The view of an [`Env`].
pub struct Context {
    pub timestamp: u64,
    pub authorizers: Set<Address>,
}

impl View for Env {
    type V = Context;

    open spec fn view(&self) -> Context {
        Context { timestamp: self.timestamp, authorizers: self.authorizers@.to_set() }
    }
}

impl Env {
    /// Whether `address` authorised this call.
    pub fn authorized_by(&self, address: &Address) -> (r: bool)
        ensures
            r == self@.authorizers.contains(*address),
    {
        let mut i: usize = 0;
        while i < self.authorizers.len()
            invariant
                i <= self.authorizers.len(),
                forall|j: int| 0 <= j < i ==> self.authorizers@[j] != *address,
            decreases self.authorizers.len() - i,
        {
            if self.authorizers[i] == *address {
                assert(self.authorizers@.contains(self.authorizers@[i as int]));
                return true;
            }
            i = i + 1;
        }
        false
    }
}

/// The ledger entries of the contract, and the events of the current call.
///
/// An entry that was never written is `None`, or absent from its map. Each
/// field is stored under the [`DataKey`] that bears its name.
pub struct LendingContract {
    /// The contract's own address.
    pub address: Address,
    pub admin: Option<Address>,
    pub multisig_admin: Option<Address>,
    pub governance: Option<Address>,
    pub platform_fee_bps: Option<u32>,
    pub flash_loan_fee_bps: Option<u32>,
    pub loan_count: Option<u32>,
    pub whitelisted_assets: Entries<Address, bool>,
    pub loans: Entries<u32, LoanRecord>,
    pub borrower_loans: Entries<Address, Vec<u32>>,
    pub lender_loans: Entries<Address, Vec<u32>>,
    pub payment_counts: Entries<u32, u32>,
    /// Payments under their loan and index.
    pub payments: Entries<(u32, u32), PaymentRecord>,
    pub rate_switch_cooldowns: Entries<u32, u64>,
    pub approved_at: Entries<u32, u64>,
    /// Events, in the order in which they are to be published.
    pub events: Vec<Event>,
}

/// The view of a [`LendingContract`].
#[verifier::ext_equal]
pub struct State {
    pub address: Address,
    pub admin: Option<Address>,
    pub multisig_admin: Option<Address>,
    pub governance: Option<Address>,
    pub platform_fee_bps: Option<u32>,
    pub flash_loan_fee_bps: Option<u32>,
    pub loan_count: Option<u32>,
    pub whitelisted_assets: Map<Address, bool>,
    pub loans: Map<u32, LoanRecord>,
    pub borrower_loans: Map<Address, Seq<u32>>,
    pub lender_loans: Map<Address, Seq<u32>>,
    pub payment_counts: Map<u32, u32>,
    pub payments: Map<(u32, u32), PaymentRecord>,
    pub rate_switch_cooldowns: Map<u32, u64>,
    pub approved_at: Map<u32, u64>,
    pub events: Seq<Event>,
}

/// The lists of loan ids, as sequences.
pub open spec fn id_lists(lists: Map<Address, Vec<u32>>) -> Map<Address, Seq<u32>> {
    lists.map_values(|ids: Vec<u32>| ids@)
}

impl View for LendingContract {
    type V = State;

    open spec fn view(&self) -> State {
        State {
            address: self.address,
            admin: self.admin,
            multisig_admin: self.multisig_admin,
            governance: self.governance,
            platform_fee_bps: self.platform_fee_bps,
            flash_loan_fee_bps: self.flash_loan_fee_bps,
            loan_count: self.loan_count,
            whitelisted_assets: self.whitelisted_assets@,
            loans: self.loans@,
            borrower_loans: id_lists(self.borrower_loans@),
            lender_loans: id_lists(self.lender_loans@),
            payment_counts: self.payment_counts@,
            payments: self.payments@,
            rate_switch_cooldowns: self.rate_switch_cooldowns@,
            approved_at: self.approved_at@,
            events: self.events@,
        }
    }
}

/// A contract that was deployed at `address` and never called.
pub open spec fn deployed(address: Address) -> State {
    State {
        address,
        admin: None,
        multisig_admin: None,
        governance: None,
        platform_fee_bps: None,
        flash_loan_fee_bps: None,
        loan_count: None,
        whitelisted_assets: Map::empty(),
        loans: Map::empty(),
        borrower_loans: Map::empty(),
        lender_loans: Map::empty(),
        payment_counts: Map::empty(),
        payments: Map::empty(),
        rate_switch_cooldowns: Map::empty(),
        approved_at: Map::empty(),
        events: Seq::empty(),
    }
}

impl State {
    /// The ledger holds an entry under `key`.
    pub open spec fn has(self, key: DataKey) -> bool {
        match key {
            DataKey::Loan(loan_id) => self.loans.contains_key(loan_id),
            DataKey::LoanCount => self.loan_count is Some,
            DataKey::BorrowerLoans(borrower) => self.borrower_loans.contains_key(borrower),
            DataKey::LenderLoans(lender) => self.lender_loans.contains_key(lender),
            DataKey::Payment(loan_id, index) => self.payments.contains_key((loan_id, index)),
            DataKey::PaymentCount(loan_id) => self.payment_counts.contains_key(loan_id),
            DataKey::Admin => self.admin is Some,
            DataKey::PlatformFeeBps => self.platform_fee_bps is Some,
            DataKey::Governance => self.governance is Some,
            DataKey::WhitelistedAsset(asset) => self.whitelisted_assets.contains_key(asset),
            DataKey::FlashLoanFeeBps => self.flash_loan_fee_bps is Some,
            DataKey::MultiSigAdmin => self.multisig_admin is Some,
            DataKey::RateSwitchCooldown(loan_id) => self.rate_switch_cooldowns.contains_key(loan_id),
            DataKey::ApprovedAt(loan_id) => self.approved_at.contains_key(loan_id),
        }
    }

    /// The number of loans that were ever requested.
    pub open spec fn count(self) -> u32 {
        match self.loan_count {
            Some(count) => count,
            None => 0,
        }
    }

    /// The platform fee in force.
    pub open spec fn platform_fee(self) -> u32 {
        match self.platform_fee_bps {
            Some(fee_bps) => fee_bps,
            None => DEFAULT_PLATFORM_FEE_BPS,
        }
    }

    /// The flash-loan fee in force.
    pub open spec fn flash_loan_fee(self) -> u32 {
        match self.flash_loan_fee_bps {
            Some(fee_bps) => fee_bps,
            None => DEFAULT_FLASH_LOAN_FEE_BPS,
        }
    }

    /// The number of payments recorded for a loan.
    pub open spec fn payment_count(self, loan_id: u32) -> u32 {
        if self.payment_counts.contains_key(loan_id) {
            self.payment_counts[loan_id]
        } else {
            0
        }
    }
}

/// The loan ids listed under an address, none if there is no list.
pub open spec fn ids_of(lists: Map<Address, Seq<u32>>, address: Address) -> Seq<u32> {
    if lists.contains_key(address) {
        lists[address]
    } else {
        Seq::empty()
    }
}

impl LendingContract {
    /// A contract deployed at `address`, with no ledger entry yet.
    pub fn new(address: Address) -> (contract: LendingContract)
        ensures
            contract@ == deployed(address),
    {
        let contract = LendingContract {
            address,
            admin: None,
            multisig_admin: None,
            governance: None,
            platform_fee_bps: None,
            flash_loan_fee_bps: None,
            loan_count: None,
            whitelisted_assets: Entries::new(),
            loans: Entries::new(),
            borrower_loans: Entries::new(),
            lender_loans: Entries::new(),
            payment_counts: Entries::new(),
            payments: Entries::new(),
            rate_switch_cooldowns: Entries::new(),
            approved_at: Entries::new(),
            events: Vec::new(),
        };
        assert(contract@ =~= deployed(address));
        contract
    }

    /// Whether the ledger holds an entry under `key`.
    pub fn has(&self, key: &DataKey) -> (r: bool)
        ensures
            r == self@.has(*key),
    {
        match key {
            DataKey::Loan(loan_id) => self.loans.has(loan_id),
            DataKey::LoanCount => self.loan_count.is_some(),
            DataKey::BorrowerLoans(borrower) => self.borrower_loans.has(borrower),
            DataKey::LenderLoans(lender) => self.lender_loans.has(lender),
            DataKey::Payment(loan_id, index) => self.payments.has(&(*loan_id, *index)),
            DataKey::PaymentCount(loan_id) => self.payment_counts.has(loan_id),
            DataKey::Admin => self.admin.is_some(),
            DataKey::PlatformFeeBps => self.platform_fee_bps.is_some(),
            DataKey::Governance => self.governance.is_some(),
            DataKey::WhitelistedAsset(asset) => self.whitelisted_assets.has(asset),
            DataKey::FlashLoanFeeBps => self.flash_loan_fee_bps.is_some(),
            DataKey::MultiSigAdmin => self.multisig_admin.is_some(),
            DataKey::RateSwitchCooldown(loan_id) => self.rate_switch_cooldowns.has(loan_id),
            DataKey::ApprovedAt(loan_id) => self.approved_at.has(loan_id),
        }
    }
}

} // verus!

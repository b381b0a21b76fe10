//! Who may configure the contract, and how.
use lending::state::{Env, LendingContract};
use lending::types::{Address, DataKey};
use lending::LendingError;

fn named(kind: u8, n: u8) -> Address {
    let mut strkey = [b'A'; 56];
    strkey[0] = kind;
    strkey[55] = n;
    Address { strkey }
}

fn account(n: u8) -> Address {
    named(b'G', n)
}

fn by(who: Address) -> Env {
    Env { timestamp: 1_000, authorizers: vec![who] }
}

const ADMIN: u8 = 1;
const MULTISIG: u8 = 2;
const GOVERNANCE: u8 = 3;
const STRANGER: u8 = 9;

fn configured() -> LendingContract {
    let mut c = LendingContract::new(named(b'C', 0));
    c.initialize(account(ADMIN)).unwrap();
    c.set_multisig_admin(&by(account(ADMIN)), account(ADMIN), account(MULTISIG)).unwrap();
    c.set_governance(&by(account(MULTISIG)), account(MULTISIG), account(GOVERNANCE)).unwrap();
    c
}

#[test]
fn addresses_compare_by_their_text() {
    assert!(account(1) == account(1));
    assert!(account(1) != account(2));
    assert!(named(b'G', 1) != named(b'C', 1));
}

#[test]
fn a_new_contract_holds_nothing() {
    let c = LendingContract::new(named(b'C', 0));
    assert_eq!(c.get_admin(), Err(LendingError::NotInitialised));
    assert_eq!(c.get_multisig_admin(), Err(LendingError::MultisigNotConfigured));
    assert_eq!(c.get_governance(), Err(LendingError::GovernanceNotConfigured));
    assert_eq!(c.get_loan_count(), 0);
    assert_eq!(c.get_platform_fee_bps(), 100);
    assert_eq!(c.get_flash_loan_fee_bps(), 9);
    assert!(!c.has(&DataKey::Admin));
    assert!(!c.has(&DataKey::LoanCount));
    assert!(!c.has(&DataKey::Loan(1)));
    assert!(!c.has(&DataKey::Payment(1, 1)));
    assert!(!c.has(&DataKey::PlatformFeeBps));
}

#[test]
fn initialize_names_the_admin_once() {
    let mut c = LendingContract::new(named(b'C', 0));
    assert_eq!(c.initialize(account(ADMIN)), Ok(()));
    assert_eq!(c.get_admin(), Ok(account(ADMIN)));
    assert!(c.has(&DataKey::LoanCount));
    assert!(c.is_asset_whitelisted(account(ADMIN)));
    assert!(!c.is_asset_whitelisted(account(STRANGER)));
    assert_eq!(c.initialize(account(STRANGER)), Err(LendingError::AlreadyInitialised));
    assert_eq!(c.get_admin(), Ok(account(ADMIN)));
    assert!(!c.is_asset_whitelisted(account(STRANGER)));
}

#[test]
fn multisig_is_linked_once_by_the_admin() {
    let mut c = LendingContract::new(named(b'C', 0));
    let admin = account(ADMIN);
    assert_eq!(
        c.set_multisig_admin(&by(admin), admin, account(MULTISIG)),
        Err(LendingError::NotInitialised)
    );
    c.initialize(admin).unwrap();
    assert_eq!(
        c.set_multisig_admin(&by(account(STRANGER)), admin, account(MULTISIG)),
        Err(LendingError::MissingAuthorisation)
    );
    assert_eq!(
        c.set_multisig_admin(&by(account(STRANGER)), account(STRANGER), account(MULTISIG)),
        Err(LendingError::CallerNotAdmin)
    );
    assert_eq!(c.set_multisig_admin(&by(admin), admin, account(MULTISIG)), Ok(()));
    assert_eq!(c.get_multisig_admin(), Ok(account(MULTISIG)));
    assert_eq!(
        c.set_multisig_admin(&by(admin), admin, account(STRANGER)),
        Err(LendingError::MultisigAlreadyConfigured)
    );
    assert_eq!(c.get_multisig_admin(), Ok(account(MULTISIG)));
}

#[test]
fn only_multisig_whitelists_assets() {
    let mut c = LendingContract::new(named(b'C', 0));
    let asset = named(b'C', 7);
    c.initialize(account(ADMIN)).unwrap();
    assert_eq!(
        c.whitelist_asset(&by(account(ADMIN)), account(ADMIN), asset),
        Err(LendingError::MultisigNotConfigured)
    );
    let mut c = configured();
    assert_eq!(
        c.whitelist_asset(&by(account(ADMIN)), account(ADMIN), asset),
        Err(LendingError::CallerNotMultisig)
    );
    assert_eq!(
        c.whitelist_asset(&by(account(ADMIN)), account(MULTISIG), asset),
        Err(LendingError::MissingAuthorisation)
    );
    assert!(!c.is_asset_whitelisted(asset));
    assert_eq!(c.whitelist_asset(&by(account(MULTISIG)), account(MULTISIG), asset), Ok(()));
    assert!(c.is_asset_whitelisted(asset));
    assert_eq!(c.whitelist_asset(&by(account(MULTISIG)), account(MULTISIG), asset), Ok(()));
    assert!(c.is_asset_whitelisted(asset));
    assert!(c.is_asset_whitelisted(account(ADMIN)));
    assert_eq!(c.whitelisted_assets.get(&asset), Some(&true));
    assert_eq!(c.whitelisted_assets.get(&account(ADMIN)), Some(&true));
}

#[test]
fn governance_is_linked_once_by_multisig() {
    let mut c = configured();
    assert_eq!(c.get_governance(), Ok(account(GOVERNANCE)));
    assert_eq!(
        c.set_governance(&by(account(ADMIN)), account(ADMIN), account(STRANGER)),
        Err(LendingError::CallerNotMultisig)
    );
    assert_eq!(
        c.set_governance(&by(account(MULTISIG)), account(MULTISIG), account(STRANGER)),
        Err(LendingError::GovernanceAlreadyConfigured)
    );
    assert_eq!(c.get_governance(), Ok(account(GOVERNANCE)));
}

#[test]
fn only_governance_changes_the_platform_fee() {
    let mut c = LendingContract::new(named(b'C', 0));
    assert_eq!(
        c.set_platform_fee_bps(&by(account(GOVERNANCE)), account(GOVERNANCE), 5),
        Err(LendingError::GovernanceNotConfigured)
    );
    let mut c = configured();
    assert_eq!(
        c.set_platform_fee_bps(&by(account(ADMIN)), account(ADMIN), 5),
        Err(LendingError::CallerNotGovernance)
    );
    assert_eq!(
        c.set_platform_fee_bps(&by(account(ADMIN)), account(GOVERNANCE), 5),
        Err(LendingError::MissingAuthorisation)
    );
    assert_eq!(
        c.set_platform_fee_bps(&by(account(GOVERNANCE)), account(GOVERNANCE), 1001),
        Err(LendingError::PlatformFeeTooHigh)
    );
    assert_eq!(c.get_platform_fee_bps(), 100);
    assert_eq!(c.set_platform_fee_bps(&by(account(GOVERNANCE)), account(GOVERNANCE), 1000), Ok(()));
    assert_eq!(c.get_platform_fee_bps(), 1000);
    assert_eq!(c.set_platform_fee_bps(&by(account(GOVERNANCE)), account(GOVERNANCE), 0), Ok(()));
    assert_eq!(c.get_platform_fee_bps(), 0);
}

#[test]
fn only_multisig_changes_the_flash_loan_fee() {
    let mut c = configured();
    assert_eq!(
        c.set_flash_loan_fee_bps(&by(account(ADMIN)), account(ADMIN), 5),
        Err(LendingError::CallerNotMultisig)
    );
    assert_eq!(
        c.set_flash_loan_fee_bps(&by(account(MULTISIG)), account(MULTISIG), 501),
        Err(LendingError::FlashLoanFeeTooHigh)
    );
    assert_eq!(c.get_flash_loan_fee_bps(), 9);
    assert_eq!(c.set_flash_loan_fee_bps(&by(account(MULTISIG)), account(MULTISIG), 500), Ok(()));
    assert_eq!(c.get_flash_loan_fee_bps(), 500);
    assert!(c.events.is_empty());
}

#[test]
fn refusals_have_messages() {
    assert_eq!(LendingError::AlreadyInitialised.message(), "Contract already initialised");
    assert_eq!(
        LendingError::CallerNotGovernance.message(),
        "Unauthorised: only Governance can change the platform fee"
    );
    assert_eq!(LendingError::InterestRateOverflow.message(), "Overflow: principal \u{d7} rate_bps");
    assert_eq!(
        LendingError::SwitchCooldown.message(),
        "Rate switch cooldown not elapsed (24h required)"
    );
}

//! Configuration of the contract, and who may change it.
use crate::errors::LendingError;
use crate::model;
use crate::state::{Env, LendingContract, MAX_FLASH_LOAN_FEE_BPS, MAX_PLATFORM_FEE_BPS};
use crate::types::{Address, DataKey};
use vstd::prelude::*;

verus! {

impl LendingContract {
    /// Refuses a caller that is not the admin, or did not authorise the call.
    pub(crate) fn assert_admin(&self, env: &Env, caller: &Address) -> (refusal: Option<LendingError>)
        ensures
            refusal == model::admin_refusal(self@, env@, *caller),
    {
        if !env.authorized_by(caller) {
            return Some(LendingError::MissingAuthorisation);
        }
        match self.admin {
            None => Some(LendingError::NotInitialised),
            Some(admin) => if admin != *caller {
                Some(LendingError::CallerNotAdmin)
            } else {
                None
            },
        }
    }

    /// Refuses a caller that is not the multisig contract, or did not
    /// authorise the call.
    fn assert_multisig_admin(&self, env: &Env, caller: &Address) -> (refusal: Option<LendingError>)
        ensures
            refusal == model::multisig_refusal(self@, env@, *caller),
    {
        if !env.authorized_by(caller) {
            return Some(LendingError::MissingAuthorisation);
        }
        match self.multisig_admin {
            None => Some(LendingError::MultisigNotConfigured),
            Some(multisig) => if multisig != *caller {
                Some(LendingError::CallerNotMultisig)
            } else {
                None
            },
        }
    }

    /// Names the admin, once, and whitelists the admin's address as the
    /// default collateral asset.
    pub fn initialize(&mut self, admin: Address) -> (result: Result<(), LendingError>)
        ensures
            model::outcome(
                model::initialize_refusal(old(self)@),
                old(self)@,
                (),
                model::initialize_effect(old(self)@, admin),
                result,
                final(self)@,
            ),
    {
        if self.has(&DataKey::Admin) {
            return Err(LendingError::AlreadyInitialised);
        }
        self.admin = Some(admin);
        self.loan_count = Some(0);
        self.whitelisted_assets.set(admin, true);
        assert(self@ =~= model::initialize_effect(old(self)@, admin));
        Ok(())
    }

    /// Links the multisig contract (admin only, once). From then on it is the
    /// only caller of `whitelist_asset`, `set_flash_loan_fee_bps` and
    /// `set_governance`; there is no way to replace it.
    pub fn set_multisig_admin(&mut self, env: &Env, admin: Address, multisig: Address) -> (result:
        Result<(), LendingError>)
        ensures
            model::outcome(
                model::set_multisig_admin_refusal(old(self)@, env@, admin),
                old(self)@,
                (),
                model::set_multisig_admin_effect(old(self)@, multisig),
                result,
                final(self)@,
            ),
    {
        if let Some(error) = self.assert_admin(env, &admin) {
            return Err(error);
        }
        if self.has(&DataKey::MultiSigAdmin) {
            return Err(LendingError::MultisigAlreadyConfigured);
        }
        self.multisig_admin = Some(multisig);
        assert(self@ =~= model::set_multisig_admin_effect(old(self)@, multisig));
        Ok(())
    }

    /// Whitelists a collateral asset (multisig only).
    pub fn whitelist_asset(&mut self, env: &Env, caller: Address, asset: Address) -> (result: Result<
        (),
        LendingError,
    >)
        ensures
            model::outcome(
                model::multisig_refusal(old(self)@, env@, caller),
                old(self)@,
                (),
                model::whitelist_asset_effect(old(self)@, asset),
                result,
                final(self)@,
            ),
    {
        if let Some(error) = self.assert_multisig_admin(env, &caller) {
            return Err(error);
        }
        self.whitelisted_assets.set(asset, true);
        assert(self@ =~= model::whitelist_asset_effect(old(self)@, asset));
        Ok(())
    }

    /// Links the governance contract (multisig only, once). From then on the
    /// platform fee can only be changed by that contract.
    pub fn set_governance(&mut self, env: &Env, caller: Address, governance: Address) -> (result:
        Result<(), LendingError>)
        ensures
            model::outcome(
                model::set_governance_refusal(old(self)@, env@, caller),
                old(self)@,
                (),
                model::set_governance_effect(old(self)@, governance),
                result,
                final(self)@,
            ),
    {
        if let Some(error) = self.assert_multisig_admin(env, &caller) {
            return Err(error);
        }
        if self.has(&DataKey::Governance) {
            return Err(LendingError::GovernanceAlreadyConfigured);
        }
        self.governance = Some(governance);
        assert(self@ =~= model::set_governance_effect(old(self)@, governance));
        Ok(())
    }

    /// Changes the platform fee. Only the linked governance contract may do
    /// so, and only up to [`MAX_PLATFORM_FEE_BPS`].
    pub fn set_platform_fee_bps(&mut self, env: &Env, caller: Address, new_fee_bps: u32) -> (result:
        Result<(), LendingError>)
        ensures
            model::outcome(
                model::set_platform_fee_bps_refusal(old(self)@, env@, caller, new_fee_bps),
                old(self)@,
                (),
                model::set_platform_fee_bps_effect(old(self)@, new_fee_bps),
                result,
                final(self)@,
            ),
    {
        if !env.authorized_by(&caller) {
            return Err(LendingError::MissingAuthorisation);
        }
        let governance = match self.governance {
            Some(governance) => governance,
            None => return Err(LendingError::GovernanceNotConfigured),
        };
        if caller != governance {
            return Err(LendingError::CallerNotGovernance);
        }
        if new_fee_bps > MAX_PLATFORM_FEE_BPS {
            return Err(LendingError::PlatformFeeTooHigh);
        }
        self.platform_fee_bps = Some(new_fee_bps);
        assert(self@ =~= model::set_platform_fee_bps_effect(old(self)@, new_fee_bps));
        Ok(())
    }

    /// Changes the flash-loan fee (multisig only), up to
    /// [`MAX_FLASH_LOAN_FEE_BPS`].
    pub fn set_flash_loan_fee_bps(&mut self, env: &Env, caller: Address, new_fee_bps: u32) -> (result:
        Result<(), LendingError>)
        ensures
            model::outcome(
                model::set_flash_loan_fee_bps_refusal(old(self)@, env@, caller, new_fee_bps),
                old(self)@,
                (),
                model::set_flash_loan_fee_bps_effect(old(self)@, new_fee_bps),
                result,
                final(self)@,
            ),
    {
        if let Some(error) = self.assert_multisig_admin(env, &caller) {
            return Err(error);
        }
        if new_fee_bps > MAX_FLASH_LOAN_FEE_BPS {
            return Err(LendingError::FlashLoanFeeTooHigh);
        }
        self.flash_loan_fee_bps = Some(new_fee_bps);
        assert(self@ =~= model::set_flash_loan_fee_bps_effect(old(self)@, new_fee_bps));
        Ok(())
    }
}

} // verus!

//! Sequences of calls, and the states they lead to.
use crate::errors::LendingError;
use crate::flash;
use crate::flash::{FlashLoanReply, FlashLoanView};
use crate::model;
use crate::model::LoanRequest;
use crate::state;
use crate::state::{Context, State};
use crate::types::Address;
use vstd::prelude::*;

verus! {

/// A call of one of the entry points that can change the ledger.
pub enum Call {
    Initialize { admin: Address },
    SetMultisigAdmin { admin: Address, multisig: Address },
    WhitelistAsset { caller: Address, asset: Address },
    SetGovernance { caller: Address, governance: Address },
    SetPlatformFeeBps { caller: Address, new_fee_bps: u32 },
    SetFlashLoanFeeBps { caller: Address, new_fee_bps: u32 },
    CreateLoanRequest { request: LoanRequest },
    ApproveLoan { lender: Address, loan_id: u32, escrow_id: u32 },
    RevokeApproval { lender: Address, loan_id: u32 },
    ActivateLoan { caller: Address, loan_id: u32 },
    RecordPayment { caller: Address, loan_id: u32, amount: i128 },
    MarkDefaulted { caller: Address, loan_id: u32 },
    SwitchRateModel { borrower: Address, loan_id: u32 },
    UpdateFloatingRate { caller: Address, loan_id: u32, new_rate_bps: u32 },
    ResumeFlashLoan { loan: FlashLoanView, reply: FlashLoanReply },
}

/// The first reason to refuse a call.
pub open spec fn refusal(s: State, ctx: Context, call: Call) -> Option<LendingError> {
    match call {
        Call::Initialize { .. } => model::initialize_refusal(s),
        Call::SetMultisigAdmin { admin, .. } => model::set_multisig_admin_refusal(s, ctx, admin),
        Call::WhitelistAsset { caller, .. } => model::multisig_refusal(s, ctx, caller),
        Call::SetGovernance { caller, .. } => model::set_governance_refusal(s, ctx, caller),
        Call::SetPlatformFeeBps { caller, new_fee_bps } => model::set_platform_fee_bps_refusal(
            s,
            ctx,
            caller,
            new_fee_bps,
        ),
        Call::SetFlashLoanFeeBps { caller, new_fee_bps } => model::set_flash_loan_fee_bps_refusal(
            s,
            ctx,
            caller,
            new_fee_bps,
        ),
        Call::CreateLoanRequest { request } => model::create_loan_request_refusal(s, ctx, request),
        Call::ApproveLoan { lender, loan_id, .. } => model::approve_loan_refusal(
            s,
            ctx,
            lender,
            loan_id,
        ),
        Call::RevokeApproval { lender, loan_id } => model::revoke_approval_refusal(
            s,
            ctx,
            lender,
            loan_id,
        ),
        Call::ActivateLoan { caller, loan_id } => model::activate_loan_refusal(
            s,
            ctx,
            caller,
            loan_id,
        ),
        Call::RecordPayment { caller, loan_id, amount } => model::record_payment_refusal(
            s,
            ctx,
            caller,
            loan_id,
            amount,
        ),
        Call::MarkDefaulted { caller, loan_id } => model::mark_defaulted_refusal(
            s,
            ctx,
            caller,
            loan_id,
        ),
        Call::SwitchRateModel { borrower, loan_id } => model::switch_rate_model_refusal(
            s,
            ctx,
            borrower,
            loan_id,
        ),
        Call::UpdateFloatingRate { caller, loan_id, new_rate_bps } => {
            model::update_floating_rate_refusal(s, ctx, caller, loan_id, new_rate_bps)
        },
        Call::ResumeFlashLoan { loan, reply } => flash::resume_refusal(s, loan, reply),
    }
}

/// The state that a call leads to when it is not refused.
pub open spec fn effect(s: State, ctx: Context, call: Call) -> State {
    match call {
        Call::Initialize { admin } => model::initialize_effect(s, admin),
        Call::SetMultisigAdmin { multisig, .. } => model::set_multisig_admin_effect(s, multisig),
        Call::WhitelistAsset { asset, .. } => model::whitelist_asset_effect(s, asset),
        Call::SetGovernance { governance, .. } => model::set_governance_effect(s, governance),
        Call::SetPlatformFeeBps { new_fee_bps, .. } => model::set_platform_fee_bps_effect(
            s,
            new_fee_bps,
        ),
        Call::SetFlashLoanFeeBps { new_fee_bps, .. } => model::set_flash_loan_fee_bps_effect(
            s,
            new_fee_bps,
        ),
        Call::CreateLoanRequest { request } => model::create_loan_request_effect(s, ctx, request),
        Call::ApproveLoan { lender, loan_id, escrow_id } => model::approve_loan_effect(
            s,
            ctx,
            lender,
            loan_id,
            escrow_id,
        ),
        Call::RevokeApproval { loan_id, .. } => model::revoke_approval_effect(s, loan_id),
        Call::ActivateLoan { loan_id, .. } => model::activate_loan_effect(s, loan_id),
        Call::RecordPayment { loan_id, amount, .. } => model::record_payment_effect(
            s,
            ctx,
            loan_id,
            amount,
        ),
        Call::MarkDefaulted { loan_id, .. } => model::mark_defaulted_effect(s, loan_id),
        Call::SwitchRateModel { loan_id, .. } => model::switch_rate_model_effect(s, ctx, loan_id),
        Call::UpdateFloatingRate { loan_id, new_rate_bps, .. } => {
            model::update_floating_rate_effect(s, ctx, loan_id, new_rate_bps)
        },
        Call::ResumeFlashLoan { loan, .. } => flash::resume_effect(s, loan),
    }
}

/// The call is not refused.
pub open spec fn accepted(s: State, ctx: Context, call: Call) -> bool {
    refusal(s, ctx, call) is None
}

/// The state after a call.
pub open spec fn next(s: State, ctx: Context, call: Call) -> State {
    if accepted(s, ctx, call) {
        effect(s, ctx, call)
    } else {
        s
    }
}

/// The state of a contract deployed at `address`, after these calls.
pub open spec fn run(address: Address, history: Seq<(Context, Call)>) -> State
    decreases history.len(),
{
    if history.len() == 0 {
        state::deployed(address)
    } else {
        next(run(address, history.drop_last()), history.last().0, history.last().1)
    }
}

} // verus!

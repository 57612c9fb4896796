//! Scheduled outbound transfers.
//!
//! Escrow operations never perform a transfer themselves: every local state
//! mutation is applied first, and the operation returns a plan describing
//! the payouts to dispatch.  This makes the optimistic, non-compensating
//! model explicit: a transfer failure cannot retroactively undo a local
//! mutation, because finality flags are set before anything is dispatched.

use vstd::prelude::*;

verus! {

/// One instruction to the external fungible-asset contract.
#[derive(Clone, Debug)]
pub struct TokenTransfer {
    /// Account of the asset contract to instruct.
    pub token_id: String,
    /// Account the stated amount is sent to.
    pub receiver_id: String,
    /// Amount of the asset to transfer.
    pub amount: u128,
}

/// One native-currency transfer.
#[derive(Clone, Debug)]
pub struct DepositTransfer {
    /// Account the deposit share is sent to.
    pub receiver_id: String,
    /// Amount of native currency to transfer.
    pub amount: u128,
}

/// The compound payout an escrow operation schedules: an asset transfer to
/// a recipient and the safety-deposit share to the caller, dispatched
/// together.
#[derive(Clone, Debug)]
pub struct TransferPlan {
    /// Asset transfer to the recipient of this operation.
    pub token: TokenTransfer,
    /// Safety-deposit share owed to the caller.
    pub deposit: DepositTransfer,
}

/// Builds the compound payout: `amount` of the asset to `recipient`, and
/// `deposit_amount` of native currency to `caller`.
pub fn plan_compound_payout(
    token_id: &String,
    recipient: &String,
    amount: u128,
    caller: &String,
    deposit_amount: u128,
) -> (plan: TransferPlan)
    ensures
        plan.token == (TokenTransfer {
            token_id: *token_id,
            receiver_id: *recipient,
            amount,
        }),
        plan.deposit == (DepositTransfer { receiver_id: *caller, amount: deposit_amount }),
{
    TransferPlan {
        token: TokenTransfer {
            token_id: token_id.clone(),
            receiver_id: recipient.clone(),
            amount,
        },
        deposit: DepositTransfer { receiver_id: caller.clone(), amount: deposit_amount },
    }
}

} // verus!

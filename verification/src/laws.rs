//! Laws relating the escrow operations across calls.
//!
//! Each proof here states, over the same specification functions the
//! operations' contracts use, a property that spans more than one call:
//! what a second call can do after a first one succeeded, and which checks
//! are insensitive to the rest of the state.

use vstd::prelude::*;

use crate::errors::EscrowError;
use crate::escrow::EscrowDst;
use crate::fill::spec_fill_valid;
use crate::merkle::MerkleProof;
use crate::stage::Stage;

verus! {

/// Once an escrow is withdrawn, every further withdrawal or cancellation
/// attempt — any secret, any proof, any caller, any time — fails with a
/// state error.  Since a successful `withdraw` leaves the escrow withdrawn,
/// a second `withdraw` can never succeed.
pub proof fn lemma_second_withdraw_fails(
    escrow: EscrowDst,
    secret: Seq<u8>,
    fill_proof: MerkleProof,
    caller: Seq<char>,
    current_height: u64,
)
    requires
        escrow.withdrawn,
    ensures
        escrow.spec_validate_withdraw(secret, caller, current_height) == Err::<
            (),
            EscrowError,
        >(EscrowError::StateError),
        escrow.spec_validate_public_withdraw(secret, current_height) == Err::<
            (),
            EscrowError,
        >(EscrowError::StateError),
        escrow.spec_validate_partial_withdraw(secret, fill_proof, caller, current_height) == Err::<
            (),
            EscrowError,
        >(EscrowError::StateError),
        escrow.spec_validate_cancel(caller, current_height) == Err::<
            (),
            EscrowError,
        >(EscrowError::StateError),
{
}

/// Before the cancellation window opens, cancellation fails with a state
/// error even for the taker of a non-terminal escrow.
pub proof fn lemma_early_cancel_fails(escrow: EscrowDst, current_height: u64)
    requires
        !escrow.withdrawn,
        !escrow.cancelled,
        escrow.spec_stage(current_height) != Stage::DstCancellation,
    ensures
        escrow.spec_validate_cancel(escrow.immutables.taker@, current_height) == Err::<
            (),
            EscrowError,
        >(EscrowError::StateError),
{
}

/// Cancellation is terminal: once an escrow is cancelled, every further
/// withdrawal or cancellation attempt fails with a state error.
pub proof fn lemma_cancelled_is_terminal(
    escrow: EscrowDst,
    secret: Seq<u8>,
    fill_proof: MerkleProof,
    caller: Seq<char>,
    current_height: u64,
)
    requires
        escrow.cancelled,
    ensures
        escrow.spec_validate_withdraw(secret, caller, current_height) == Err::<
            (),
            EscrowError,
        >(EscrowError::StateError),
        escrow.spec_validate_public_withdraw(secret, current_height) == Err::<
            (),
            EscrowError,
        >(EscrowError::StateError),
        escrow.spec_validate_partial_withdraw(secret, fill_proof, caller, current_height) == Err::<
            (),
            EscrowError,
        >(EscrowError::StateError),
        escrow.spec_validate_cancel(caller, current_height) == Err::<
            (),
            EscrowError,
        >(EscrowError::StateError),
{
}

/// An invalid partial-fill index — already used, out of range, or not the
/// next index in sequence — fails with a validation error, even when the
/// caller, secret and Merkle proof are all in order.
pub proof fn lemma_invalid_fill_index_rejected(
    escrow: EscrowDst,
    secret: Seq<u8>,
    fill_proof: MerkleProof,
    current_height: u64,
)
    requires
        !escrow.withdrawn,
        !escrow.cancelled,
        escrow.in_partial_mode(),
        fill_proof.index >= escrow.spec_total_parts() || escrow.spec_used_indices().contains(
            fill_proof.index,
        ) || fill_proof.index as nat != escrow.spec_used_indices().len(),
    ensures
        escrow.spec_validate_partial_withdraw(
            secret,
            fill_proof,
            escrow.immutables.taker@,
            current_height,
        ) == Err::<(), EscrowError>(EscrowError::ValidationError),
{
    assert(!spec_fill_valid(
        escrow.spec_total_parts(),
        escrow.spec_used_indices(),
        escrow.immutables.amount,
        fill_proof.index,
        ((escrow.immutables.amount - escrow.filled_amount) as u128),
    ));
}

/// The rescue checks read only the caller, the clock and the immutable
/// terms: two escrows with the same immutables — whatever their withdrawn,
/// cancelled or fill state — answer every rescue request alike.
pub proof fn lemma_rescue_ignores_finality(
    escrow_a: EscrowDst,
    escrow_b: EscrowDst,
    caller: Seq<char>,
    current_height: u64,
)
    requires
        escrow_a.immutables == escrow_b.immutables,
    ensures
        escrow_a.spec_validate_rescue(caller, current_height) == escrow_b.spec_validate_rescue(
            caller,
            current_height,
        ),
{
}

} // verus!

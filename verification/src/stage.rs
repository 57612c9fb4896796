//! Timelock stage derivation.
//!
//! The current stage is a pure function of the elapsed time since deployment
//! and the packed timelock configuration; it is never persisted and is
//! recomputed on every query.  A destination escrow only ever occupies the
//! `Dst*` stages, and its transitions are monotonic:
//! `DstWithdrawal -> DstPublicWithdrawal -> DstCancellation`.

use vstd::prelude::*;

verus! {

/// Discrete phase of the claim window, mirroring the source-chain stages.
#[derive(Clone, Copy, Debug, PartialEq, Eq, Structural)]
pub enum Stage {
    /// Private withdrawal on the source chain.
    SrcWithdrawal,
    /// Public withdrawal on the source chain.
    SrcPublicWithdrawal,
    /// Private cancellation on the source chain.
    SrcCancellation,
    /// Public cancellation on the source chain.
    SrcPublicCancellation,
    /// Private withdrawal window on the destination chain.
    DstWithdrawal,
    /// Public withdrawal window on the destination chain.
    DstPublicWithdrawal,
    /// Cancellation window on the destination chain.
    DstCancellation,
}

/// Elapsed-time offset (in blocks since deployment) at which the public
/// withdrawal window opens: the low 32 bits of the packed configuration.
pub open spec fn spec_public_withdrawal_offset(timelocks: u64) -> u64 {
    timelocks % 0x1_0000_0000u64
}

/// Elapsed-time offset at which the cancellation window opens: the high
/// 32 bits of the packed configuration.
pub open spec fn spec_cancellation_offset(timelocks: u64) -> u64 {
    timelocks / 0x1_0000_0000u64
}

/// A packed configuration is valid when its per-stage offsets are
/// non-decreasing, so that a monotonic scan of the offsets is meaningful.
pub open spec fn spec_timelocks_valid(timelocks: u64) -> bool {
    spec_public_withdrawal_offset(timelocks) <= spec_cancellation_offset(timelocks)
}

/// Stage occupied after `elapsed` blocks under `timelocks`: a single
/// monotonic scan over the decoded per-stage offsets.
pub open spec fn spec_stage_at(timelocks: u64, elapsed: u64) -> Stage {
    if elapsed < spec_public_withdrawal_offset(timelocks) {
        Stage::DstWithdrawal
    } else if elapsed < spec_cancellation_offset(timelocks) {
        Stage::DstPublicWithdrawal
    } else {
        Stage::DstCancellation
    }
}

/// Rank of a destination stage in the monotonic progression.
pub open spec fn spec_stage_rank(stage: Stage) -> int {
    match stage {
        Stage::DstWithdrawal => 0,
        Stage::DstPublicWithdrawal => 1,
        Stage::DstCancellation => 2,
        _ => 3,
    }
}

/// Decoded low half of the packed configuration.
pub fn public_withdrawal_offset(timelocks: u64) -> (r: u64)
    ensures
        r == spec_public_withdrawal_offset(timelocks),
{
    timelocks % 0x1_0000_0000u64
}

/// Decoded high half of the packed configuration.
pub fn cancellation_offset(timelocks: u64) -> (r: u64)
    ensures
        r == spec_cancellation_offset(timelocks),
{
    timelocks / 0x1_0000_0000u64
}

/// Whether the decoded per-stage offsets are non-decreasing.
pub fn timelocks_valid(timelocks: u64) -> (r: bool)
    ensures
        r == spec_timelocks_valid(timelocks),
{
    public_withdrawal_offset(timelocks) <= cancellation_offset(timelocks)
}

/// Packs two per-stage offsets into one configuration word, the inverse of
/// the two decode functions.
pub fn pack_timelocks(public_withdrawal: u32, cancellation: u32) -> (r: u64)
    ensures
        spec_public_withdrawal_offset(r) == public_withdrawal,
        spec_cancellation_offset(r) == cancellation,
{
    let packed: u64 = (public_withdrawal as u64) + (cancellation as u64) * 0x1_0000_0000u64;
    proof {
        let p = public_withdrawal as int;
        let c = cancellation as int;
        vstd::arithmetic::div_mod::lemma_fundamental_div_mod_converse(
            p + c * 0x1_0000_0000,
            0x1_0000_0000,
            c,
            p,
        );
    }
    packed
}

/// Stage occupied after `elapsed` blocks under `timelocks`.
pub fn stage_at(timelocks: u64, elapsed: u64) -> (stage: Stage)
    ensures
        stage == spec_stage_at(timelocks, elapsed),
{
    if elapsed < public_withdrawal_offset(timelocks) {
        Stage::DstWithdrawal
    } else if elapsed < cancellation_offset(timelocks) {
        Stage::DstPublicWithdrawal
    } else {
        Stage::DstCancellation
    }
}

/// The stage progression is monotonic: as time passes, the derived stage
/// only ever moves forward through
/// `DstWithdrawal -> DstPublicWithdrawal -> DstCancellation`.
pub proof fn lemma_stage_monotonic(timelocks: u64, e1: u64, e2: u64)
    requires
        e1 <= e2,
    ensures
        spec_stage_rank(spec_stage_at(timelocks, e1)) <= spec_stage_rank(
            spec_stage_at(timelocks, e2),
        ),
{
}

} // verus!

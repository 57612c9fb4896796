//! The destination-chain escrow instance.
//!
//! An instance holds immutable order terms and mutable fill/finality state,
//! and gates custody release on secret knowledge and timing.  Mutating
//! operations take the caller identity and the current block height as
//! arguments, apply every local state change first, and return the transfer
//! plan to dispatch; a validation failure returns an error and leaves the
//! state untouched.

use vstd::prelude::*;

use crate::digest::digest_eq;
use crate::digest::keccak256;
use crate::digest::keccak_of;
use crate::errors::EscrowError;
use crate::fill::cumulative_target;
use crate::fill::fill_valid;
use crate::fill::lemma_cumulative_bounds;
use crate::fill::lemma_mul_le_cap;
use crate::fill::lemma_slice_nonneg;
use crate::fill::spec_cumulative_target;
use crate::fill::spec_fill_valid;
use crate::fill::PartialFillInfo;
use crate::merkle::compute_leaf;
use crate::merkle::spec_leaf_bytes;
use crate::merkle::spec_path_accepted;
use crate::merkle::verify_merkle_proof;
use crate::merkle::views_of;
use crate::merkle::MerkleProof;
use crate::stage::spec_stage_at;
use crate::stage::spec_timelocks_valid;
use crate::stage::stage_at;
use crate::stage::timelocks_valid;
use crate::stage::Stage;
use crate::transfer::plan_compound_payout;
use crate::transfer::DepositTransfer;
use crate::transfer::TokenTransfer;
use crate::transfer::TransferPlan;
use vstd::arithmetic::mul::lemma_mul_by_zero_is_zero;
use vstd::arithmetic::mul::lemma_mul_left_inequality;

verus! {

/// Blocks that must have passed since deployment before the rescue escape
/// hatch opens, independent of the withdrawn/cancelled state.
pub const RESCUE_DELAY_BLOCKS: u64 = 86400;

/// Order terms fixed at construction.
#[derive(Clone, Debug)]
pub struct EscrowImmutables {
    /// Digest of the secret, or the Merkle root when partial fills are
    /// enabled.
    pub hashlock: [u8; 32],
    /// Account of the external fungible-asset contract.
    pub token_id: String,
    /// Total asset amount held in escrow.
    pub amount: u128,
    /// Account the asset is released to on withdrawal.
    pub maker: String,
    /// Resolver account allowed to act during the private windows.
    pub taker: String,
    /// Native-currency safety deposit held beside the asset.
    pub safety_deposit: u128,
    /// Packed per-stage timelock offsets.
    pub timelocks: u64,
    /// Block height at deployment, the origin for every timelock offset.
    pub deployed_at: u64,
    /// Partial-fill terms, `None` for a single-fill escrow.
    pub partial_fill_info: Option<PartialFillInfo>,
}

impl EscrowImmutables {
    /// Validity of the order terms: a positive amount small enough for the
    /// percentage and pro-rata arithmetic, non-decreasing timelock offsets,
    /// and, in partial-fill mode, at least one part with the Merkle root
    /// doubling as the hashlock.
    pub open spec fn wf(&self) -> bool {
        &&& self.amount > 0
        &&& (self.amount as int) * 100 <= u128::MAX
        &&& (self.safety_deposit as int) * (self.amount as int) <= u128::MAX
        &&& spec_timelocks_valid(self.timelocks)
        &&& match self.partial_fill_info {
            Some(info) => info.total_parts > 0 && info.merkle_root@ == self.hashlock@,
            None => true,
        }
    }
}

/// The escrow instance: immutable terms plus mutable fill and finality
/// state.
#[derive(Debug)]
pub struct EscrowDst {
    /// Order terms fixed at construction.
    pub immutables: EscrowImmutables,
    /// Terminal flag set by a completed withdrawal.
    pub withdrawn: bool,
    /// Terminal flag set by a completed cancellation.
    pub cancelled: bool,
    /// The secret revealed by the first successful withdrawal, set at most
    /// once.
    pub revealed_secret: Option<Vec<u8>>,
    /// Mutable partial-fill bookkeeping, mirroring the immutable terms.
    pub partial_fill_state: Option<PartialFillInfo>,
    /// Asset amount already paid out through partial fills.
    pub filled_amount: u128,
}

impl EscrowDst {
    /// Whether this escrow was constructed in partial-fill mode.
    pub open spec fn in_partial_mode(&self) -> bool {
        self.partial_fill_state is Some
    }

    /// Total parts of a partial-fill escrow.
    pub open spec fn spec_total_parts(&self) -> u64 {
        match self.partial_fill_state {
            Some(state) => state.total_parts,
            None => 0,
        }
    }

    /// Indices already used by partial fills.
    pub open spec fn spec_used_indices(&self) -> Seq<u64> {
        match self.partial_fill_state {
            Some(state) => state.used_indices@,
            None => Seq::empty(),
        }
    }

    /// Last validated partial-fill index.
    pub open spec fn spec_last_validated(&self) -> u64 {
        match self.partial_fill_state {
            Some(state) => state.last_validated,
            None => 0,
        }
    }

    /// Byte view of the committed Merkle root.
    pub open spec fn spec_merkle_root(&self) -> Seq<u8> {
        match self.partial_fill_state {
            Some(state) => state.merkle_root@,
            None => Seq::empty(),
        }
    }

    /// Instance invariant: valid terms, mutually exclusive terminal flags,
    /// filled amount within the total, and the mutable partial-fill state
    /// present exactly when the immutable terms enable it, agreeing with
    /// them on root and part count.
    pub open spec fn wf(&self) -> bool {
        &&& self.immutables.wf()
        &&& !(self.withdrawn && self.cancelled)
        &&& self.filled_amount <= self.immutables.amount
        &&& match (self.immutables.partial_fill_info, self.partial_fill_state) {
            (Some(info), Some(state)) => {
                &&& state.wf()
                &&& state.merkle_root@ == info.merkle_root@
                &&& state.total_parts == info.total_parts
            },
            (None, None) => self.filled_amount == 0,
            _ => false,
        }
    }

    /// Stage the escrow occupies at `current_height`, derived afresh from
    /// the packed timelocks on every query.
    pub open spec fn spec_stage(&self, current_height: u64) -> Stage {
        spec_stage_at(
            self.immutables.timelocks,
            ((current_height - self.immutables.deployed_at) as u64),
        )
    }

    /// Inputs on which construction succeeds: a positive amount small
    /// enough for the bucket and pro-rata arithmetic, and valid timelocks.
    pub open spec fn spec_init_ok(amount: u128, safety_deposit: u128, timelocks: u64) -> bool {
        &&& amount > 0
        &&& (amount as int) * 100 <= u128::MAX
        &&& (safety_deposit as int) * (amount as int) <= u128::MAX
        &&& spec_timelocks_valid(timelocks)
    }

    /// Error reported when construction fails, by first failing check.
    pub open spec fn spec_init_error(amount: u128, safety_deposit: u128, timelocks: u64) -> EscrowError {
        if amount == 0 {
            EscrowError::ValidationError
        } else if (amount as int) * 100 > u128::MAX || (safety_deposit as int) * (amount as int)
            > u128::MAX {
            EscrowError::ArithmeticError
        } else {
            EscrowError::ValidationError
        }
    }

    /// Initializes a single-fill escrow at `deployed_at`.
    pub fn new(
        hashlock: [u8; 32],
        token_id: String,
        amount: u128,
        maker: String,
        taker: String,
        safety_deposit: u128,
        timelocks: u64,
        deployed_at: u64,
    ) -> (r: Result<EscrowDst, EscrowError>)
        ensures
            r is Ok <==> Self::spec_init_ok(amount, safety_deposit, timelocks),
            match r {
                Ok(escrow) => {
                    &&& escrow.wf()
                    &&& escrow.immutables == (EscrowImmutables {
                        hashlock,
                        token_id,
                        amount,
                        maker,
                        taker,
                        safety_deposit,
                        timelocks,
                        deployed_at,
                        partial_fill_info: None,
                    })
                    &&& !escrow.withdrawn
                    &&& !escrow.cancelled
                    &&& escrow.revealed_secret is None
                    &&& escrow.partial_fill_state is None
                    &&& escrow.filled_amount == 0
                },
                Err(e) => e == Self::spec_init_error(amount, safety_deposit, timelocks),
            },
    {
        if amount == 0 {
            return Err(EscrowError::ValidationError);
        }
        proof {
            lemma_mul_le_cap(amount as int, 100, u128::MAX as int);
            lemma_mul_le_cap(safety_deposit as int, amount as int, u128::MAX as int);
        }
        if amount > u128::MAX / 100 {
            return Err(EscrowError::ArithmeticError);
        }
        if safety_deposit > u128::MAX / amount {
            return Err(EscrowError::ArithmeticError);
        }
        if !timelocks_valid(timelocks) {
            return Err(EscrowError::ValidationError);
        }
        Ok(
            EscrowDst {
                immutables: EscrowImmutables {
                    hashlock,
                    token_id,
                    amount,
                    maker,
                    taker,
                    safety_deposit,
                    timelocks,
                    deployed_at,
                    partial_fill_info: None,
                },
                withdrawn: false,
                cancelled: false,
                revealed_secret: None,
                partial_fill_state: None,
                filled_amount: 0,
            },
        )
    }

    /// Inputs on which partial-fill construction succeeds.
    pub open spec fn spec_partial_init_ok(
        amount: u128,
        safety_deposit: u128,
        timelocks: u64,
        total_parts: u64,
    ) -> bool {
        &&& total_parts > 0
        &&& Self::spec_init_ok(amount, safety_deposit, timelocks)
    }

    /// Error reported when partial-fill construction fails.
    pub open spec fn spec_partial_init_error(
        amount: u128,
        safety_deposit: u128,
        timelocks: u64,
        total_parts: u64,
    ) -> EscrowError {
        if amount == 0 || total_parts == 0 {
            EscrowError::ValidationError
        } else {
            Self::spec_init_error(amount, safety_deposit, timelocks)
        }
    }

    /// Initializes a partial-fill escrow: the commitment is the Merkle root
    /// of one secret digest per part, and it doubles as the hashlock.
    pub fn new_with_partial_fills(
        merkle_root: [u8; 32],
        token_id: String,
        amount: u128,
        maker: String,
        taker: String,
        safety_deposit: u128,
        timelocks: u64,
        total_parts: u64,
        deployed_at: u64,
    ) -> (r: Result<EscrowDst, EscrowError>)
        ensures
            r is Ok <==> Self::spec_partial_init_ok(amount, safety_deposit, timelocks, total_parts),
            match r {
                Ok(escrow) => {
                    &&& escrow.wf()
                    &&& escrow.immutables.hashlock == merkle_root
                    &&& escrow.immutables.token_id == token_id
                    &&& escrow.immutables.amount == amount
                    &&& escrow.immutables.maker == maker
                    &&& escrow.immutables.taker == taker
                    &&& escrow.immutables.safety_deposit == safety_deposit
                    &&& escrow.immutables.timelocks == timelocks
                    &&& escrow.immutables.deployed_at == deployed_at
                    &&& escrow.immutables.partial_fill_info is Some
                    &&& escrow.immutables.partial_fill_info->Some_0.merkle_root == merkle_root
                    &&& escrow.immutables.partial_fill_info->Some_0.total_parts == total_parts
                    &&& escrow.immutables.partial_fill_info->Some_0.used_indices@ == Seq::<u64>::empty()
                    &&& escrow.immutables.partial_fill_info->Some_0.last_validated == 0
                    &&& !escrow.withdrawn
                    &&& !escrow.cancelled
                    &&& escrow.revealed_secret is None
                    &&& escrow.in_partial_mode()
                    &&& escrow.spec_total_parts() == total_parts
                    &&& escrow.spec_merkle_root() == merkle_root@
                    &&& escrow.spec_used_indices() == Seq::<u64>::empty()
                    &&& escrow.spec_last_validated() == 0
                    &&& escrow.filled_amount == 0
                },
                Err(e) => e == Self::spec_partial_init_error(
                    amount,
                    safety_deposit,
                    timelocks,
                    total_parts,
                ),
            },
    {
        if amount == 0 || total_parts == 0 {
            return Err(EscrowError::ValidationError);
        }
        proof {
            lemma_mul_le_cap(amount as int, 100, u128::MAX as int);
            lemma_mul_le_cap(safety_deposit as int, amount as int, u128::MAX as int);
        }
        if amount > u128::MAX / 100 {
            return Err(EscrowError::ArithmeticError);
        }
        if safety_deposit > u128::MAX / amount {
            return Err(EscrowError::ArithmeticError);
        }
        if !timelocks_valid(timelocks) {
            return Err(EscrowError::ValidationError);
        }
        let info = PartialFillInfo {
            merkle_root,
            total_parts,
            used_indices: Vec::new(),
            last_validated: 0,
        };
        let state = PartialFillInfo {
            merkle_root,
            total_parts,
            used_indices: Vec::new(),
            last_validated: 0,
        };
        Ok(
            EscrowDst {
                immutables: EscrowImmutables {
                    hashlock: merkle_root,
                    token_id,
                    amount,
                    maker,
                    taker,
                    safety_deposit,
                    timelocks,
                    deployed_at,
                    partial_fill_info: Some(info),
                },
                withdrawn: false,
                cancelled: false,
                revealed_secret: None,
                partial_fill_state: Some(state),
                filled_amount: 0,
            },
        )
    }

    /// Stage occupied at `current_height`, recomputed from the packed
    /// timelocks on every query.
    pub fn get_current_stage(&self, current_height: u64) -> (stage: Stage)
        requires
            current_height >= self.immutables.deployed_at,
        ensures
            stage == self.spec_stage(current_height),
    {
        stage_at(self.immutables.timelocks, current_height - self.immutables.deployed_at)
    }

    /// The immutable order terms.
    pub fn get_immutables(&self) -> (r: &EscrowImmutables)
        ensures
            *r == self.immutables,
    {
        &self.immutables
    }

    /// Whether a withdrawal has completed.
    pub fn is_withdrawn(&self) -> (r: bool)
        ensures
            r == self.withdrawn,
    {
        self.withdrawn
    }

    /// Whether the escrow has been cancelled.
    pub fn is_cancelled(&self) -> (r: bool)
        ensures
            r == self.cancelled,
    {
        self.cancelled
    }

    /// The revealed secret, if any withdrawal has succeeded.
    pub fn get_revealed_secret(&self) -> (r: Option<&Vec<u8>>)
        ensures
            match r {
                Some(secret) => self.revealed_secret == Some(*secret),
                None => self.revealed_secret is None,
            },
    {
        self.revealed_secret.as_ref()
    }

    /// The mutable partial-fill bookkeeping, if partial fills are enabled.
    pub fn get_partial_fill_state(&self) -> (r: Option<&PartialFillInfo>)
        ensures
            match r {
                Some(state) => self.partial_fill_state == Some(*state),
                None => self.partial_fill_state is None,
            },
    {
        self.partial_fill_state.as_ref()
    }

    /// Cumulative amount expected once `index` has been validated: the
    /// percentage-bucket split of the total.
    pub fn calculate_partial_amount(&self, index: u64) -> (r: u128)
        requires
            self.wf(),
            self.in_partial_mode(),
            index < self.spec_total_parts(),
        ensures
            r == spec_cumulative_target(self.immutables.amount, index, self.spec_total_parts()),
            r <= self.immutables.amount,
    {
        match &self.partial_fill_state {
            Some(state) => cumulative_target(self.immutables.amount, index, state.total_parts),
            None => 0,
        }
    }

    /// Whether a fill of `index`, with `remaining_amount` still unfilled,
    /// satisfies the partial-fill validity policy.
    pub fn is_valid_partial_fill(&self, index: u64, remaining_amount: u128) -> (r: bool)
        requires
            self.wf(),
        ensures
            r == (self.in_partial_mode() && spec_fill_valid(
                self.spec_total_parts(),
                self.spec_used_indices(),
                self.immutables.amount,
                index,
                remaining_amount,
            )),
    {
        match &self.partial_fill_state {
            Some(state) => fill_valid(
                state.total_parts,
                &state.used_indices,
                self.immutables.amount,
                index,
                remaining_amount,
            ),
            None => false,
        }
    }

    /// Outcome of the withdrawal checks, by first failing check: terminal
    /// state, then authorization, then single-fill mode, then the secret
    /// against the hashlock, then the stage.
    pub open spec fn spec_validate_withdraw(
        &self,
        secret: Seq<u8>,
        caller: Seq<char>,
        current_height: u64,
    ) -> Result<(), EscrowError> {
        if self.withdrawn {
            Err(EscrowError::StateError)
        } else if self.cancelled {
            Err(EscrowError::StateError)
        } else if caller != self.immutables.taker@ {
            Err(EscrowError::AuthorizationError)
        } else if self.in_partial_mode() {
            Err(EscrowError::ValidationError)
        } else if keccak_of(secret) != self.immutables.hashlock@ {
            Err(EscrowError::ValidationError)
        } else if self.spec_stage(current_height) != Stage::DstWithdrawal {
            Err(EscrowError::StateError)
        } else {
            Ok(())
        }
    }

    /// Outcome of the public-withdrawal checks: terminal state, then the
    /// secret against the hashlock, then the stage.  Anyone may call, so
    /// there is no authorization check.
    pub open spec fn spec_validate_public_withdraw(
        &self,
        secret: Seq<u8>,
        current_height: u64,
    ) -> Result<(), EscrowError> {
        if self.withdrawn {
            Err(EscrowError::StateError)
        } else if self.cancelled {
            Err(EscrowError::StateError)
        } else if keccak_of(secret) != self.immutables.hashlock@ {
            Err(EscrowError::ValidationError)
        } else if self.spec_stage(current_height) != Stage::DstPublicWithdrawal {
            Err(EscrowError::StateError)
        } else {
            Ok(())
        }
    }

    /// Outcome of the partial-withdrawal checks: terminal state, then
    /// authorization, then partial-fill mode, then the secret against the
    /// proof's digest, then Merkle membership, then the fill-validity
    /// policy, then the stage.
    pub open spec fn spec_validate_partial_withdraw(
        &self,
        secret: Seq<u8>,
        fill_proof: MerkleProof,
        caller: Seq<char>,
        current_height: u64,
    ) -> Result<(), EscrowError> {
        if self.withdrawn {
            Err(EscrowError::StateError)
        } else if self.cancelled {
            Err(EscrowError::StateError)
        } else if caller != self.immutables.taker@ {
            Err(EscrowError::AuthorizationError)
        } else if !self.in_partial_mode() {
            Err(EscrowError::ValidationError)
        } else if keccak_of(secret) != fill_proof.secret_hash@ {
            Err(EscrowError::ValidationError)
        } else if !spec_path_accepted(
            keccak_of(spec_leaf_bytes(fill_proof.index, fill_proof.secret_hash@)),
            views_of(fill_proof.proof@),
            self.spec_merkle_root(),
        ) {
            Err(EscrowError::ValidationError)
        } else if !spec_fill_valid(
            self.spec_total_parts(),
            self.spec_used_indices(),
            self.immutables.amount,
            fill_proof.index,
            ((self.immutables.amount - self.filled_amount) as u128),
        ) {
            Err(EscrowError::ValidationError)
        } else if self.spec_stage(current_height) != Stage::DstWithdrawal {
            Err(EscrowError::StateError)
        } else {
            Ok(())
        }
    }

    /// Outcome of the cancellation checks: terminal state, then
    /// authorization, then the stage.
    pub open spec fn spec_validate_cancel(
        &self,
        caller: Seq<char>,
        current_height: u64,
    ) -> Result<(), EscrowError> {
        if self.withdrawn {
            Err(EscrowError::StateError)
        } else if self.cancelled {
            Err(EscrowError::StateError)
        } else if caller != self.immutables.taker@ {
            Err(EscrowError::AuthorizationError)
        } else if self.spec_stage(current_height) != Stage::DstCancellation {
            Err(EscrowError::StateError)
        } else {
            Ok(())
        }
    }

    /// Outcome of the rescue checks: authorization, then the fixed delay.
    /// Deliberately independent of the withdrawn/cancelled flags.
    pub open spec fn spec_validate_rescue(
        &self,
        caller: Seq<char>,
        current_height: u64,
    ) -> Result<(), EscrowError> {
        if caller != self.immutables.taker@ {
            Err(EscrowError::AuthorizationError)
        } else if current_height - self.immutables.deployed_at <= RESCUE_DELAY_BLOCKS {
            Err(EscrowError::StateError)
        } else {
            Ok(())
        }
    }

    /// Runs the withdrawal checks in order.
    fn validate_withdraw(&self, secret: &Vec<u8>, caller: &String, current_height: u64) -> (r:
        Result<(), EscrowError>)
        requires
            self.wf(),
            current_height >= self.immutables.deployed_at,
        ensures
            r == self.spec_validate_withdraw(secret@, caller@, current_height),
    {
        if self.withdrawn {
            return Err(EscrowError::StateError);
        }
        if self.cancelled {
            return Err(EscrowError::StateError);
        }
        if !(*caller == self.immutables.taker) {
            return Err(EscrowError::AuthorizationError);
        }
        if self.partial_fill_state.is_some() {
            return Err(EscrowError::ValidationError);
        }
        let hash = keccak256(secret);
        if !digest_eq(&hash, &self.immutables.hashlock) {
            return Err(EscrowError::ValidationError);
        }
        let stage = self.get_current_stage(current_height);
        if !(stage == Stage::DstWithdrawal) {
            return Err(EscrowError::StateError);
        }
        Ok(())
    }

    /// Runs the public-withdrawal checks in order.
    fn validate_public_withdraw(&self, secret: &Vec<u8>, current_height: u64) -> (r: Result<
        (),
        EscrowError,
    >)
        requires
            self.wf(),
            current_height >= self.immutables.deployed_at,
        ensures
            r == self.spec_validate_public_withdraw(secret@, current_height),
    {
        if self.withdrawn {
            return Err(EscrowError::StateError);
        }
        if self.cancelled {
            return Err(EscrowError::StateError);
        }
        let hash = keccak256(secret);
        if !digest_eq(&hash, &self.immutables.hashlock) {
            return Err(EscrowError::ValidationError);
        }
        let stage = self.get_current_stage(current_height);
        if !(stage == Stage::DstPublicWithdrawal) {
            return Err(EscrowError::StateError);
        }
        Ok(())
    }

    /// Runs the partial-withdrawal checks in order.
    fn validate_partial_withdraw(
        &self,
        secret: &Vec<u8>,
        fill_proof: &MerkleProof,
        caller: &String,
        current_height: u64,
    ) -> (r: Result<(), EscrowError>)
        requires
            self.wf(),
            current_height >= self.immutables.deployed_at,
        ensures
            r == self.spec_validate_partial_withdraw(secret@, *fill_proof, caller@, current_height),
    {
        if self.withdrawn {
            return Err(EscrowError::StateError);
        }
        if self.cancelled {
            return Err(EscrowError::StateError);
        }
        if !(*caller == self.immutables.taker) {
            return Err(EscrowError::AuthorizationError);
        }
        if self.partial_fill_state.is_none() {
            return Err(EscrowError::ValidationError);
        }
        let secret_hash = keccak256(secret);
        if !digest_eq(&secret_hash, &fill_proof.secret_hash) {
            return Err(EscrowError::ValidationError);
        }
        if !self.validate_merkle_proof(fill_proof) {
            return Err(EscrowError::ValidationError);
        }
        let remaining = self.immutables.amount - self.filled_amount;
        if !self.is_valid_partial_fill(fill_proof.index, remaining) {
            return Err(EscrowError::ValidationError);
        }
        let stage = self.get_current_stage(current_height);
        if !(stage == Stage::DstWithdrawal) {
            return Err(EscrowError::StateError);
        }
        Ok(())
    }

    /// Runs the cancellation checks in order.
    fn validate_cancel(&self, caller: &String, current_height: u64) -> (r: Result<
        (),
        EscrowError,
    >)
        requires
            self.wf(),
            current_height >= self.immutables.deployed_at,
        ensures
            r == self.spec_validate_cancel(caller@, current_height),
    {
        if self.withdrawn {
            return Err(EscrowError::StateError);
        }
        if self.cancelled {
            return Err(EscrowError::StateError);
        }
        if !(*caller == self.immutables.taker) {
            return Err(EscrowError::AuthorizationError);
        }
        let stage = self.get_current_stage(current_height);
        if !(stage == Stage::DstCancellation) {
            return Err(EscrowError::StateError);
        }
        Ok(())
    }

    /// Runs the rescue checks in order.
    fn validate_rescue(&self, caller: &String, current_height: u64) -> (r: Result<
        (),
        EscrowError,
    >)
        requires
            current_height >= self.immutables.deployed_at,
        ensures
            r == self.spec_validate_rescue(caller@, current_height),
    {
        if !(*caller == self.immutables.taker) {
            return Err(EscrowError::AuthorizationError);
        }
        let blocks_passed = current_height - self.immutables.deployed_at;
        if blocks_passed <= RESCUE_DELAY_BLOCKS {
            return Err(EscrowError::StateError);
        }
        Ok(())
    }

    /// Withdraws the full amount by revealing the secret during the
    /// private window.  Succeeds iff the caller is the taker, the escrow is
    /// a non-terminal single-fill instance, the digest of `secret` equals
    /// the hashlock, and the stage is `DstWithdrawal`.  On success the
    /// escrow becomes withdrawn, records the secret if none is recorded yet
    /// (the revealed secret is set at most once and never replaced), and
    /// schedules the full amount to the maker with the full safety deposit
    /// to the caller; on failure nothing changes.
    pub fn withdraw(&mut self, secret: Vec<u8>, caller: &String, current_height: u64) -> (r:
        Result<TransferPlan, EscrowError>)
        requires
            old(self).wf(),
            current_height >= old(self).immutables.deployed_at,
        ensures
            final(self).wf(),
            r is Ok <==> old(self).spec_validate_withdraw(secret@, caller@, current_height) is Ok,
            match r {
                Ok(plan) => {
                    &&& *final(self) == (EscrowDst {
                        withdrawn: true,
                        revealed_secret: if old(self).revealed_secret is Some {
                            old(self).revealed_secret
                        } else {
                            Some(secret)
                        },
                        ..*old(self)
                    })
                    &&& plan.token == (TokenTransfer {
                        token_id: old(self).immutables.token_id,
                        receiver_id: old(self).immutables.maker,
                        amount: old(self).immutables.amount,
                    })
                    &&& plan.deposit == (DepositTransfer {
                        receiver_id: *caller,
                        amount: old(self).immutables.safety_deposit,
                    })
                },
                Err(e) => {
                    &&& *final(self) == *old(self)
                    &&& Err::<(), EscrowError>(e) == old(self).spec_validate_withdraw(
                        secret@,
                        caller@,
                        current_height,
                    )
                },
            },
    {
        match self.validate_withdraw(&secret, caller, current_height) {
            Err(e) => Err(e),
            Ok(()) => {
                self.withdrawn = true;
                if self.revealed_secret.is_none() {
                    self.revealed_secret = Some(secret);
                }
                Ok(
                    plan_compound_payout(
                        &self.immutables.token_id,
                        &self.immutables.maker,
                        self.immutables.amount,
                        caller,
                        self.immutables.safety_deposit,
                    ),
                )
            },
        }
    }

    /// Withdraws after the private window closed, callable by anyone who
    /// knows the secret: the fallback once the taker failed to act.  Legal
    /// only in `DstPublicWithdrawal`.  The secret is checked against the
    /// hashlock directly; in partial-fill mode the hashlock is the Merkle
    /// root, which no secret digest matches, so the check fails there.
    pub fn public_withdraw(&mut self, secret: Vec<u8>, caller: &String, current_height: u64) -> (r:
        Result<TransferPlan, EscrowError>)
        requires
            old(self).wf(),
            current_height >= old(self).immutables.deployed_at,
        ensures
            final(self).wf(),
            r is Ok <==> old(self).spec_validate_public_withdraw(secret@, current_height) is Ok,
            match r {
                Ok(plan) => {
                    &&& *final(self) == (EscrowDst {
                        withdrawn: true,
                        revealed_secret: if old(self).revealed_secret is Some {
                            old(self).revealed_secret
                        } else {
                            Some(secret)
                        },
                        ..*old(self)
                    })
                    &&& plan.token == (TokenTransfer {
                        token_id: old(self).immutables.token_id,
                        receiver_id: old(self).immutables.maker,
                        amount: old(self).immutables.amount,
                    })
                    &&& plan.deposit == (DepositTransfer {
                        receiver_id: *caller,
                        amount: old(self).immutables.safety_deposit,
                    })
                },
                Err(e) => {
                    &&& *final(self) == *old(self)
                    &&& Err::<(), EscrowError>(e) == old(self).spec_validate_public_withdraw(
                        secret@,
                        current_height,
                    )
                },
            },
    {
        match self.validate_public_withdraw(&secret, current_height) {
            Err(e) => Err(e),
            Ok(()) => {
                self.withdrawn = true;
                if self.revealed_secret.is_none() {
                    self.revealed_secret = Some(secret);
                }
                Ok(
                    plan_compound_payout(
                        &self.immutables.token_id,
                        &self.immutables.maker,
                        self.immutables.amount,
                        caller,
                        self.immutables.safety_deposit,
                    ),
                )
            },
        }
    }

    /// Cancels the escrow during the cancellation window: refunds the full
    /// amount to the taker and the safety deposit to the caller.  Terminal.
    pub fn cancel(&mut self, caller: &String, current_height: u64) -> (r: Result<
        TransferPlan,
        EscrowError,
    >)
        requires
            old(self).wf(),
            current_height >= old(self).immutables.deployed_at,
        ensures
            final(self).wf(),
            r is Ok <==> old(self).spec_validate_cancel(caller@, current_height) is Ok,
            match r {
                Ok(plan) => {
                    &&& *final(self) == (EscrowDst { cancelled: true, ..*old(self) })
                    &&& plan.token == (TokenTransfer {
                        token_id: old(self).immutables.token_id,
                        receiver_id: old(self).immutables.taker,
                        amount: old(self).immutables.amount,
                    })
                    &&& plan.deposit == (DepositTransfer {
                        receiver_id: *caller,
                        amount: old(self).immutables.safety_deposit,
                    })
                },
                Err(e) => {
                    &&& *final(self) == *old(self)
                    &&& Err::<(), EscrowError>(e) == old(self).spec_validate_cancel(
                        caller@,
                        current_height,
                    )
                },
            },
    {
        match self.validate_cancel(caller, current_height) {
            Err(e) => Err(e),
            Ok(()) => {
                self.cancelled = true;
                Ok(
                    plan_compound_payout(
                        &self.immutables.token_id,
                        &self.immutables.taker,
                        self.immutables.amount,
                        caller,
                        self.immutables.safety_deposit,
                    ),
                )
            },
        }
    }

    /// Rescues stuck funds once the fixed delay since deployment has
    /// elapsed, regardless of the withdrawn/cancelled state.  The escape
    /// hatch schedules an unconditional transfer to the taker and performs
    /// no other bookkeeping: the state is left exactly as it was.
    pub fn rescue_funds(
        &mut self,
        token_id: String,
        amount: u128,
        caller: &String,
        current_height: u64,
    ) -> (r: Result<TokenTransfer, EscrowError>)
        requires
            old(self).wf(),
            current_height >= old(self).immutables.deployed_at,
        ensures
            *final(self) == *old(self),
            r is Ok <==> old(self).spec_validate_rescue(caller@, current_height) is Ok,
            match r {
                Ok(transfer) => transfer == (TokenTransfer {
                    token_id,
                    receiver_id: old(self).immutables.taker,
                    amount,
                }),
                Err(e) => Err::<(), EscrowError>(e) == old(self).spec_validate_rescue(
                    caller@,
                    current_height,
                ),
            },
    {
        match self.validate_rescue(caller, current_height) {
            Err(e) => Err(e),
            Ok(()) => Ok(
                TokenTransfer {
                    token_id,
                    receiver_id: self.immutables.taker.clone(),
                    amount,
                },
            ),
        }
    }

    /// Withdraws one partial fill by revealing its secret and proving
    /// Merkle membership of the corresponding leaf.  On success the
    /// incremental slice — the cumulative target for the index minus what
    /// is already filled — is scheduled to the maker, a pro-rata share of
    /// the safety deposit to the caller, the bookkeeping records the index,
    /// and the escrow becomes withdrawn once the filled amount reaches the
    /// total; on failure nothing changes.
    pub fn withdraw_partial(
        &mut self,
        secret: Vec<u8>,
        fill_proof: MerkleProof,
        caller: &String,
        current_height: u64,
    ) -> (r: Result<TransferPlan, EscrowError>)
        requires
            old(self).wf(),
            current_height >= old(self).immutables.deployed_at,
        ensures
            final(self).wf(),
            r is Ok <==> old(self).spec_validate_partial_withdraw(
                secret@,
                fill_proof,
                caller@,
                current_height,
            ) is Ok,
            match r {
                Ok(plan) => ({
                    let total = old(self).immutables.amount;
                    let target = spec_cumulative_target(
                        total,
                        fill_proof.index,
                        old(self).spec_total_parts(),
                    );
                    let slice = target - old(self).filled_amount;
                    &&& final(self).immutables == old(self).immutables
                    &&& final(self).cancelled == old(self).cancelled
                    &&& final(self).filled_amount == target
                    &&& old(self).filled_amount <= final(self).filled_amount <= old(
                        self,
                    ).immutables.amount
                    &&& final(self).withdrawn == (target >= total)
                    &&& final(self).revealed_secret == (if old(self).revealed_secret is Some {
                        old(self).revealed_secret
                    } else {
                        Some(secret)
                    })
                    &&& final(self).revealed_secret is Some
                    &&& final(self).in_partial_mode()
                    &&& final(self).spec_total_parts() == old(self).spec_total_parts()
                    &&& final(self).spec_merkle_root() == old(self).spec_merkle_root()
                    &&& final(self).spec_used_indices() == old(self).spec_used_indices().push(
                        fill_proof.index,
                    )
                    &&& final(self).spec_last_validated() == fill_proof.index
                    &&& plan.token == (TokenTransfer {
                        token_id: old(self).immutables.token_id,
                        receiver_id: old(self).immutables.maker,
                        amount: (slice as u128),
                    })
                    &&& plan.deposit == (DepositTransfer {
                        receiver_id: *caller,
                        amount: ((old(self).immutables.safety_deposit * slice / (total as int)) as u128),
                    })
                }),
                Err(e) => {
                    &&& *final(self) == *old(self)
                    &&& Err::<(), EscrowError>(e) == old(self).spec_validate_partial_withdraw(
                        secret@,
                        fill_proof,
                        caller@,
                        current_height,
                    )
                },
            },
    {
        match self.validate_partial_withdraw(&secret, &fill_proof, caller, current_height) {
            Err(e) => Err(e),
            Ok(()) => {
                proof {
                    lemma_slice_nonneg(
                        self.immutables.amount,
                        fill_proof.index,
                        self.spec_total_parts(),
                        ((self.immutables.amount - self.filled_amount) as u128),
                    );
                    lemma_cumulative_bounds(
                        self.immutables.amount,
                        fill_proof.index,
                        self.spec_total_parts(),
                    );
                }
                let target = self.calculate_partial_amount(fill_proof.index);
                let fill_amount = target - self.filled_amount;
                proof {
                    if self.immutables.safety_deposit > 0 {
                        lemma_mul_left_inequality(
                            self.immutables.safety_deposit as int,
                            fill_amount as int,
                            self.immutables.amount as int,
                        );
                    } else {
                        lemma_mul_by_zero_is_zero(fill_amount as int);
                    }
                }
                let proportional = (self.immutables.safety_deposit * fill_amount)
                    / self.immutables.amount;
                self.filled_amount = target;
                if self.revealed_secret.is_none() {
                    self.revealed_secret = Some(secret);
                }
                match &mut self.partial_fill_state {
                    Some(state) => {
                        state.used_indices.push(fill_proof.index);
                        state.last_validated = fill_proof.index;
                    },
                    None => {},
                }
                if self.filled_amount >= self.immutables.amount {
                    self.withdrawn = true;
                }
                Ok(
                    plan_compound_payout(
                        &self.immutables.token_id,
                        &self.immutables.maker,
                        fill_amount,
                        caller,
                        proportional,
                    ),
                )
            },
        }
    }

    /// Whether `proof` proves membership of its leaf in the committed
    /// Merkle root; always false for a single-fill escrow.
    pub fn validate_merkle_proof(&self, proof: &MerkleProof) -> (r: bool)
        ensures
            r == (self.in_partial_mode() && spec_path_accepted(
                keccak_of(spec_leaf_bytes(proof.index, proof.secret_hash@)),
                views_of(proof.proof@),
                self.spec_merkle_root(),
            )),
    {
        match &self.partial_fill_state {
            Some(state) => {
                let leaf = compute_leaf(proof.index, &proof.secret_hash);
                verify_merkle_proof(&leaf, &proof.proof, &state.merkle_root)
            },
            None => false,
        }
    }
}

} // verus!

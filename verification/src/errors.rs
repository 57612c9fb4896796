//! Error taxonomy shared by every escrow and factory operation.

use vstd::prelude::*;

verus! {

/// Why an operation was refused.  Every refusal leaves the escrow state
/// exactly as it was: the failure paths are atomic.
#[derive(Clone, Copy, Debug, PartialEq, Eq, Structural)]
pub enum EscrowError {
    /// The caller is not allowed to perform this operation.
    AuthorizationError,
    /// The escrow is in the wrong timelock stage, or is already terminal.
    StateError,
    /// A secret, proof, amount or partial-fill index did not validate.
    ValidationError,
    /// An amount is zero or would overflow the escrow's arithmetic.
    ArithmeticError,
}

} // verus!

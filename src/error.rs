use vstd::prelude::*;

verus! {

/// The outside error of the Anchor framework: what the runtime, or the token
/// program behind a transfer, reports. The library carries it through
/// unchanged.
#[verifier::external_type_specification]
#[verifier::external_body]
pub struct ExAnchorError(anchor_lang::error::Error);

/// The errors that this program itself raises.
#[derive(Clone, Copy, Debug, PartialEq, Eq, Structural)]
pub enum ErrorCode {
    /// A recipient's data does not hold an initialized token account.
    InvalidTokenAccount,
    /// The number of recipient accounts differs from the number of amounts.
    MismatchedRecipientAmounts,
}

/// Why an invocation failed.
#[derive(Debug, PartialEq, Eq)]
pub enum SendError {
    /// A check of this program failed.
    Program(ErrorCode),
    /// The runtime or the token program refused a step; its error is
    /// passed on as it came.
    External(anchor_lang::error::Error),
}

} // verus!

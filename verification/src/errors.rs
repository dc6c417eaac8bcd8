//! Error taxonomy of the sale core.

use vstd::prelude::*;

verus! {

/// The failures that the core's own checks detect.
#[derive(Clone, Copy, Debug, PartialEq, Eq, Structural)]
pub enum ErrorCode {
    /// An arithmetic step (scaling, addition, multiplication) would exceed the
    /// representable integer range.
    Overflow,
    /// The caller of an authority-restricted operation is not the stored
    /// authority.
    InvalidAdmin,
    /// A purchase would push the buyer's cumulative total above the fixed
    /// per-buyer cap.
    ExceedsTotalUserLimit,
}

/// Every way a transition can fail: the core's own checks, plus the failures
/// that the collaborating transfer services surface, propagated unchanged.
#[derive(Clone, Copy, Debug, PartialEq, Eq, Structural)]
pub enum SaleError {
    /// A check of the core itself failed.
    Code(ErrorCode),
    /// The derivation proof supplied for the vault does not match the tag the
    /// vault was created with, so its disbursement authority is not trusted.
    VaultAuthorityMismatch,
    /// The native-currency primitive refused the buyer's payment.
    PaymentFailed,
    /// The fungible-token service refused a transfer.
    TokenTransferFailed,
}

impl ErrorCode {
    /// A human-readable description of the error.
    pub fn message(&self) -> (m: &'static str)
        ensures
            *self == ErrorCode::Overflow ==> m@ == "Arithmetic overflow"@,
            *self == ErrorCode::InvalidAdmin ==> m@ == "Invalid admin"@,
            *self == ErrorCode::ExceedsTotalUserLimit ==> m@
                == "Total purchases exceed user limit"@,
    {
        match self {
            ErrorCode::Overflow => "Arithmetic overflow",
            ErrorCode::InvalidAdmin => "Invalid admin",
            ErrorCode::ExceedsTotalUserLimit => "Total purchases exceed user limit",
        }
    }
}

} // verus!

use vstd::prelude::*;

verus! {

/// Failures of the accounting core. Every operation returns a typed
/// failure instead of aborting.
#[derive(Debug, Clone, Copy, PartialEq, Eq, Structural)]
pub enum ContractError {
    /// Fee computation was attempted on a zero amount.
    NoFunds,
    /// A reduction was requested against an absent entry or one whose
    /// outstanding balance is smaller than the requested quantity.
    InsufficientFunds,
    /// A commission outside the closed range [0, 1] was offered.
    InvalidCommission,
    /// Arithmetic overflow or underflow on a checked operation.
    Overflow,
    /// The commission was read before it was ever configured.
    CommissionNotSet,
}

} // verus!

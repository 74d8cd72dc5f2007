use vstd::prelude::*;

verus! {

/// The failure taxonomy of the payment core.
///
/// Every operation either completes or reports exactly one of these kinds,
/// and a failed operation leaves every balance and every stored record
/// unchanged: the caller observes the call as never having happened.
#[derive(Clone, Copy, Debug, PartialEq, Eq, Structural)]
pub enum Error {
    /// One-time setup was attempted a second time.
    AlreadyInitialized,
    /// A privileged or query operation ran before setup.
    Uninitialized,
    /// The required principal did not authorize the call.
    Unauthorized,
    /// A payment amount was zero or negative.
    InvalidAmount,
    /// The debited account holds less than the requested amount.
    InsufficientBalance,
    /// Crediting the destination would exceed the representable balance range.
    BalanceOverflow,
}

} // verus!

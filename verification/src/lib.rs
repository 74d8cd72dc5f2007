//! Core of a fee-charging payment service for a fungible asset.
//!
//! One party transfers an asset to another while a fixed-rate service fee
//! (one part in ten thousand, charged on top of the stated amount) accrues
//! to the service's own custodial account. A designated administrator,
//! registered once and immutable afterwards, may later sweep the accumulated
//! fees out. The host environment that carries the real asset and verifies
//! authorization is modelled by explicit values: a [`Ledger`] of balances and
//! the set of principals that authorized the current call
//! ([`Authorizations`]); every operation either completes or reports one
//! [`Error`] kind and leaves every balance unchanged.

pub mod auth;
pub mod errors;
pub mod ledger;
pub mod payment;

pub use auth::Authorizations;
pub use errors::Error;
pub use ledger::Ledger;
pub use payment::PaymentContract;
pub use payment::payment_fee;
pub use payment::withdrawal_amount;

use vstd::prelude::*;

verus! {

/// An identifier for an authorizable party (a user account or a contract
/// instance) within the host environment.
pub type Principal = u64;

} // verus!

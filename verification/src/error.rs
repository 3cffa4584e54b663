//! Domain errors of the order-tracking contract.
use vstd::prelude::*;

verus! {

/// Every failure an operation can report. All of them are returned as values;
/// no operation of this library panics.
#[derive(Copy, Clone, Debug, PartialEq, Eq, Structural)]
pub enum WagentErrors {
    /// Any operation other than `initialize` was invoked before setup.
    ContractNotInitialized,
    /// `initialize` was invoked a second time.
    ContractAlreadyInitialized,
    /// A read of an order id that was never settled.
    OrderNotFound,
    /// A settlement was attempted with a previously used order id.
    OrderAlreadyExists,
}

} // verus!

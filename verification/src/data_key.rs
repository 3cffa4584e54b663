//! The unit of settlement and the tagged union of storage keys.
use vstd::prelude::*;

use crate::Address;

verus! {

/// The durable record of one settled payment request, direct or streaming.
/// Exactly one order exists per id for the life of the system, and once
/// created an order is never updated or deleted.
#[derive(Debug)]
pub struct Order {
    /// Caller-supplied opaque id, unique within the system.
    pub id: String,
    /// The settled quantity.
    pub amount: i128,
    /// The asset that was moved.
    pub token: Address,
    /// The paying party.
    pub sender: Address,
    /// False for direct settlement, true for delegated streaming settlement.
    pub is_lockup: bool,
    /// Ledger timestamp at the moment the order was durably recorded.
    pub submit_date: u64,
    /// The receiving party.
    pub receiver: Address,
    /// The streaming service's handle, present exactly when `is_lockup`.
    pub lockup_id: Option<u64>,
}

impl Clone for Order {
    fn clone(&self) -> (r: Order)
        ensures
            r == *self,
    {
        Order {
            id: self.id.clone(),
            amount: self.amount,
            token: self.token,
            sender: self.sender,
            is_lockup: self.is_lockup,
            submit_date: self.submit_date,
            receiver: self.receiver,
            lockup_id: self.lockup_id,
        }
    }
}

/// The four kinds of stored keys. The three configuration keys live in the
/// configuration tier; each order lives in the record tier under its id, the
/// one unbounded-cardinality case.
#[derive(Clone, Debug)]
pub enum DataKey {
    Admin,
    Order(String),
    IsInitialized,
    FluxityAddress,
}

} // verus!

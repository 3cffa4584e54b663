//! The modelled host environment: the two storage tiers, the ledger clock,
//! the event log, and the two external collaborators (asset-transfer
//! capability and streaming-payment service) as explicit state. Every public
//! operation of the contract is a verified function over this value.
use vstd::prelude::*;

use crate::Address;
use crate::data_key::Order;
use crate::fluxity::FluxityState;
use crate::storage::{entry_at, orders_unique, OrderEntry};
use crate::token::TokenLedger;

verus! {

/// The configuration tier: its three fixed keys and the tier's shared
/// time-to-live, in ledger-progression units.
#[derive(Debug)]
pub struct InstanceStorage {
    pub admin: Option<Address>,
    pub fluxity_address: Option<Address>,
    pub is_initialized: Option<bool>,
    pub ttl: u32,
}

/// Payload of a published domain event.
#[derive(Debug, PartialEq, Eq)]
pub enum EventData {
    Addr(Address),
    OrderId(String),
}

/// One published domain event: a pair of topic symbols and a payload.
#[derive(Debug, PartialEq, Eq)]
pub struct Event {
    pub topic_a: String,
    pub topic_b: String,
    pub data: EventData,
}

/// The lifecycle event appended by a successful initialization.
pub open spec fn is_init_event(ev: Event, admin: Address) -> bool {
    ev.topic_a@ == "CONTRACT"@ && ev.topic_b@ == "INIT"@ && ev.data == EventData::Addr(admin)
}

/// The settlement event appended by a successful direct payment.
pub open spec fn is_pay_direct_event(ev: Event, order_id: Seq<char>) -> bool {
    ev.topic_a@ == "PAY"@ && ev.topic_b@ == "DIRECT"@ && (ev.data matches EventData::OrderId(s)
        && s@ == order_id)
}

/// The settlement event appended by a successful streaming payment.
pub open spec fn is_pay_stream_event(ev: Event, order_id: Seq<char>) -> bool {
    ev.topic_a@ == "PAY"@ && ev.topic_b@ == "STREAM"@ && (ev.data matches EventData::OrderId(s)
        && s@ == order_id)
}

/// The environment one operation runs in: contract identity, ledger clock,
/// the two storage tiers, the collaborators, and the event log.
#[derive(Debug)]
pub struct Env {
    /// This contract's own identity, the custody account of direct
    /// settlement.
    pub contract_address: Address,
    /// The host ledger's monotonic clock.
    pub timestamp: u64,
    /// The configuration tier.
    pub instance: InstanceStorage,
    /// The record tier: one entry per settled order.
    pub orders: Vec<OrderEntry>,
    /// The asset-transfer capability.
    pub token: TokenLedger,
    /// The streaming-payment service.
    pub fluxity: FluxityState,
    /// Events published so far, oldest first.
    pub events: Vec<Event>,
}

impl Env {
    /// The initialization flag, with absence read as false.
    pub open spec fn initialized(self) -> bool {
        self.instance.is_initialized == Some(true)
    }

    /// The order recorded under `id`, if any.
    pub open spec fn spec_order(self, id: Seq<char>) -> Option<Order> {
        match entry_at(self.orders@, id) {
            Some(en) => Some(en.order),
            None => None,
        }
    }

    /// The remaining lifetime of the record-tier entry under `id`, if any.
    pub open spec fn spec_order_ttl(self, id: Seq<char>) -> Option<u32> {
        match entry_at(self.orders@, id) {
            Some(en) => Some(en.ttl),
            None => None,
        }
    }

    /// The balance of `account` in `token`.
    pub open spec fn spec_balance(self, token: Address, account: Address) -> int {
        self.token.spec_balance(token, account)
    }

    /// How much `spender` may still draw from `owner` in `token`.
    pub open spec fn spec_allowance(self, token: Address, owner: Address, spender: Address) -> int {
        self.token.spec_allowance(token, owner, spender)
    }

    /// The three configuration keys are written together, exactly once: the
    /// admin and the service address are present precisely from
    /// initialization on.
    pub open spec fn config_coherent(self) -> bool {
        &&& (self.initialized() <==> self.instance.admin is Some)
        &&& (self.initialized() <==> self.instance.fluxity_address is Some)
    }

    /// Well-formedness: coherent configuration, uniquely keyed order records,
    /// and a well-formed asset ledger.
    pub open spec fn wf(self) -> bool {
        &&& self.config_coherent()
        &&& orders_unique(self.orders@)
        &&& self.token.wf()
    }

    /// A fresh environment: nothing initialized, no orders, empty ledger and
    /// event log.
    pub fn new(contract_address: Address, timestamp: u64) -> (r: Env)
        ensures
            r.wf(),
            !r.initialized(),
            r.contract_address == contract_address,
            r.timestamp == timestamp,
            r.instance.admin is None,
            r.instance.fluxity_address is None,
            r.instance.is_initialized is None,
            r.instance.ttl == 0,
            r.orders@ == Seq::<OrderEntry>::empty(),
            r.events@ == Seq::<Event>::empty(),
            r.fluxity.next_id == 0,
            r.fluxity.lockups@.len() == 0,
            forall|t: Address, a: Address| r.spec_balance(t, a) == 0,
            forall|t: Address, o: Address, sp: Address| r.spec_allowance(t, o, sp) == 0,
            forall|id: Seq<char>| r.spec_order(id) is None,
    {
        Env {
            contract_address,
            timestamp,
            instance: InstanceStorage {
                admin: None,
                fluxity_address: None,
                is_initialized: None,
                ttl: 0,
            },
            orders: Vec::new(),
            token: TokenLedger::new(),
            fluxity: FluxityState::new(),
            events: Vec::new(),
        }
    }
}

} // verus!

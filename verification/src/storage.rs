//! The persistent store: read and write operations on the configuration tier
//! and on the record tier, each write followed by that tier's renewal.
use vstd::prelude::*;

use crate::data_key::{DataKey, Order};
use crate::env::{Env, InstanceStorage};
use crate::extend::{extend_contract_ttl, extend_data_ttl, renewed_ttl, BUMP_AMOUNT};
use crate::Address;

verus! {

/// One record-tier entry: an order together with its remaining lifetime.
#[derive(Debug)]
pub struct OrderEntry {
    pub order: Order,
    pub ttl: u32,
}

/// The key under which a record-tier entry is filed.
pub open spec fn okey(e: OrderEntry) -> Seq<char> {
    e.order.id@
}

/// No two record-tier entries share an order id.
pub open spec fn orders_unique(s: Seq<OrderEntry>) -> bool {
    forall|i: int, j: int| 0 <= i < j < s.len() ==> okey(#[trigger] s[i]) != okey(#[trigger] s[j])
}

/// The record-tier entry filed under `id`, if any.
pub open spec fn entry_at(s: Seq<OrderEntry>, id: Seq<char>) -> Option<OrderEntry>
    decreases s.len(),
{
    if s.len() == 0 {
        None
    } else if okey(s.last()) == id {
        Some(s.last())
    } else {
        entry_at(s.drop_last(), id)
    }
}

pub proof fn lemma_entry_at_absent(s: Seq<OrderEntry>, id: Seq<char>)
    requires
        forall|i: int| 0 <= i < s.len() ==> okey(#[trigger] s[i]) != id,
    ensures
        entry_at(s, id) is None,
    decreases s.len(),
{
    if s.len() > 0 {
        assert(s.last() == s[s.len() - 1]);
        assert(forall|i: int| 0 <= i < s.drop_last().len() ==> s.drop_last()[i] == s[i]);
        lemma_entry_at_absent(s.drop_last(), id);
    }
}

pub proof fn lemma_entry_at_found(s: Seq<OrderEntry>, id: Seq<char>, i: int)
    requires
        orders_unique(s),
        0 <= i < s.len(),
        okey(s[i]) == id,
    ensures
        entry_at(s, id) == Some(s[i]),
    decreases s.len(),
{
    assert(s.last() == s[s.len() - 1]);
    if i < s.len() - 1 {
        assert(okey(s[i]) != okey(s[s.len() - 1]));
        assert(forall|k: int| 0 <= k < s.drop_last().len() ==> s.drop_last()[k] == s[k]);
        lemma_entry_at_found(s.drop_last(), id, i);
    }
}

/// An entry is filed under `id` exactly when some index holds it.
pub proof fn lemma_entry_at_some_index(s: Seq<OrderEntry>, id: Seq<char>)
    ensures
        (entry_at(s, id) is Some) <==> exists|j: int|
            0 <= j < s.len() && okey(#[trigger] s[j]) == id,
    decreases s.len(),
{
    if s.len() > 0 {
        assert(s.last() == s[s.len() - 1]);
        assert(forall|k: int| 0 <= k < s.drop_last().len() ==> s.drop_last()[k] == s[k]);
        lemma_entry_at_some_index(s.drop_last(), id);
        if okey(s[s.len() - 1]) == id {
            assert(exists|j: int| 0 <= j < s.len() && okey(#[trigger] s[j]) == id);
        } else if entry_at(s, id) is Some {
            let j = choose|j: int| 0 <= j < s.drop_last().len() && okey(#[trigger] s.drop_last()[j]) == id;
            assert(okey(s[j]) == id);
        } else {
            assert forall|j: int| 0 <= j < s.len() implies okey(#[trigger] s[j]) != id by {
                if j < s.len() - 1 {
                    assert(s.drop_last()[j] == s[j]);
                }
            }
        }
    }
}

/// Writes the service address into the configuration tier and renews that
/// tier's lifetime.
pub fn set_fluxity_address(e: &mut Env, fluxity_address: Address)
    ensures
        *final(e) == (Env {
            instance: (InstanceStorage {
                fluxity_address: Some(fluxity_address),
                ttl: renewed_ttl(old(e).instance.ttl),
                ..old(e).instance
            }),
            ..*old(e)
        }),
{
    e.instance.fluxity_address = Some(fluxity_address);
    extend_contract_ttl(e);
}

/// Reads the service address from the configuration tier.
pub fn get_fluxity_address(e: &Env) -> (r: Option<Address>)
    ensures
        r == e.instance.fluxity_address,
{
    e.instance.fluxity_address
}

/// Sets the initialization flag and renews the configuration tier's lifetime.
pub fn initialize_contract(e: &mut Env)
    ensures
        *final(e) == (Env {
            instance: (InstanceStorage {
                is_initialized: Some(true),
                ttl: renewed_ttl(old(e).instance.ttl),
                ..old(e).instance
            }),
            ..*old(e)
        }),
{
    e.instance.is_initialized = Some(true);
    extend_contract_ttl(e);
}

/// Reads the initialization flag, with absence read as false.
pub fn is_contract_initialized(e: &Env) -> (r: bool)
    ensures
        r == e.initialized(),
{
    match e.instance.is_initialized {
        Some(b) => b,
        None => false,
    }
}

/// Writes the admin identity into the configuration tier.
pub fn set_admin(e: &mut Env, admin: Address)
    ensures
        *final(e) == (Env {
            instance: (InstanceStorage { admin: Some(admin), ..old(e).instance }),
            ..*old(e)
        }),
{
    e.instance.admin = Some(admin);
}

/// Reads the admin identity from the configuration tier.
pub fn get_admin(e: &Env) -> (r: Option<Address>)
    ensures
        r == e.instance.admin,
{
    e.instance.admin
}

/// Persists a fully constructed order to the record tier and renews its
/// lifetime. Callers must have verified uniqueness already; `set_order`
/// itself performs no uniqueness check.
pub fn set_order(e: &mut Env, order: Order)
    requires
        orders_unique(old(e).orders@),
        old(e).spec_order(order.id@) is None,
    ensures
        orders_unique(final(e).orders@),
        final(e).orders@ == old(e).orders@.push((OrderEntry { order, ttl: BUMP_AMOUNT })),
        final(e).contract_address == old(e).contract_address,
        final(e).timestamp == old(e).timestamp,
        final(e).instance == old(e).instance,
        final(e).token == old(e).token,
        final(e).fluxity == old(e).fluxity,
        final(e).events == old(e).events,
{
    let key = DataKey::Order(order.id.clone());
    let ghost pre = e.orders@;
    let ghost entry0 = OrderEntry { order, ttl: 0u32 };
    e.orders.push(OrderEntry { order, ttl: 0 });
    proof {
        lemma_entry_at_some_index(pre, entry0.order.id@);
        assert(forall|j: int| 0 <= j < pre.len() ==> okey(#[trigger] pre[j]) != entry0.order.id@);
        assert(e.orders@ == pre.push(entry0));
        assert(forall|j: int| 0 <= j < pre.len() ==> e.orders@[j] == pre[j]);
    }
    extend_data_ttl(e, &key);
    proof {
        assert(e.orders@ =~= pre.push((OrderEntry { order: entry0.order, ttl: BUMP_AMOUNT })));
        assert forall|i: int, j: int|
            0 <= i < j < e.orders@.len() implies okey(#[trigger] e.orders@[i]) != okey(
            #[trigger] e.orders@[j],
        ) by {
            if j == e.orders@.len() - 1 {
                assert(okey(pre[i]) != entry0.order.id@);
            }
        }
    }
}

/// Reads the order recorded under `order_id`, if any.
pub fn get_order(e: &Env, order_id: String) -> (r: Option<Order>)
    requires
        orders_unique(e.orders@),
    ensures
        r == e.spec_order(order_id@),
{
    let mut i: usize = 0;
    while i < e.orders.len()
        invariant
            orders_unique(e.orders@),
            i <= e.orders@.len(),
            forall|k: int| 0 <= k < i ==> okey(#[trigger] e.orders@[k]) != order_id@,
        decreases e.orders@.len() - i,
    {
        if e.orders[i].order.id == order_id {
            proof {
                lemma_entry_at_found(e.orders@, order_id@, i as int);
            }
            return Some(e.orders[i].order.clone());
        }
        i += 1;
    }
    proof {
        lemma_entry_at_absent(e.orders@, order_id@);
    }
    None
}

} // verus!

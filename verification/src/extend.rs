//! The expiration policy: every stored key carries a time-to-live in
//! ledger-progression units; a renewal extends any lifetime under the
//! threshold to the bump amount, and never shortens one.
use vstd::prelude::*;

use crate::data_key::DataKey;
use crate::env::{Env, InstanceStorage};
use crate::storage::OrderEntry;

verus! {

/// Ledger-progression units in one day, at ~5-second ledger closes.
pub const DAY_IN_LEDGERS: u32 = 17280;

/// The lifetime granted on renewal: 60 days.
pub const BUMP_AMOUNT: u32 = 60 * DAY_IN_LEDGERS;

/// The minimum remaining lifetime before renewal is required: 30 days.
pub const LIFETIME_THRESHOLD: u32 = 30 * DAY_IN_LEDGERS;

/// A time-to-live after one renewal under the threshold/bump policy.
pub open spec fn renewed_ttl(ttl: u32) -> u32 {
    if ttl < LIFETIME_THRESHOLD {
        BUMP_AMOUNT
    } else {
        ttl
    }
}

/// Renewal is idempotent: the bump amount lies above the threshold, so a
/// lifetime that was just renewed is not renewed again.
pub proof fn lemma_renewal_idempotent(ttl: u32)
    ensures
        renewed_ttl(renewed_ttl(ttl)) == renewed_ttl(ttl),
{
}

/// Whether `key` names the record-tier entry of the order with this id.
pub open spec fn key_names_order(key: DataKey, id: Seq<char>) -> bool {
    key matches DataKey::Order(s) && s@ == id
}

/// Renews the time-to-live of the record-tier entry named by `key`. Orders
/// are the only record-tier entries, so a configuration key renews nothing;
/// renewal of an absent key has no effect.
pub fn extend_data_ttl(e: &mut Env, key: &DataKey)
    ensures
        final(e).orders@.len() == old(e).orders@.len(),
        forall|j: int|
            0 <= j < old(e).orders@.len() ==> final(e).orders@[j].order == old(e).orders@[j].order,
        forall|j: int|
            0 <= j < old(e).orders@.len() ==> final(e).orders@[j].ttl == (if key_names_order(
                *key,
                old(e).orders@[j].order.id@,
            ) {
                renewed_ttl(old(e).orders@[j].ttl)
            } else {
                old(e).orders@[j].ttl
            }),
        final(e).contract_address == old(e).contract_address,
        final(e).timestamp == old(e).timestamp,
        final(e).instance == old(e).instance,
        final(e).token == old(e).token,
        final(e).fluxity == old(e).fluxity,
        final(e).events == old(e).events,
{
    match key {
        DataKey::Order(id) => {
            let mut i: usize = 0;
            while i < e.orders.len()
                invariant
                    i <= e.orders@.len(),
                    e.orders@.len() == old(e).orders@.len(),
                    forall|k: int|
                        0 <= k < old(e).orders@.len() ==> e.orders@[k].order == old(
                            e,
                        ).orders@[k].order,
                    forall|k: int|
                        i <= k < old(e).orders@.len() ==> e.orders@[k].ttl == old(
                            e,
                        ).orders@[k].ttl,
                    forall|k: int|
                        0 <= k < i ==> e.orders@[k].ttl == (if old(e).orders@[k].order.id@ == id@ {
                            renewed_ttl(old(e).orders@[k].ttl)
                        } else {
                            old(e).orders@[k].ttl
                        }),
                    e.contract_address == old(e).contract_address,
                    e.timestamp == old(e).timestamp,
                    e.instance == old(e).instance,
                    e.token == old(e).token,
                    e.fluxity == old(e).fluxity,
                    e.events == old(e).events,
                decreases e.orders@.len() - i,
            {
                if e.orders[i].order.id == *id && e.orders[i].ttl < LIFETIME_THRESHOLD {
                    let ord = e.orders[i].order.clone();
                    e.orders.set(i, OrderEntry { order: ord, ttl: BUMP_AMOUNT });
                }
                i += 1;
            }
        },
        _ => {},
    }
}

/// Renews the configuration tier's shared time-to-live.
pub fn extend_contract_ttl(e: &mut Env)
    ensures
        *final(e) == (Env {
            instance: (InstanceStorage {
                ttl: renewed_ttl(old(e).instance.ttl),
                ..old(e).instance
            }),
            ..*old(e)
        }),
{
    if e.instance.ttl < LIFETIME_THRESHOLD {
        e.instance.ttl = BUMP_AMOUNT;
    }
}

} // verus!

//! An escrow/order-tracking ledger: payment requests are recorded against a
//! shared ledger and settled either by a direct asset transfer or by handing
//! the funds to a streaming-payment service that releases them over time.
//!
//! The contract and its collaborators — the host's keyed storage with its
//! time-to-live policy, the asset-transfer capability, the streaming-payment
//! service, the event log — are modelled as explicit values in [`env::Env`],
//! so that every operation is a verified function from the environment before
//! the call to the environment after it. A failed operation leaves the
//! environment exactly as it was.
use vstd::prelude::*;

pub mod data_key;
pub mod env;
pub mod error;
pub mod extend;
pub mod fluxity;
pub mod guarantees;
pub mod storage;
pub mod token;

use crate::data_key::Order;
use crate::env::{
    is_init_event, is_pay_direct_event, is_pay_stream_event, Env, Event, EventData,
};
use crate::extend::{extend_contract_ttl, lemma_renewal_idempotent, renewed_ttl, BUMP_AMOUNT};
use crate::fluxity::{fluxity_contract, Lockup, LockupInput, Rate};
use crate::storage::{
    get_admin, get_fluxity_address, get_order, initialize_contract, is_contract_initialized,
    set_admin, set_fluxity_address, set_order, OrderEntry,
};

verus! {

pub use crate::error::WagentErrors;

/// Identity of a party or of a contract on the ledger.
pub type Address = u64;

/// The order-tracking contract. All of its state lives in the environment's
/// storage tiers; the type itself carries none.
pub struct Wagent;

/// The public interface of the contract.
pub trait IWagent {
    /// Initializes the contract once: records the admin and the streaming
    /// service's address in the configuration tier, renews that tier's
    /// lifetime, and appends exactly one lifecycle event carrying the admin
    /// identity. A second call fails and changes nothing.
    fn initialize(e: &mut Env, admin: Address, fluxity_address: Address) -> (r: Result<
        (),
        WagentErrors,
    >)
        requires
            old(e).wf(),
        ensures
            final(e).wf(),
            r is Err <==> old(e).initialized(),
            r matches Err(err) ==> err == WagentErrors::ContractAlreadyInitialized && *final(e)
                == *old(e),
            r is Ok ==> ({
                &&& final(e).initialized()
                &&& final(e).instance.admin == Some(admin)
                &&& final(e).instance.fluxity_address == Some(fluxity_address)
                &&& final(e).instance.ttl == renewed_ttl(old(e).instance.ttl)
                &&& final(e).orders@ == old(e).orders@
                &&& final(e).token == old(e).token
                &&& final(e).fluxity == old(e).fluxity
                &&& final(e).timestamp == old(e).timestamp
                &&& final(e).contract_address == old(e).contract_address
                &&& final(e).events@.len() == old(e).events@.len() + 1
                &&& final(e).events@.subrange(0, old(e).events@.len() as int) == old(e).events@
                &&& is_init_event(final(e).events@.last(), admin)
            }),
    ;

    /// The streaming service's address, or `ContractNotInitialized` before
    /// setup.
    fn fluxity_address(e: &Env) -> (r: Result<Address, WagentErrors>)
        requires
            e.wf(),
        ensures
            r == match e.instance.fluxity_address {
                Some(a) => Ok::<Address, WagentErrors>(a),
                None => Err::<Address, WagentErrors>(WagentErrors::ContractNotInitialized),
            },
            r is Ok <==> e.initialized(),
    ;

    /// The admin's identity, or `ContractNotInitialized` before setup.
    fn admin(e: &Env) -> (r: Result<Address, WagentErrors>)
        requires
            e.wf(),
        ensures
            r == match e.instance.admin {
                Some(a) => Ok::<Address, WagentErrors>(a),
                None => Err::<Address, WagentErrors>(WagentErrors::ContractNotInitialized),
            },
            r is Ok <==> e.initialized(),
    ;

    /// The order recorded under `order_id`, or `OrderNotFound`.
    fn order(e: &Env, order_id: String) -> (r: Result<Order, WagentErrors>)
        requires
            e.wf(),
        ensures
            r == match e.spec_order(order_id@) {
                Some(o) => Ok::<Order, WagentErrors>(o),
                None => Err::<Order, WagentErrors>(WagentErrors::OrderNotFound),
            },
    ;

    /// Direct settlement: moves `amount` of the asset from `sender` through
    /// the contract's custody to `receiver`, records the order under
    /// `order_id`, renews the configuration tier's lifetime, and appends one
    /// settlement event. Fails with `ContractNotInitialized` before setup and
    /// with `OrderAlreadyExists` on a used order id, in that order, changing
    /// nothing; rejected transfers are the asset capability's to signal and
    /// are ruled out by the precondition.
    fn pay(
        e: &mut Env,
        token_address: Address,
        sender: Address,
        receiver: Address,
        amount: i128,
        order_id: String,
    ) -> (r: Result<(), WagentErrors>)
        requires
            old(e).wf(),
            old(e).initialized() && old(e).spec_order(order_id@) is None ==> ({
                &&& 0 <= amount
                &&& old(e).spec_allowance(token_address, sender, old(e).contract_address) >= amount
                &&& old(e).spec_balance(token_address, sender) >= amount
                &&& (sender != old(e).contract_address ==> old(e).spec_balance(
                    token_address,
                    old(e).contract_address,
                ) + amount <= i128::MAX)
                &&& (receiver != old(e).contract_address ==> old(e).spec_balance(
                    token_address,
                    receiver,
                ) - (if receiver == sender {
                    amount as int
                } else {
                    0
                }) + amount <= i128::MAX)
            }),
        ensures
            final(e).wf(),
            !old(e).initialized() ==> r == Err::<(), WagentErrors>(
                WagentErrors::ContractNotInitialized,
            ) && *final(e) == *old(e),
            old(e).initialized() && old(e).spec_order(order_id@) is Some ==> r == Err::<
                (),
                WagentErrors,
            >(WagentErrors::OrderAlreadyExists) && *final(e) == *old(e),
            r is Ok <==> old(e).initialized() && old(e).spec_order(order_id@) is None,
            r is Ok ==> ({
                &&& final(e).spec_order(order_id@) == Some(
                    (Order {
                        id: order_id,
                        amount,
                        token: token_address,
                        sender,
                        is_lockup: false,
                        submit_date: old(e).timestamp,
                        receiver,
                        lockup_id: None,
                    }),
                )
                &&& forall|id: Seq<char>|
                    id != order_id@ ==> final(e).spec_order(id) == old(e).spec_order(id)
                &&& final(e).spec_order_ttl(order_id@) == Some(BUMP_AMOUNT)
                &&& forall|t: Address, a: Address|
                    final(e).spec_balance(t, a) == old(e).spec_balance(t, a) + (if t
                        == token_address {
                        (if a == receiver {
                            amount as int
                        } else {
                            0
                        }) - (if a == sender {
                            amount as int
                        } else {
                            0
                        })
                    } else {
                        0
                    })
                &&& forall|t: Address, o: Address, sp: Address|
                    final(e).spec_allowance(t, o, sp) == old(e).spec_allowance(t, o, sp) - (if (
                        t,
                        o,
                        sp,
                    ) == (token_address, sender, old(e).contract_address) {
                        amount as int
                    } else {
                        0
                    })
                &&& final(e).instance.admin == old(e).instance.admin
                &&& final(e).instance.fluxity_address == old(e).instance.fluxity_address
                &&& final(e).instance.is_initialized == old(e).instance.is_initialized
                &&& final(e).instance.ttl == renewed_ttl(old(e).instance.ttl)
                &&& final(e).fluxity == old(e).fluxity
                &&& final(e).timestamp == old(e).timestamp
                &&& final(e).contract_address == old(e).contract_address
                &&& final(e).events@.len() == old(e).events@.len() + 1
                &&& final(e).events@.subrange(0, old(e).events@.len() as int) == old(e).events@
                &&& is_pay_direct_event(final(e).events@.last(), order_id@)
            }),
    ;

    /// Delegated streaming settlement: moves `amount` from `sender` into the
    /// contract's custody, authorizes the streaming service to draw it, has
    /// the service create the lockup from the parameter block of the design
    /// (start and cliff at the current timestamp, end after `duration`,
    /// cancellable after `min_cancellable_duration`, non-vesting, monthly
    /// rate, the contract as spender), records the order with the returned
    /// handle, renews the configuration tier's lifetime before the service is
    /// invoked, and appends one settlement event. The gating and uniqueness
    /// failures are as for `pay`; a rejected lockup creation is the service's
    /// to signal and is ruled out by the precondition.
    fn pay_stream(
        e: &mut Env,
        token_address: Address,
        sender: Address,
        receiver: Address,
        amount: i128,
        order_id: String,
        duration: u64,
        min_cancellable_duration: u64,
    ) -> (r: Result<u64, WagentErrors>)
        requires
            old(e).wf(),
            old(e).initialized() && old(e).spec_order(order_id@) is None ==> ({
                &&& 0 <= amount
                &&& old(e).spec_allowance(token_address, sender, old(e).contract_address) >= amount
                &&& old(e).spec_balance(token_address, sender) >= amount
                &&& (sender != old(e).contract_address ==> old(e).spec_balance(
                    token_address,
                    old(e).contract_address,
                ) + amount <= i128::MAX)
                &&& (old(e).instance.fluxity_address matches Some(fx) ==> (fx != old(
                    e,
                ).contract_address ==> old(e).spec_balance(token_address, fx) - (if fx == sender {
                    amount as int
                } else {
                    0
                }) + amount <= i128::MAX))
                &&& old(e).timestamp + duration <= u64::MAX
                &&& old(e).timestamp + min_cancellable_duration <= u64::MAX
                &&& old(e).fluxity.next_id < u64::MAX
            }),
        ensures
            final(e).wf(),
            !old(e).initialized() ==> r == Err::<u64, WagentErrors>(
                WagentErrors::ContractNotInitialized,
            ) && *final(e) == *old(e),
            old(e).initialized() && old(e).spec_order(order_id@) is Some ==> r == Err::<
                u64,
                WagentErrors,
            >(WagentErrors::OrderAlreadyExists) && *final(e) == *old(e),
            r is Ok <==> old(e).initialized() && old(e).spec_order(order_id@) is None,
            r is Ok ==> r == Ok::<u64, WagentErrors>(old(e).fluxity.next_id),
            r is Ok ==> (old(e).instance.fluxity_address matches Some(fx) && {
                let lockup_id = old(e).fluxity.next_id;
                &&& final(e).spec_order(order_id@) == Some(
                    (Order {
                        id: order_id,
                        amount,
                        token: token_address,
                        sender,
                        is_lockup: true,
                        submit_date: old(e).timestamp,
                        receiver,
                        lockup_id: Some(lockup_id),
                    }),
                )
                &&& forall|id: Seq<char>|
                    id != order_id@ ==> final(e).spec_order(id) == old(e).spec_order(id)
                &&& final(e).spec_order_ttl(order_id@) == Some(BUMP_AMOUNT)
                &&& final(e).fluxity.next_id == old(e).fluxity.next_id + 1
                &&& final(e).fluxity.lockups@ == old(e).fluxity.lockups@.push(
                    (Lockup {
                        id: lockup_id,
                        input: (LockupInput {
                            amount,
                            cliff_date: old(e).timestamp,
                            start_date: old(e).timestamp,
                            end_date: (old(e).timestamp + duration) as u64,
                            cancellable_date: (old(e).timestamp + min_cancellable_duration) as u64,
                            is_vesting: false,
                            rate: Rate::Monthly,
                            sender,
                            receiver,
                            spender: old(e).contract_address,
                            token: token_address,
                        }),
                    }),
                )
                &&& forall|t: Address, a: Address|
                    final(e).spec_balance(t, a) == old(e).spec_balance(t, a) + (if t
                        == token_address {
                        (if a == fx {
                            amount as int
                        } else {
                            0
                        }) - (if a == sender {
                            amount as int
                        } else {
                            0
                        })
                    } else {
                        0
                    })
                &&& forall|t: Address, o: Address, sp: Address|
                    final(e).spec_allowance(t, o, sp) == (if (t, o, sp) == (
                        token_address,
                        old(e).contract_address,
                        fx,
                    ) {
                        0
                    } else {
                        old(e).spec_allowance(t, o, sp) - (if (t, o, sp) == (
                            token_address,
                            sender,
                            old(e).contract_address,
                        ) {
                            amount as int
                        } else {
                            0
                        })
                    })
                &&& final(e).instance.admin == old(e).instance.admin
                &&& final(e).instance.fluxity_address == old(e).instance.fluxity_address
                &&& final(e).instance.is_initialized == old(e).instance.is_initialized
                &&& final(e).instance.ttl == renewed_ttl(old(e).instance.ttl)
                &&& final(e).timestamp == old(e).timestamp
                &&& final(e).contract_address == old(e).contract_address
                &&& final(e).events@.len() == old(e).events@.len() + 1
                &&& final(e).events@.subrange(0, old(e).events@.len() as int) == old(e).events@
                &&& is_pay_stream_event(final(e).events@.last(), order_id@)
            }),
    ;
}

impl IWagent for Wagent {
    fn initialize(e: &mut Env, admin: Address, fluxity_address: Address) -> (r: Result<
        (),
        WagentErrors,
    >) {
        if is_contract_initialized(e) {
            return Err(WagentErrors::ContractAlreadyInitialized);
        }
        let ghost e0 = *e;
        initialize_contract(e);
        set_fluxity_address(e, fluxity_address);
        set_admin(e, admin);
        e.events.push(
            Event {
                topic_a: "CONTRACT".to_owned(),
                topic_b: "INIT".to_owned(),
                data: EventData::Addr(admin),
            },
        );
        proof {
            lemma_renewal_idempotent(e0.instance.ttl);
            assert(e.events@.subrange(0, e0.events@.len() as int) =~= e0.events@);
        }
        Ok(())
    }

    fn fluxity_address(e: &Env) -> (r: Result<Address, WagentErrors>) {
        match get_fluxity_address(e) {
            Some(x) => Ok(x),
            None => Err(WagentErrors::ContractNotInitialized),
        }
    }

    fn admin(e: &Env) -> (r: Result<Address, WagentErrors>) {
        match get_admin(e) {
            Some(x) => Ok(x),
            None => Err(WagentErrors::ContractNotInitialized),
        }
    }

    fn order(e: &Env, order_id: String) -> (r: Result<Order, WagentErrors>) {
        match get_order(e, order_id) {
            Some(x) => Ok(x),
            None => Err(WagentErrors::OrderNotFound),
        }
    }

    fn pay(
        e: &mut Env,
        token_address: Address,
        sender: Address,
        receiver: Address,
        amount: i128,
        order_id: String,
    ) -> (r: Result<(), WagentErrors>) {
        if !is_contract_initialized(e) {
            return Err(WagentErrors::ContractNotInitialized);
        }
        if get_order(e, order_id.clone()).is_some() {
            return Err(WagentErrors::OrderAlreadyExists);
        }
        let ghost e0 = *e;
        let contract = e.contract_address;

        e.token.transfer_from(contract, token_address, sender, contract, amount);
        let ghost mid = e.token;
        e.token.transfer(token_address, contract, receiver, amount);
        proof {
            assert forall|t: Address, a: Address|
                e.token.spec_balance(t, a) == e0.token.spec_balance(t, a) + (if t == token_address {
                    (if a == receiver {
                        amount as int
                    } else {
                        0
                    }) - (if a == sender {
                        amount as int
                    } else {
                        0
                    })
                } else {
                    0
                }) by {
                assert(mid.spec_balance(t, a) == e0.token.spec_balance(t, a) + (if t
                    == token_address {
                    (if a == contract {
                        amount as int
                    } else {
                        0
                    }) - (if a == sender {
                        amount as int
                    } else {
                        0
                    })
                } else {
                    0
                }));
            }
            assert forall|t: Address, o: Address, sp: Address|
                e.token.spec_allowance(t, o, sp) == e0.token.spec_allowance(t, o, sp) - (if (
                t,
                o,
                sp,
            ) == (token_address, sender, contract) {
                    amount as int
                } else {
                    0
                }) by {
                assert(mid.spec_allowance(t, o, sp) == e0.token.spec_allowance(t, o, sp) - (if (
                    t,
                    o,
                    sp,
                ) == (token_address, sender, contract) {
                    amount as int
                } else {
                    0
                }));
                assert(e.token.allowances@ == mid.allowances@);
            }
        }

        let submit_date = e.timestamp;
        let order = Order {
            amount,
            sender,
            receiver,
            lockup_id: None,
            is_lockup: false,
            id: order_id.clone(),
            token: token_address,
            submit_date,
        };
        let ghost ord = order;
        set_order(e, order);
        proof {
            assert(e.orders@.last() == (OrderEntry { order: ord, ttl: BUMP_AMOUNT }));
            assert(e.orders@.drop_last() =~= e0.orders@);
        }
        extend_contract_ttl(e);
        e.events.push(
            Event {
                topic_a: "PAY".to_owned(),
                topic_b: "DIRECT".to_owned(),
                data: EventData::OrderId(order_id),
            },
        );
        proof {
            assert(e.events@.subrange(0, e0.events@.len() as int) =~= e0.events@);
        }
        Ok(())
    }

    fn pay_stream(
        e: &mut Env,
        token_address: Address,
        sender: Address,
        receiver: Address,
        amount: i128,
        order_id: String,
        duration: u64,
        min_cancellable_duration: u64,
    ) -> (r: Result<u64, WagentErrors>) {
        if !is_contract_initialized(e) {
            return Err(WagentErrors::ContractNotInitialized);
        }
        if get_order(e, order_id.clone()).is_some() {
            return Err(WagentErrors::OrderAlreadyExists);
        }
        let ghost e0 = *e;
        let fluxity = match fluxity_contract(e) {
            Ok(a) => a,
            Err(err) => {
                return Err(err);
            },
        };
        let contract = e.contract_address;
        let expiration_ledger = e.timestamp;

        e.token.transfer_from(contract, token_address, sender, contract, amount);
        let ghost mid1 = e.token;
        e.token.approve(
            token_address,
            contract,
            fluxity,
            amount,
            #[verifier::truncate] (expiration_ledger as u32),
        );
        let ghost mid2 = e.token;

        let params = LockupInput {
            amount,
            is_vesting: false,
            rate: Rate::Monthly,
            sender,
            receiver,
            token: token_address,
            start_date: expiration_ledger,
            cliff_date: expiration_ledger,
            spender: contract,
            end_date: expiration_ledger + duration,
            cancellable_date: expiration_ledger + min_cancellable_duration,
        };

        extend_contract_ttl(e);

        proof {
            assert(e.token == mid2);
            assert(mid2.balances@ == mid1.balances@);
            assert(e0.token.spec_balance(token_address, contract) >= 0);
            assert(mid1.spec_balance(token_address, contract) == e0.token.spec_balance(
                token_address,
                contract,
            ) + amount - (if sender == contract {
                amount as int
            } else {
                0
            }));
            assert(e.token.spec_balance(token_address, contract) >= amount);
            assert(e.token.spec_allowance(token_address, contract, fluxity) == amount);
            if fluxity != contract {
                assert(mid1.spec_balance(token_address, fluxity) == e0.token.spec_balance(
                    token_address,
                    fluxity,
                ) - (if fluxity == sender {
                    amount as int
                } else {
                    0
                }));
                assert(e.token.spec_balance(token_address, fluxity) + amount <= i128::MAX);
            }
        }
        let id = e.fluxity.create_lockup(&mut e.token, fluxity, &params);
        proof {
            assert forall|t: Address, a: Address|
                e.token.spec_balance(t, a) == e0.token.spec_balance(t, a) + (if t == token_address {
                    (if a == fluxity {
                        amount as int
                    } else {
                        0
                    }) - (if a == sender {
                        amount as int
                    } else {
                        0
                    })
                } else {
                    0
                }) by {
                assert(mid1.spec_balance(t, a) == e0.token.spec_balance(t, a) + (if t
                    == token_address {
                    (if a == contract {
                        amount as int
                    } else {
                        0
                    }) - (if a == sender {
                        amount as int
                    } else {
                        0
                    })
                } else {
                    0
                }));
                assert(mid2.spec_balance(t, a) == mid1.spec_balance(t, a));
            }
            assert forall|t: Address, o: Address, sp: Address|
                e.token.spec_allowance(t, o, sp) == (if (t, o, sp) == (
                    token_address,
                    contract,
                    fluxity,
                ) {
                    0int
                } else {
                    e0.token.spec_allowance(t, o, sp) - (if (t, o, sp) == (
                        token_address,
                        sender,
                        contract,
                    ) {
                        amount as int
                    } else {
                        0
                    })
                }) by {
                assert(mid1.spec_allowance(t, o, sp) == e0.token.spec_allowance(t, o, sp) - (if (
                    t,
                    o,
                    sp,
                ) == (token_address, sender, contract) {
                    amount as int
                } else {
                    0
                }));
                if (t, o, sp) == (token_address, contract, fluxity) {
                    assert(mid2.spec_allowance(t, o, sp) == amount as int);
                } else {
                    assert(mid2.spec_allowance(t, o, sp) == mid1.spec_allowance(t, o, sp));
                }
            }
        }

        let submit_date = e.timestamp;
        let order = Order {
            amount,
            sender,
            receiver,
            is_lockup: true,
            lockup_id: Some(id),
            id: order_id.clone(),
            token: token_address,
            submit_date,
        };
        let ghost ord = order;
        set_order(e, order);
        proof {
            assert(e.orders@.last() == (OrderEntry { order: ord, ttl: BUMP_AMOUNT }));
            assert(e.orders@.drop_last() =~= e0.orders@);
        }
        e.events.push(
            Event {
                topic_a: "PAY".to_owned(),
                topic_b: "STREAM".to_owned(),
                data: EventData::OrderId(order_id),
            },
        );
        proof {
            assert(e.events@.subrange(0, e0.events@.len() as int) =~= e0.events@);
        }
        Ok(id)
    }
}

} // verus!

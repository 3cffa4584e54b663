//! Cross-operation guarantees of the contract, each checked by composing the
//! public operations and letting the verifier prove the stated outcome for
//! every input the guarantee speaks of.
use vstd::prelude::*;

use crate::data_key::Order;
use crate::env::Env;
use crate::error::WagentErrors;
use crate::{Address, IWagent, Wagent};

verus! {

/// Initializing twice: the first call succeeds, the second fails with
/// `ContractAlreadyInitialized`, the first admin and service address stand,
/// and no event is appended for the second call.
pub fn initialize_twice(
    e: &mut Env,
    admin1: Address,
    fluxity1: Address,
    admin2: Address,
    fluxity2: Address,
) -> (r: (Result<(), WagentErrors>, Result<(), WagentErrors>))
    requires
        old(e).wf(),
        !old(e).initialized(),
    ensures
        r.0 is Ok,
        r.1 == Err::<(), WagentErrors>(WagentErrors::ContractAlreadyInitialized),
        final(e).instance.admin == Some(admin1),
        final(e).instance.fluxity_address == Some(fluxity1),
        final(e).events@.len() == old(e).events@.len() + 1,
{
    let r1 = Wagent::initialize(e, admin1, fluxity1);
    let r2 = Wagent::initialize(e, admin2, fluxity2);
    (r1, r2)
}

/// Settling the same order id twice by direct payment: the second call fails
/// with `OrderAlreadyExists` and the stored order reflects only the first
/// call's data.
pub fn pay_twice_same_order(
    e: &mut Env,
    token_address: Address,
    sender: Address,
    receiver: Address,
    amount: i128,
    order_id: String,
    amount2: i128,
) -> (r: (Result<(), WagentErrors>, Result<(), WagentErrors>))
    requires
        old(e).wf(),
        old(e).initialized(),
        old(e).spec_order(order_id@) is None,
        0 <= amount,
        old(e).spec_allowance(token_address, sender, old(e).contract_address) >= amount,
        old(e).spec_balance(token_address, sender) >= amount,
        sender != old(e).contract_address ==> old(e).spec_balance(
            token_address,
            old(e).contract_address,
        ) + amount <= i128::MAX,
        receiver != old(e).contract_address ==> old(e).spec_balance(token_address, receiver) - (
        if receiver == sender {
            amount as int
        } else {
            0
        }) + amount <= i128::MAX,
    ensures
        r.0 is Ok,
        r.1 == Err::<(), WagentErrors>(WagentErrors::OrderAlreadyExists),
        final(e).spec_order(order_id@) == Some(
            (Order {
                id: order_id,
                amount,
                token: token_address,
                sender,
                is_lockup: false,
                submit_date: old(e).timestamp,
                receiver,
                lockup_id: None,
            }),
        ),
{
    let first_id = order_id.clone();
    let second_id = order_id.clone();
    let r1 = Wagent::pay(e, token_address, sender, receiver, amount, first_id);
    let r2 = Wagent::pay(e, token_address, sender, receiver, amount2, second_id);
    (r1, r2)
}

/// Settling the same order id by direct payment and then trying a streaming
/// settlement with it: the second call fails with `OrderAlreadyExists` and
/// the stored order still reflects the direct payment.
pub fn pay_stream_after_pay_same_order(
    e: &mut Env,
    token_address: Address,
    sender: Address,
    receiver: Address,
    amount: i128,
    order_id: String,
    duration: u64,
    min_cancellable_duration: u64,
) -> (r: (Result<(), WagentErrors>, Result<u64, WagentErrors>))
    requires
        old(e).wf(),
        old(e).initialized(),
        old(e).spec_order(order_id@) is None,
        0 <= amount,
        old(e).spec_allowance(token_address, sender, old(e).contract_address) >= amount,
        old(e).spec_balance(token_address, sender) >= amount,
        sender != old(e).contract_address ==> old(e).spec_balance(
            token_address,
            old(e).contract_address,
        ) + amount <= i128::MAX,
        receiver != old(e).contract_address ==> old(e).spec_balance(token_address, receiver) - (
        if receiver == sender {
            amount as int
        } else {
            0
        }) + amount <= i128::MAX,
    ensures
        r.0 is Ok,
        r.1 == Err::<u64, WagentErrors>(WagentErrors::OrderAlreadyExists),
        final(e).spec_order(order_id@) matches Some(o) && !o.is_lockup && o.lockup_id is None,
{
    let first_id = order_id.clone();
    let second_id = order_id.clone();
    let r1 = Wagent::pay(e, token_address, sender, receiver, amount, first_id);
    let r2 = Wagent::pay_stream(
        e,
        token_address,
        sender,
        receiver,
        amount,
        second_id,
        duration,
        min_cancellable_duration,
    );
    (r1, r2)
}

/// Settling the same order id twice by streaming payment: the second call
/// fails with `OrderAlreadyExists` and the stored order carries the first
/// call's lockup handle.
pub fn pay_stream_twice_same_order(
    e: &mut Env,
    token_address: Address,
    sender: Address,
    receiver: Address,
    amount: i128,
    order_id: String,
    duration: u64,
    min_cancellable_duration: u64,
) -> (r: (Result<u64, WagentErrors>, Result<u64, WagentErrors>))
    requires
        old(e).wf(),
        old(e).initialized(),
        old(e).spec_order(order_id@) is None,
        0 <= amount,
        old(e).spec_allowance(token_address, sender, old(e).contract_address) >= amount,
        old(e).spec_balance(token_address, sender) >= amount,
        sender != old(e).contract_address ==> old(e).spec_balance(
            token_address,
            old(e).contract_address,
        ) + amount <= i128::MAX,
        old(e).instance.fluxity_address matches Some(fx) ==> (fx != old(e).contract_address
            ==> old(e).spec_balance(token_address, fx) - (if fx == sender {
            amount as int
        } else {
            0
        }) + amount <= i128::MAX),
        old(e).timestamp + duration <= u64::MAX,
        old(e).timestamp + min_cancellable_duration <= u64::MAX,
        old(e).fluxity.next_id < u64::MAX,
    ensures
        r.0 == Ok::<u64, WagentErrors>(old(e).fluxity.next_id),
        r.1 == Err::<u64, WagentErrors>(WagentErrors::OrderAlreadyExists),
        final(e).spec_order(order_id@) matches Some(o) && o.is_lockup && o.lockup_id == Some(
            old(e).fluxity.next_id,
        ),
{
    let first_id = order_id.clone();
    let second_id = order_id.clone();
    let r1 = Wagent::pay_stream(
        e,
        token_address,
        sender,
        receiver,
        amount,
        first_id,
        duration,
        min_cancellable_duration,
    );
    let r2 = Wagent::pay_stream(
        e,
        token_address,
        sender,
        receiver,
        amount,
        second_id,
        duration,
        min_cancellable_duration,
    );
    (r1, r2)
}

} // verus!

//! Model of the external streaming-payment service, specified only at its
//! lockup-creation boundary: it draws the funds it is authorized for into its
//! own custody, records the stream, and hands back a numeric handle.
use vstd::prelude::*;

use crate::Address;
use crate::env::Env;
use crate::error::WagentErrors;
use crate::storage::get_fluxity_address;
use crate::token::TokenLedger;

verus! {

/// Rate basis a lockup is created with.
#[derive(Clone, Copy, Debug, PartialEq, Eq, Structural)]
pub enum Rate {
    Monthly,
}

/// The parameter block handed to the streaming service's lockup creation.
#[derive(Clone, Copy, Debug)]
pub struct LockupInput {
    pub amount: i128,
    pub cliff_date: u64,
    pub start_date: u64,
    pub end_date: u64,
    pub cancellable_date: u64,
    pub is_vesting: bool,
    pub rate: Rate,
    pub sender: Address,
    pub receiver: Address,
    pub spender: Address,
    pub token: Address,
}

/// One stream held by the service: its handle and the input it was created
/// from.
#[derive(Clone, Copy, Debug)]
pub struct Lockup {
    pub id: u64,
    pub input: LockupInput,
}

/// The streaming-payment service: the streams it holds and the next handle it
/// will hand out.
#[derive(Debug)]
pub struct FluxityState {
    pub next_id: u64,
    pub lockups: Vec<Lockup>,
}

impl FluxityState {
    /// A fresh service holding no streams.
    pub fn new() -> (r: FluxityState)
        ensures
            r.next_id == 0,
            r.lockups@ == Seq::<Lockup>::empty(),
    {
        FluxityState { next_id: 0, lockups: Vec::new() }
    }

    /// Creates a lockup: draws `input.amount` of `input.token` from
    /// `input.spender` on that party's authorization, takes custody of it at
    /// `service`, records the stream and returns its fresh handle.
    pub fn create_lockup(
        &mut self,
        ledger: &mut TokenLedger,
        service: Address,
        input: &LockupInput,
    ) -> (r: u64)
        requires
            old(ledger).wf(),
            0 <= input.amount,
            old(ledger).spec_allowance(input.token, input.spender, service) >= input.amount,
            old(ledger).spec_balance(input.token, input.spender) >= input.amount,
            input.spender != service ==> old(ledger).spec_balance(input.token, service)
                + input.amount <= i128::MAX,
            old(self).next_id < u64::MAX,
        ensures
            final(ledger).wf(),
            r == old(self).next_id,
            final(self).next_id == old(self).next_id + 1,
            final(self).lockups@ == old(self).lockups@.push((Lockup { id: r, input: *input })),
            forall|t: Address, a: Address|
                final(ledger).spec_balance(t, a) == old(ledger).spec_balance(t, a) + (if t
                    == input.token {
                    (if a == service {
                        input.amount as int
                    } else {
                        0
                    }) - (if a == input.spender {
                        input.amount as int
                    } else {
                        0
                    })
                } else {
                    0
                }),
            forall|t: Address, o: Address, sp: Address|
                final(ledger).spec_allowance(t, o, sp) == old(ledger).spec_allowance(t, o, sp)
                    - (if (t, o, sp) == (input.token, input.spender, service) {
                    input.amount as int
                } else {
                    0
                }),
    {
        let id = self.next_id;
        ledger.transfer_from(service, input.token, input.spender, service, input.amount);
        self.lockups.push(Lockup { id, input: *input });
        self.next_id = id + 1;
        id
    }
}

/// The streaming service the contract was initialized with: the stored
/// address. Absence is reported as an explicit internal-consistency error
/// rather than aborting; it can only arise before initialization.
pub fn fluxity_contract(e: &Env) -> (r: Result<Address, WagentErrors>)
    ensures
        r == match e.instance.fluxity_address {
            Some(a) => Ok::<Address, WagentErrors>(a),
            None => Err::<Address, WagentErrors>(WagentErrors::ContractNotInitialized),
        },
{
    match get_fluxity_address(e) {
        Some(a) => Ok(a),
        None => Err(WagentErrors::ContractNotInitialized),
    }
}

} // verus!

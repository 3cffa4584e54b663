//! Model of the asset-transfer capability the settlement paths rely on: a
//! ledger of per-(asset, account) balances and of (asset, owner, spender)
//! authorizations, with the delegated-transfer, transfer and approve
//! operations the dispatcher uses.
use vstd::prelude::*;

use crate::Address;

verus! {

/// One (asset, account) balance of the modelled asset-transfer capability.
#[derive(Clone, Copy, Debug)]
pub struct BalanceEntry {
    pub token: Address,
    pub account: Address,
    pub amount: i128,
}

/// One authorization: `spender` may draw up to `amount` of `token` from
/// `owner`, until the ledger passes `live_until`.
#[derive(Clone, Copy, Debug)]
pub struct AllowanceEntry {
    pub token: Address,
    pub owner: Address,
    pub spender: Address,
    pub amount: i128,
    pub live_until: u32,
}

/// The key under which a balance entry is filed.
pub open spec fn bkey(e: BalanceEntry) -> (Address, Address) {
    (e.token, e.account)
}

/// The key under which an allowance entry is filed.
pub open spec fn akey(e: AllowanceEntry) -> (Address, Address, Address) {
    (e.token, e.owner, e.spender)
}

/// No two balance entries share a key.
pub open spec fn balances_unique(s: Seq<BalanceEntry>) -> bool {
    forall|i: int, j: int| 0 <= i < j < s.len() ==> bkey(#[trigger] s[i]) != bkey(#[trigger] s[j])
}

/// No two allowance entries share a key.
pub open spec fn allowances_unique(s: Seq<AllowanceEntry>) -> bool {
    forall|i: int, j: int| 0 <= i < j < s.len() ==> akey(#[trigger] s[i]) != akey(#[trigger] s[j])
}

/// The balance of `account` in `token`: the amount of the entry filed under
/// that key, and zero when no entry is.
pub open spec fn balance_of(s: Seq<BalanceEntry>, token: Address, account: Address) -> int
    decreases s.len(),
{
    if s.len() == 0 {
        0
    } else if bkey(s.last()) == (token, account) {
        s.last().amount as int
    } else {
        balance_of(s.drop_last(), token, account)
    }
}

/// The allowance entry filed under (`token`, `owner`, `spender`), if any.
pub open spec fn allowance_entry_of(
    s: Seq<AllowanceEntry>,
    token: Address,
    owner: Address,
    spender: Address,
) -> Option<AllowanceEntry>
    decreases s.len(),
{
    if s.len() == 0 {
        None
    } else if akey(s.last()) == (token, owner, spender) {
        Some(s.last())
    } else {
        allowance_entry_of(s.drop_last(), token, owner, spender)
    }
}

/// How much `spender` may still draw from `owner` in `token`; zero when no
/// authorization was ever granted.
pub open spec fn allowance_of(
    s: Seq<AllowanceEntry>,
    token: Address,
    owner: Address,
    spender: Address,
) -> int {
    match allowance_entry_of(s, token, owner, spender) {
        Some(e) => e.amount as int,
        None => 0,
    }
}

pub proof fn lemma_balance_of_absent(s: Seq<BalanceEntry>, token: Address, account: Address)
    requires
        forall|i: int| 0 <= i < s.len() ==> bkey(#[trigger] s[i]) != (token, account),
    ensures
        balance_of(s, token, account) == 0,
    decreases s.len(),
{
    if s.len() > 0 {
        assert(s.last() == s[s.len() - 1]);
        assert(forall|i: int| 0 <= i < s.drop_last().len() ==> s.drop_last()[i] == s[i]);
        lemma_balance_of_absent(s.drop_last(), token, account);
    }
}

pub proof fn lemma_balance_of_found(s: Seq<BalanceEntry>, token: Address, account: Address, i: int)
    requires
        balances_unique(s),
        0 <= i < s.len(),
        bkey(s[i]) == (token, account),
    ensures
        balance_of(s, token, account) == s[i].amount as int,
    decreases s.len(),
{
    assert(s.last() == s[s.len() - 1]);
    if i < s.len() - 1 {
        assert(bkey(s[i]) != bkey(s[s.len() - 1]));
        assert(forall|k: int| 0 <= k < s.drop_last().len() ==> s.drop_last()[k] == s[k]);
        lemma_balance_of_found(s.drop_last(), token, account, i);
    }
}

pub proof fn lemma_allowance_entry_absent(
    s: Seq<AllowanceEntry>,
    token: Address,
    owner: Address,
    spender: Address,
)
    requires
        forall|i: int| 0 <= i < s.len() ==> akey(#[trigger] s[i]) != (token, owner, spender),
    ensures
        allowance_entry_of(s, token, owner, spender) is None,
    decreases s.len(),
{
    if s.len() > 0 {
        assert(s.last() == s[s.len() - 1]);
        assert(forall|i: int| 0 <= i < s.drop_last().len() ==> s.drop_last()[i] == s[i]);
        lemma_allowance_entry_absent(s.drop_last(), token, owner, spender);
    }
}

pub proof fn lemma_allowance_entry_found(
    s: Seq<AllowanceEntry>,
    token: Address,
    owner: Address,
    spender: Address,
    i: int,
)
    requires
        allowances_unique(s),
        0 <= i < s.len(),
        akey(s[i]) == (token, owner, spender),
    ensures
        allowance_entry_of(s, token, owner, spender) == Some(s[i]),
    decreases s.len(),
{
    assert(s.last() == s[s.len() - 1]);
    if i < s.len() - 1 {
        assert(akey(s[i]) != akey(s[s.len() - 1]));
        assert(forall|k: int| 0 <= k < s.drop_last().len() ==> s.drop_last()[k] == s[k]);
        lemma_allowance_entry_found(s.drop_last(), token, owner, spender, i);
    }
}

/// Writes `amount` as the balance of (`token`, `account`), leaving every
/// other balance as it was.
fn set_balance(v: &mut Vec<BalanceEntry>, token: Address, account: Address, amount: i128)
    requires
        balances_unique(old(v)@),
    ensures
        balances_unique(final(v)@),
        balance_of(final(v)@, token, account) == amount as int,
        forall|t: Address, a: Address|
            (t, a) != (token, account) ==> balance_of(final(v)@, t, a) == balance_of(old(v)@, t, a),
{
    let mut i: usize = 0;
    while i < v.len()
        invariant
            v@ == old(v)@,
            balances_unique(old(v)@),
            i <= v@.len(),
            forall|k: int| 0 <= k < i ==> bkey(#[trigger] old(v)@[k]) != (token, account),
        decreases v@.len() - i,
    {
        if v[i].token == token && v[i].account == account {
            v.set(i, BalanceEntry { token, account, amount });
            proof {
                assert(forall|k: int|
                    0 <= k < v@.len() ==> bkey(#[trigger] v@[k]) == bkey(old(v)@[k]));
                assert(balances_unique(v@));
                lemma_balance_of_found(v@, token, account, i as int);
                assert forall|t: Address, a: Address| (t, a) != (token, account) implies balance_of(
                    v@,
                    t,
                    a,
                ) == balance_of(old(v)@, t, a) by {
                    if exists|j: int| 0 <= j < old(v)@.len() && bkey(#[trigger] old(v)@[j]) == (
                        t,
                        a,
                    ) {
                        let j = choose|j: int|
                            0 <= j < old(v)@.len() && bkey(#[trigger] old(v)@[j]) == (t, a);
                        lemma_balance_of_found(old(v)@, t, a, j);
                        lemma_balance_of_found(v@, t, a, j);
                    } else {
                        lemma_balance_of_absent(old(v)@, t, a);
                        lemma_balance_of_absent(v@, t, a);
                    }
                }
            }
            return;
        }
        i += 1;
    }
    v.push(BalanceEntry { token, account, amount });
    proof {
        assert(v@.drop_last() =~= old(v)@);
        assert(v@.last() == (BalanceEntry { token, account, amount }));
        assert(balances_unique(v@));
    }
}

/// Reads the balance of (`token`, `account`).
pub fn balance_lookup(v: &Vec<BalanceEntry>, token: Address, account: Address) -> (r: i128)
    requires
        balances_unique(v@),
    ensures
        r as int == balance_of(v@, token, account),
{
    let mut i: usize = 0;
    while i < v.len()
        invariant
            balances_unique(v@),
            i <= v@.len(),
            forall|k: int| 0 <= k < i ==> bkey(#[trigger] v@[k]) != (token, account),
        decreases v@.len() - i,
    {
        if v[i].token == token && v[i].account == account {
            proof {
                lemma_balance_of_found(v@, token, account, i as int);
            }
            return v[i].amount;
        }
        i += 1;
    }
    proof {
        lemma_balance_of_absent(v@, token, account);
    }
    0
}

/// Writes a fresh allowance entry for (`token`, `owner`, `spender`),
/// replacing whatever authorization stood there.
fn set_allowance(
    v: &mut Vec<AllowanceEntry>,
    token: Address,
    owner: Address,
    spender: Address,
    amount: i128,
    live_until: u32,
)
    requires
        allowances_unique(old(v)@),
    ensures
        allowances_unique(final(v)@),
        allowance_entry_of(final(v)@, token, owner, spender) == Some(
            (AllowanceEntry { token, owner, spender, amount, live_until }),
        ),
        forall|t: Address, o: Address, sp: Address|
            (t, o, sp) != (token, owner, spender) ==> allowance_entry_of(final(v)@, t, o, sp)
                == allowance_entry_of(old(v)@, t, o, sp),
{
    let mut i: usize = 0;
    while i < v.len()
        invariant
            v@ == old(v)@,
            allowances_unique(old(v)@),
            i <= v@.len(),
            forall|k: int| 0 <= k < i ==> akey(#[trigger] old(v)@[k]) != (token, owner, spender),
        decreases v@.len() - i,
    {
        if v[i].token == token && v[i].owner == owner && v[i].spender == spender {
            v.set(i, AllowanceEntry { token, owner, spender, amount, live_until });
            proof {
                assert(forall|k: int|
                    0 <= k < v@.len() ==> akey(#[trigger] v@[k]) == akey(old(v)@[k]));
                assert(allowances_unique(v@));
                lemma_allowance_entry_found(v@, token, owner, spender, i as int);
                assert forall|t: Address, o: Address, sp: Address|
                    (t, o, sp) != (token, owner, spender) implies allowance_entry_of(v@, t, o, sp)
                    == allowance_entry_of(old(v)@, t, o, sp) by {
                    if exists|j: int| 0 <= j < old(v)@.len() && akey(#[trigger] old(v)@[j]) == (
                        t,
                        o,
                        sp,
                    ) {
                        let j = choose|j: int|
                            0 <= j < old(v)@.len() && akey(#[trigger] old(v)@[j]) == (t, o, sp);
                        lemma_allowance_entry_found(old(v)@, t, o, sp, j);
                        lemma_allowance_entry_found(v@, t, o, sp, j);
                    } else {
                        lemma_allowance_entry_absent(old(v)@, t, o, sp);
                        lemma_allowance_entry_absent(v@, t, o, sp);
                    }
                }
            }
            return;
        }
        i += 1;
    }
    v.push(AllowanceEntry { token, owner, spender, amount, live_until });
    proof {
        assert(v@.drop_last() =~= old(v)@);
        assert(v@.last() == (AllowanceEntry { token, owner, spender, amount, live_until }));
        assert(allowances_unique(v@));
    }
}

/// Reads the allowance of (`token`, `owner`, `spender`).
pub fn allowance_lookup(
    v: &Vec<AllowanceEntry>,
    token: Address,
    owner: Address,
    spender: Address,
) -> (r: i128)
    requires
        allowances_unique(v@),
    ensures
        r as int == allowance_of(v@, token, owner, spender),
{
    let mut i: usize = 0;
    while i < v.len()
        invariant
            allowances_unique(v@),
            i <= v@.len(),
            forall|k: int| 0 <= k < i ==> akey(#[trigger] v@[k]) != (token, owner, spender),
        decreases v@.len() - i,
    {
        if v[i].token == token && v[i].owner == owner && v[i].spender == spender {
            proof {
                lemma_allowance_entry_found(v@, token, owner, spender, i as int);
            }
            return v[i].amount;
        }
        i += 1;
    }
    proof {
        lemma_allowance_entry_absent(v@, token, owner, spender);
    }
    0
}

/// Reads the expiry recorded with the allowance of (`token`, `owner`,
/// `spender`); zero when no authorization stands.
fn allowance_expiry_lookup(
    v: &Vec<AllowanceEntry>,
    token: Address,
    owner: Address,
    spender: Address,
) -> (r: u32)
    requires
        allowances_unique(v@),
    ensures
        r == match allowance_entry_of(v@, token, owner, spender) {
            Some(e) => e.live_until,
            None => 0u32,
        },
{
    let mut i: usize = 0;
    while i < v.len()
        invariant
            allowances_unique(v@),
            i <= v@.len(),
            forall|k: int| 0 <= k < i ==> akey(#[trigger] v@[k]) != (token, owner, spender),
        decreases v@.len() - i,
    {
        if v[i].token == token && v[i].owner == owner && v[i].spender == spender {
            proof {
                lemma_allowance_entry_found(v@, token, owner, spender, i as int);
            }
            return v[i].live_until;
        }
        i += 1;
    }
    proof {
        lemma_allowance_entry_absent(v@, token, owner, spender);
    }
    0
}

/// The ledger of the modelled asset-transfer capability.
#[derive(Debug)]
pub struct TokenLedger {
    pub balances: Vec<BalanceEntry>,
    pub allowances: Vec<AllowanceEntry>,
}

impl TokenLedger {
    /// A balance is what the entry under its key holds.
    pub open spec fn spec_balance(self, token: Address, account: Address) -> int {
        balance_of(self.balances@, token, account)
    }

    /// An allowance is what the entry under its key holds.
    pub open spec fn spec_allowance(self, token: Address, owner: Address, spender: Address) -> int {
        allowance_of(self.allowances@, token, owner, spender)
    }

    /// Entries are uniquely keyed and no balance or allowance is negative.
    pub open spec fn wf(self) -> bool {
        &&& balances_unique(self.balances@)
        &&& allowances_unique(self.allowances@)
        &&& forall|t: Address, a: Address| balance_of(self.balances@, t, a) >= 0
        &&& forall|t: Address, o: Address, sp: Address| allowance_of(self.allowances@, t, o, sp) >= 0
    }

    /// An empty ledger: every balance and every allowance is zero.
    pub fn new() -> (r: TokenLedger)
        ensures
            r.wf(),
            forall|t: Address, a: Address| r.spec_balance(t, a) == 0,
            forall|t: Address, o: Address, sp: Address| r.spec_allowance(t, o, sp) == 0,
    {
        let r = TokenLedger { balances: Vec::new(), allowances: Vec::new() };
        proof {
            assert forall|t: Address, a: Address| r.spec_balance(t, a) == 0 by {
                lemma_balance_of_absent(r.balances@, t, a);
            }
            assert forall|t: Address, o: Address, sp: Address| r.spec_allowance(t, o, sp) == 0 by {
                lemma_allowance_entry_absent(r.allowances@, t, o, sp);
            }
        }
        r
    }

    /// Reads a balance.
    pub fn balance(&self, token: Address, account: Address) -> (r: i128)
        requires
            self.wf(),
        ensures
            r as int == self.spec_balance(token, account),
    {
        balance_lookup(&self.balances, token, account)
    }

    /// Creates `amount` units of `token` on `to`'s balance. Stands for the
    /// issuer of the asset; only tests drive it.
    pub fn mint(&mut self, token: Address, to: Address, amount: i128)
        requires
            old(self).wf(),
            0 <= amount,
            old(self).spec_balance(token, to) + amount <= i128::MAX,
        ensures
            final(self).wf(),
            forall|t: Address, a: Address|
                final(self).spec_balance(t, a) == old(self).spec_balance(t, a) + (if (t, a) == (
                    token,
                    to,
                ) {
                    amount as int
                } else {
                    0
                }),
            final(self).allowances@ == old(self).allowances@,
    {
        let b = balance_lookup(&self.balances, token, to);
        set_balance(&mut self.balances, token, to, b + amount);
    }

    /// Grants `spender` the right to draw up to `amount` of `token` from
    /// `owner`, with the given expiry; replaces any earlier authorization.
    pub fn approve(
        &mut self,
        token: Address,
        owner: Address,
        spender: Address,
        amount: i128,
        live_until: u32,
    )
        requires
            old(self).wf(),
            0 <= amount,
        ensures
            final(self).wf(),
            allowance_entry_of(final(self).allowances@, token, owner, spender) == Some(
                (AllowanceEntry { token, owner, spender, amount, live_until }),
            ),
            forall|t: Address, o: Address, sp: Address|
                (t, o, sp) != (token, owner, spender) ==> allowance_entry_of(
                    final(self).allowances@,
                    t,
                    o,
                    sp,
                ) == allowance_entry_of(old(self).allowances@, t, o, sp),
            final(self).balances@ == old(self).balances@,
    {
        set_allowance(&mut self.allowances, token, owner, spender, amount, live_until);
        proof {
            assert forall|t: Address, o: Address, sp: Address|
                allowance_of(self.allowances@, t, o, sp) >= 0 by {
                if t == token && o == owner && sp == spender {
                    assert(allowance_entry_of(self.allowances@, t, o, sp) == Some(
                        (AllowanceEntry { token, owner, spender, amount, live_until }),
                    ));
                } else {
                    assert(allowance_entry_of(self.allowances@, t, o, sp) == allowance_entry_of(
                        old(self).allowances@,
                        t,
                        o,
                        sp,
                    ));
                    assert(allowance_of(old(self).allowances@, t, o, sp) >= 0);
                }
            }
            assert forall|t: Address, a: Address|
                balance_of(self.balances@, t, a) >= 0 by {
                assert(balance_of(old(self).balances@, t, a) >= 0);
            }
        }
    }

    /// Moves `amount` of `token` from `from` to `to`.
    pub fn transfer(&mut self, token: Address, from: Address, to: Address, amount: i128)
        requires
            old(self).wf(),
            0 <= amount,
            old(self).spec_balance(token, from) >= amount,
            from != to ==> old(self).spec_balance(token, to) + amount <= i128::MAX,
        ensures
            final(self).wf(),
            forall|t: Address, a: Address|
                final(self).spec_balance(t, a) == old(self).spec_balance(t, a) + (if t == token {
                    (if a == to {
                        amount as int
                    } else {
                        0
                    }) - (if a == from {
                        amount as int
                    } else {
                        0
                    })
                } else {
                    0
                }),
            final(self).allowances@ == old(self).allowances@,
    {
        let b_from = balance_lookup(&self.balances, token, from);
        set_balance(&mut self.balances, token, from, b_from - amount);
        let b_to = balance_lookup(&self.balances, token, to);
        set_balance(&mut self.balances, token, to, b_to + amount);
    }

    /// Moves `amount` of `token` from `from` to `to` on `spender`'s
    /// authority, consuming that much of the authorization.
    pub fn transfer_from(
        &mut self,
        spender: Address,
        token: Address,
        from: Address,
        to: Address,
        amount: i128,
    )
        requires
            old(self).wf(),
            0 <= amount,
            old(self).spec_allowance(token, from, spender) >= amount,
            old(self).spec_balance(token, from) >= amount,
            from != to ==> old(self).spec_balance(token, to) + amount <= i128::MAX,
        ensures
            final(self).wf(),
            forall|t: Address, a: Address|
                final(self).spec_balance(t, a) == old(self).spec_balance(t, a) + (if t == token {
                    (if a == to {
                        amount as int
                    } else {
                        0
                    }) - (if a == from {
                        amount as int
                    } else {
                        0
                    })
                } else {
                    0
                }),
            forall|t: Address, o: Address, sp: Address|
                final(self).spec_allowance(t, o, sp) == old(self).spec_allowance(t, o, sp) - (if (
                t,
                o,
                sp,
            ) == (token, from, spender) {
                    amount as int
                } else {
                    0
                }),
    {
        let granted = allowance_lookup(&self.allowances, token, from, spender);
        let live_until = allowance_expiry_lookup(&self.allowances, token, from, spender);
        set_allowance(&mut self.allowances, token, from, spender, granted - amount, live_until);
        proof {
            assert forall|t: Address, o: Address, sp: Address|
                allowance_of(self.allowances@, t, o, sp) == old(self).spec_allowance(t, o, sp)
                    - (if (t, o, sp) == (token, from, spender) {
                    amount as int
                } else {
                    0
                }) by {
                if (t, o, sp) == (token, from, spender) {
                } else {
                    assert(allowance_entry_of(self.allowances@, t, o, sp) == allowance_entry_of(
                        old(self).allowances@,
                        t,
                        o,
                        sp,
                    ));
                }
            }
        }
        let b_from = balance_lookup(&self.balances, token, from);
        set_balance(&mut self.balances, token, from, b_from - amount);
        let b_to = balance_lookup(&self.balances, token, to);
        set_balance(&mut self.balances, token, to, b_to + amount);
        proof {
            assert forall|t: Address, a: Address|
                balance_of(self.balances@, t, a) >= 0 by {
                assert(balance_of(old(self).balances@, t, a) >= 0);
            }
        }
    }
}

} // verus!

use vstd::prelude::*;

verus! {

broadcast use vstd::std_specs::hash::group_hash_axioms;

use std::collections::HashMap;

/// Balance of account `k` in the book `m`; an account without an entry
/// holds nothing.
pub open spec fn bal(m: Map<u64, u64>, k: u64) -> u64 {
    if m.contains_key(k) {
        m[k]
    } else {
        0
    }
}

/// The book after `a` units land on account `k`.
pub open spec fn credit(m: Map<u64, u64>, k: u64, a: u64) -> Map<u64, u64> {
    m.insert(k, (bal(m, k) + a) as u64)
}

/// The book after `a` units leave account `k`.
pub open spec fn debit(m: Map<u64, u64>, k: u64, a: u64) -> Map<u64, u64> {
    m.insert(k, (bal(m, k) - a) as u64)
}

/// The book after `a` units move from `from` to `to`: the debit lands
/// first, so a transfer to oneself nets out exactly.
pub open spec fn pay(m: Map<u64, u64>, from: u64, to: u64, a: u64) -> Map<u64, u64> {
    credit(debit(m, from, a), to, a)
}

/// The transfer neither overdraws the payer nor overflows the receiver.
pub open spec fn can_pay(m: Map<u64, u64>, from: u64, to: u64, a: u64) -> bool {
    &&& bal(m, from) >= a
    &&& bal(debit(m, from, a), to) + a <= u64::MAX
}

/// Crediting `to` cannot overflow its balance.
pub open spec fn can_credit(m: Map<u64, u64>, to: u64, a: u64) -> bool {
    bal(m, to) + a <= u64::MAX
}

/// Account-wise reading of a transfer: the payer loses `a`, the receiver
/// gains `a`, everybody else keeps their balance; a self-transfer changes
/// nothing.
pub proof fn lemma_pay_bal(m: Map<u64, u64>, from: u64, to: u64, a: u64, k: u64)
    requires
        can_pay(m, from, to, a),
    ensures
        from != to && k == from ==> bal(pay(m, from, to, a), k) == bal(m, from) - a,
        from != to && k == to ==> bal(pay(m, from, to, a), k) == bal(m, to) + a,
        from == to ==> bal(pay(m, from, to, a), k) == bal(m, k),
        k != from && k != to ==> bal(pay(m, from, to, a), k) == bal(m, k),
{
}

/// Current balance of account `k`.
pub fn balance_of(m: &HashMap<u64, u64>, k: u64) -> (r: u64)
    ensures
        r == bal(m@, k),
{
    match m.get(&k) {
        Some(v) => *v,
        None => 0,
    }
}

/// Overwrite the balance of account `k`; the deposit edge that funds an
/// account from outside the engine.
pub fn set_balance(m: &mut HashMap<u64, u64>, k: u64, v: u64)
    ensures
        final(m)@ == old(m)@.insert(k, v),
{
    m.insert(k, v);
}

/// Move `a` units from `from` to `to` inside the book.
pub fn transfer(m: &mut HashMap<u64, u64>, from: u64, to: u64, a: u64)
    requires
        can_pay(old(m)@, from, to, a),
    ensures
        final(m)@ == pay(old(m)@, from, to, a),
{
    let fb = balance_of(m, from);
    m.insert(from, fb - a);
    let tb = balance_of(m, to);
    m.insert(to, tb + a);
}

/// Credit `a` units to `to` out of an escrow held beside the book.
pub fn credit_account(m: &mut HashMap<u64, u64>, to: u64, a: u64)
    requires
        can_credit(old(m)@, to, a),
    ensures
        final(m)@ == credit(old(m)@, to, a),
{
    let tb = balance_of(m, to);
    m.insert(to, tb + a);
}

/// Debit `a` units from `from` into an escrow held beside the book.
pub fn debit_account(m: &mut HashMap<u64, u64>, from: u64, a: u64)
    requires
        bal(old(m)@, from) >= a,
    ensures
        final(m)@ == debit(old(m)@, from, a),
{
    let fb = balance_of(m, from);
    m.insert(from, fb - a);
}

} // verus!

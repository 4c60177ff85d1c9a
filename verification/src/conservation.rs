use vstd::prelude::*;

verus! {

broadcast use vstd::std_specs::hash::group_hash_axioms;

use vstd::set::fold::{
    is_fun_commutative, lemma_fold_insert, lemma_fold_empty, lemma_finite_set_induct,
};
use crate::fees::{lemma_royalty_le_price, platform_fee_spec};
use crate::ledger::{bal, can_pay, can_credit, credit, debit, pay};
use crate::market::{AuctionLot, Market, vault_due};

/// The folding step that accumulates the values of `m`.
pub open spec fn add_value_of(m: Map<u64, u64>) -> spec_fn(int, u64) -> int {
    |b: int, k: u64| b + m[k]
}

/// Sum of all values of a finite map: the total currency a balance book
/// holds.
pub open spec fn map_sum(m: Map<u64, u64>) -> int {
    m.dom().fold(0, add_value_of(m))
}

/// Folding two functions that agree on every element of the set yields
/// the same result.
proof fn lemma_fold_congruence(
    s: Set<u64>,
    f1: spec_fn(int, u64) -> int,
    f2: spec_fn(int, u64) -> int,
)
    requires
        s.finite(),
        is_fun_commutative(f1),
        is_fun_commutative(f2),
        forall|b: int, k: u64| s.contains(k) ==> #[trigger] f1(b, k) == #[trigger] f2(b, k),
    ensures
        s.fold(0, f1) == s.fold(0, f2),
{
    let pred = |s2: Set<u64>|
        (forall|b: int, k: u64| s2.contains(k) ==> #[trigger] f1(b, k) == #[trigger] f2(b, k))
            ==> s2.fold(0, f1) == s2.fold(0, f2);
    assert(pred(Set::<u64>::empty())) by {
        lemma_fold_empty(0, f1);
        lemma_fold_empty(0, f2);
    }
    assert forall|s2: Set<u64>, a: u64|
        pred(s2) && s2.finite() && !s2.contains(a) implies #[trigger] pred(s2.insert(a)) by {
        if forall|b: int, k: u64| s2.insert(a).contains(k) ==> #[trigger] f1(b, k)
            == #[trigger] f2(b, k) {
            assert forall|b: int, k: u64| s2.contains(k) implies #[trigger] f1(b, k)
                == #[trigger] f2(b, k) by {
                assert(s2.insert(a).contains(k));
            }
            lemma_fold_insert(s2, 0, f1, a);
            lemma_fold_insert(s2, 0, f2, a);
            assert(s2.insert(a).contains(a));
        }
    }
    lemma_finite_set_induct(s, pred);
}

/// The sum of an empty book is nothing.
pub proof fn lemma_map_sum_empty()
    ensures
        map_sum(Map::<u64, u64>::empty()) == 0,
{
    lemma_fold_empty(0, add_value_of(Map::<u64, u64>::empty()));
}

/// Writing a balance moves the sum by the difference with the balance the
/// account held before.
pub proof fn lemma_map_sum_insert(m: Map<u64, u64>, k: u64, v: u64)
    requires
        m.dom().finite(),
    ensures
        map_sum(m.insert(k, v)) == map_sum(m) - bal(m, k) + v,
    decreases m.dom().len(),
{
    let m1 = m.insert(k, v);
    assert(is_fun_commutative(add_value_of(m)));
    assert(is_fun_commutative(add_value_of(m1)));
    if m.dom().contains(k) {
        let m0 = m.remove(k);
        assert(m0.dom() =~= m.dom().remove(k));
        lemma_map_sum_insert(m0, k, m[k]);
        assert(m0.insert(k, m[k]) =~= m);
        lemma_map_sum_insert(m0, k, v);
        assert(m0.insert(k, v) =~= m1);
        assert(bal(m0, k) == 0);
    } else {
        assert(m1.dom() =~= m.dom().insert(k));
        lemma_fold_congruence(m.dom(), add_value_of(m), add_value_of(m1));
        lemma_fold_insert(m.dom(), 0, add_value_of(m1), k);
        assert(bal(m, k) == 0);
    }
}

/// Dropping an account from the book takes exactly its balance out of the
/// sum.
pub proof fn lemma_map_sum_remove(m: Map<u64, u64>, k: u64)
    requires
        m.dom().finite(),
        m.dom().contains(k),
    ensures
        map_sum(m) == map_sum(m.remove(k)) + m[k],
{
    let m0 = m.remove(k);
    assert(m0.dom() =~= m.dom().remove(k));
    lemma_map_sum_insert(m0, k, m[k]);
    assert(m0.insert(k, m[k]) =~= m);
    assert(bal(m0, k) == 0);
}

/// A book of unsigned balances never sums below zero.
pub proof fn lemma_map_sum_nonneg(m: Map<u64, u64>)
    requires
        m.dom().finite(),
    ensures
        map_sum(m) >= 0,
{
    let f = add_value_of(m);
    assert(is_fun_commutative(f));
    let pred = |s2: Set<u64>| s2.fold(0, f) >= 0;
    assert(pred(Set::<u64>::empty())) by {
        lemma_fold_empty(0, f);
    }
    assert forall|s2: Set<u64>, a: u64|
        pred(s2) && s2.finite() && !s2.contains(a) implies #[trigger] pred(s2.insert(a)) by {
        lemma_fold_insert(s2, 0, f, a);
    }
    lemma_finite_set_induct(m.dom(), pred);
}

/// No single balance exceeds the book's total.
pub proof fn lemma_bal_le_map_sum(m: Map<u64, u64>, k: u64)
    requires
        m.dom().finite(),
    ensures
        bal(m, k) <= map_sum(m),
{
    if m.dom().contains(k) {
        lemma_map_sum_remove(m, k);
        assert((m.remove(k)).dom() =~= m.dom().remove(k));
        lemma_map_sum_nonneg(m.remove(k));
    } else {
        lemma_map_sum_nonneg(m);
    }
}

/// A transfer inside the book leaves its sum unchanged.
pub proof fn lemma_pay_preserves_sum(m: Map<u64, u64>, from: u64, to: u64, a: u64)
    requires
        m.dom().finite(),
        can_pay(m, from, to, a),
    ensures
        map_sum(pay(m, from, to, a)) == map_sum(m),
{
    let m1 = debit(m, from, a);
    lemma_map_sum_insert(m, from, (bal(m, from) - a) as u64);
    assert(m1.dom() =~= m.dom().insert(from));
    lemma_map_sum_insert(m1, to, (bal(m1, to) + a) as u64);
}

/// A credit out of an escrow held beside the book grows the sum by
/// exactly the credited amount.
pub proof fn lemma_credit_changes_sum(m: Map<u64, u64>, to: u64, a: u64)
    requires
        m.dom().finite(),
        can_credit(m, to, a),
    ensures
        map_sum(credit(m, to, a)) == map_sum(m) + a,
{
    lemma_map_sum_insert(m, to, (bal(m, to) + a) as u64);
}

/// A debit into an escrow held beside the book shrinks the sum by exactly
/// the debited amount.
pub proof fn lemma_debit_changes_sum(m: Map<u64, u64>, from: u64, a: u64)
    requires
        m.dom().finite(),
        bal(m, from) >= a,
    ensures
        map_sum(debit(m, from, a)) == map_sum(m) - a,
{
    lemma_map_sum_insert(m, from, (bal(m, from) - a) as u64);
}

/// The currency each open auction's vault holds, keyed by asset.
pub open spec fn escrow_book(auctions: Map<u64, AuctionLot>) -> Map<u64, u64> {
    auctions.map_values(|l: AuctionLot| l.escrow)
}

/// All currency in the system: what the accounts hold plus what the
/// auction vaults hold in escrow.  Operations that move no currency —
/// cancelling an order, registering an asset — keep it unchanged by
/// construction; the lemmas below show the same of every operation that
/// does move funds.  Only the funding edge changes it.
pub open spec fn currency_total(m: Market) -> int {
    map_sum(m.bank@) + map_sum(escrow_book(m.auctions@))
}

proof fn lemma_escrow_book_insert(au: Map<u64, AuctionLot>, k: u64, l: AuctionLot)
    ensures
        escrow_book(au.insert(k, l)) =~= escrow_book(au).insert(k, l.escrow),
        escrow_book(au).dom() =~= au.dom(),
{
}

proof fn lemma_escrow_book_remove(au: Map<u64, AuctionLot>, k: u64)
    ensures
        escrow_book(au.remove(k)) =~= escrow_book(au).remove(k),
        escrow_book(au).dom() =~= au.dom(),
{
}

/// Opening a listing conserves currency: the fee only moves from the
/// creator to the treasury.  The hypotheses are what `create_order`
/// ensures of a successful call; for `create_auction` the lemma below
/// adds the fresh, empty vault.
pub proof fn lemma_create_order_conserves(
    pre: Market,
    post: Market,
    creator: u64,
    treasury: u64,
    price: u64,
)
    requires
        can_pay(pre.bank@, creator, treasury, platform_fee_spec(price) as u64),
        post.bank@ == pay(pre.bank@, creator, treasury, platform_fee_spec(price) as u64),
        post.auctions@ == pre.auctions@,
    ensures
        currency_total(post) == currency_total(pre),
{
    lemma_pay_preserves_sum(pre.bank@, creator, treasury, platform_fee_spec(price) as u64);
}

/// Opening an auction conserves currency: the fee moves to the treasury
/// and the new vault starts empty.
pub proof fn lemma_create_auction_conserves(
    pre: Market,
    post: Market,
    creator: u64,
    treasury: u64,
    price: u64,
    asset: u64,
    lot: AuctionLot,
)
    requires
        can_pay(pre.bank@, creator, treasury, platform_fee_spec(price) as u64),
        post.bank@ == pay(pre.bank@, creator, treasury, platform_fee_spec(price) as u64),
        !pre.auctions@.contains_key(asset),
        lot.escrow == 0,
        post.auctions@ == pre.auctions@.insert(asset, lot),
    ensures
        currency_total(post) == currency_total(pre),
{
    lemma_pay_preserves_sum(pre.bank@, creator, treasury, platform_fee_spec(price) as u64);
    lemma_escrow_book_insert(pre.auctions@, asset, lot);
    lemma_map_sum_insert(escrow_book(pre.auctions@), asset, 0);
}

/// Filling an order conserves currency: the buyer's price is exactly the
/// royalty plus the proceeds, and no vault is involved.
pub proof fn lemma_fill_order_conserves(
    pre: Market,
    post: Market,
    asset: u64,
    buyer: u64,
    minter: u64,
    rp: u16,
)
    requires
        pre.wf(),
        rp <= 100,
        pre.fill_fits(asset, buyer, minter, rp),
        pre.fill_order_accepts(asset, buyer),
        post.bank@ == pay(
            pay(pre.bank@, buyer, minter, pre.fill_royalty(asset, rp)),
            buyer,
            pre.orders@[asset].creator,
            pre.fill_proceeds(asset, rp),
        ),
        post.auctions@ == pre.auctions@,
    ensures
        currency_total(post) == currency_total(pre),
{
    let price = pre.orders@[asset].price;
    let creator = pre.orders@[asset].creator;
    let roy = pre.fill_royalty(asset, rp);
    let pro = pre.fill_proceeds(asset, rp);
    lemma_royalty_le_price(price, rp);
    let mid = pay(pre.bank@, buyer, minter, roy);
    lemma_pay_preserves_sum(pre.bank@, buyer, minter, roy);
    assert(mid.dom() =~= pre.bank@.dom().insert(buyer).insert(minter));
    lemma_pay_preserves_sum(mid, buyer, creator, pro);
}

/// A bid conserves currency: the refund leaves the vault for the previous
/// leader, the new bid leaves the bidder for the vault, and the vault
/// ends holding exactly the new leading price.
pub proof fn lemma_bid_conserves(
    pre: Market,
    post: Market,
    asset: u64,
    bidder: u64,
    new_price: u64,
    now: u128,
)
    requires
        pre.wf(),
        pre.bid_fits(asset),
        pre.bid_accepts(asset, bidder, new_price, now),
        post.bank@ == debit(pre.bank_after_refund(asset), bidder, new_price),
        post.auctions@ == pre.auctions@.insert(asset, pre.bid_next_lot(asset, bidder, new_price)),
    ensures
        currency_total(post) == currency_total(pre),
{
    let au = pre.auction_at(asset);
    let lot = pre.bid_next_lot(asset, bidder, new_price);
    let m1 = pre.bank_after_refund(asset);
    assert(pre.auctions@[asset].escrow == vault_due(au));
    if pre.has_live_bid(asset) {
        lemma_credit_changes_sum(pre.bank@, au.refund_receiver, au.price);
        assert(m1.dom() =~= pre.bank@.dom().insert(au.refund_receiver));
    }
    lemma_debit_changes_sum(m1, bidder, new_price);
    lemma_escrow_book_insert(pre.auctions@, asset, lot);
    lemma_map_sum_insert(escrow_book(pre.auctions@), asset, new_price);
    assert(bal(escrow_book(pre.auctions@), asset) == vault_due(au));
}

/// Cancelling an auction conserves currency: whatever the vault held goes
/// back to the refund receiver before the vault closes.
pub proof fn lemma_cancel_auction_conserves(pre: Market, post: Market, asset: u64)
    requires
        pre.wf(),
        pre.bid_fits(asset),
        pre.auctions@.contains_key(asset),
        post.bank@ == pre.bank_after_refund(asset),
        post.auctions@ == pre.auctions@.remove(asset),
    ensures
        currency_total(post) == currency_total(pre),
{
    let au = pre.auction_at(asset);
    assert(pre.auctions@[asset].escrow == vault_due(au));
    lemma_escrow_book_remove(pre.auctions@, asset);
    lemma_map_sum_remove(escrow_book(pre.auctions@), asset);
    if pre.has_live_bid(asset) {
        lemma_credit_changes_sum(pre.bank@, au.refund_receiver, au.price);
    }
}

/// Resolving an auction conserves currency: the vault's whole balance —
/// and nothing more — is split between the royalty recipient and the
/// creator.
pub proof fn lemma_auction_resolve_conserves(
    pre: Market,
    post: Market,
    asset: u64,
    minter: u64,
    rp: u16,
)
    requires
        pre.wf(),
        rp <= 100,
        pre.auctions@.contains_key(asset),
        pre.resolve_fits(asset, minter, rp),
        post.bank@ == pre.bank_after_resolve(asset, minter, rp),
        post.auctions@ == pre.auctions@.remove(asset),
    ensures
        currency_total(post) == currency_total(pre),
{
    let au = pre.auction_at(asset);
    assert(pre.auctions@[asset].escrow == vault_due(au));
    lemma_escrow_book_remove(pre.auctions@, asset);
    lemma_map_sum_remove(escrow_book(pre.auctions@), asset);
    if pre.has_live_bid(asset) {
        let roy = pre.auction_royalty(asset, rp);
        let pro = pre.auction_proceeds(asset, rp);
        lemma_royalty_le_price(au.price, rp);
        lemma_credit_changes_sum(pre.bank@, minter, roy);
        let m1 = credit(pre.bank@, minter, roy);
        assert(m1.dom() =~= pre.bank@.dom().insert(minter));
        lemma_credit_changes_sum(m1, au.creator, pro);
    }
}

} // verus!

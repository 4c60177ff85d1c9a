use vstd::prelude::*;

verus! {

use crate::fees::{lemma_royalty_le_price, platform_fee_spec, proceeds_spec, royalty_spec};
use crate::ledger::{bal, can_pay, pay, debit, lemma_pay_bal};
use crate::market::Market;
use crate::records::Order;

/// The settlement split is exact: the royalty and the seller proceeds add
/// back up to the price, so no settlement mints or loses currency.
pub proof fn lemma_settlement_split_is_exact(price: u64, points: u16)
    requires
        points <= 100,
    ensures
        royalty_spec(price, points) + proceeds_spec(price, points) == price,
{
}

/// Opening a listing debits its creator by exactly the platform fee — two
/// percent of the price, truncating — beside the asset taken into
/// custody, and credits the treasury by the same amount.  The hypotheses
/// are what `create_order` and `create_auction` ensure of a successful
/// call.
pub proof fn lemma_listing_fee_debits_creator(
    pre: Market,
    post: Market,
    creator: u64,
    treasury: u64,
    price: u64,
)
    requires
        can_pay(pre.bank@, creator, treasury, platform_fee_spec(price) as u64),
        post.bank@ == pay(pre.bank@, creator, treasury, platform_fee_spec(price) as u64),
        creator != treasury,
    ensures
        bal(post.bank@, creator) == bal(pre.bank@, creator) - platform_fee_spec(price),
        bal(post.bank@, treasury) == bal(pre.bank@, treasury) + platform_fee_spec(price),
{
    lemma_pay_bal(pre.bank@, creator, treasury, platform_fee_spec(price) as u64, creator);
    lemma_pay_bal(pre.bank@, creator, treasury, platform_fee_spec(price) as u64, treasury);
}

/// Round trip: creating an order and then cancelling it hands the exact
/// asset back to the creator, leaves no listing behind, and changes the
/// creator's balance by nothing beside the listing fee already paid.  The
/// hypotheses are what the two operations ensure of successful calls; the
/// lemma also shows the cancellation was owed success.
pub proof fn lemma_order_round_trip(
    m0: Market,
    m1: Market,
    m2: Market,
    creator: u64,
    treasury: u64,
    asset: u64,
    memo: String,
    price: u64,
    bump: u8,
)
    requires
        m0.wf(),
        m0.create_order_accepts(creator, asset, price),
        can_pay(m0.bank@, creator, treasury, platform_fee_spec(price) as u64),
        m1.bank@ == pay(m0.bank@, creator, treasury, platform_fee_spec(price) as u64),
        m1.holdings@ == m0.holdings@.remove(asset),
        m1.orders@ == m0.orders@.insert(asset, (Order { creator, mint_key: asset, memo, price, bump })),
        m1.auctions@ == m0.auctions@,
        m2.orders@ == m1.orders@.remove(asset),
        m2.holdings@ == m1.holdings@.insert(asset, creator),
        m2.bank@ == m1.bank@,
        m2.auctions@ == m1.auctions@,
        creator != treasury,
    ensures
        m1.cancel_order_accepts(asset, creator),
        m2.held_by(asset, creator),
        !m2.listed(asset),
        bal(m2.bank@, creator) == bal(m0.bank@, creator) - platform_fee_spec(price),
{
    lemma_pay_bal(m0.bank@, creator, treasury, platform_fee_spec(price) as u64, creator);
}

/// Filling an order settles exactly: the buyer is debited the full price
/// and nothing more, the royalty share lands on the minter's account, the
/// remaining proceeds land on the creator's, no other balance moves, and
/// the asset changes hands into the buyer's holding.  The hypotheses are
/// what `fill_order` ensures of a successful call, for distinct parties.
pub proof fn lemma_fill_settles_exactly(
    pre: Market,
    post: Market,
    asset: u64,
    buyer: u64,
    minter: u64,
    rp: u16,
)
    requires
        pre.wf(),
        rp <= 100,
        pre.fill_fits(asset, buyer, minter, rp),
        pre.fill_order_accepts(asset, buyer),
        post.bank@ == pay(
            pay(pre.bank@, buyer, minter, pre.fill_royalty(asset, rp)),
            buyer,
            pre.orders@[asset].creator,
            pre.fill_proceeds(asset, rp),
        ),
        post.holdings@ == pre.holdings@.insert(asset, buyer),
        post.orders@ == pre.orders@.remove(asset),
        post.auctions@ == pre.auctions@,
        buyer != minter,
        buyer != pre.orders@[asset].creator,
        minter != pre.orders@[asset].creator,
    ensures
        bal(post.bank@, buyer) == bal(pre.bank@, buyer) - pre.orders@[asset].price,
        bal(post.bank@, minter) == bal(pre.bank@, minter) + royalty_spec(
            pre.orders@[asset].price,
            rp,
        ),
        bal(post.bank@, pre.orders@[asset].creator) == bal(
            pre.bank@,
            pre.orders@[asset].creator,
        ) + proceeds_spec(pre.orders@[asset].price, rp),
        forall|k: u64|
            k != buyer && k != minter && k != pre.orders@[asset].creator ==> bal(post.bank@, k)
                == bal(pre.bank@, k),
        post.held_by(asset, buyer),
        !post.listed(asset),
{
    let price = pre.orders@[asset].price;
    let creator = pre.orders@[asset].creator;
    let roy = pre.fill_royalty(asset, rp);
    let pro = pre.fill_proceeds(asset, rp);
    lemma_royalty_le_price(price, rp);
    let mid = pay(pre.bank@, buyer, minter, roy);
    assert forall|k: u64|
        k != buyer && k != minter && k != creator implies bal(post.bank@, k) == bal(
        pre.bank@,
        k,
    ) by {
        lemma_pay_bal(pre.bank@, buyer, minter, roy, k);
        lemma_pay_bal(mid, buyer, creator, pro, k);
    }
    lemma_pay_bal(pre.bank@, buyer, minter, roy, buyer);
    lemma_pay_bal(pre.bank@, buyer, minter, roy, minter);
    lemma_pay_bal(pre.bank@, buyer, minter, roy, creator);
    lemma_pay_bal(mid, buyer, creator, pro, buyer);
    lemma_pay_bal(mid, buyer, creator, pro, minter);
    lemma_pay_bal(mid, buyer, creator, pro, creator);
}

/// Resolving an auction with a winner disburses the vault exactly: the
/// royalty share lands on the minter's account, the remaining proceeds on
/// the creator's, the two together equal the vault's whole balance, no
/// other account moves, and the asset lands with the winner.  The
/// hypotheses are what `auction_resolve` ensures of a successful call
/// with a live bid, for distinct parties.
pub proof fn lemma_resolve_settles_exactly(
    pre: Market,
    post: Market,
    asset: u64,
    minter: u64,
    rp: u16,
)
    requires
        pre.wf(),
        rp <= 100,
        pre.auctions@.contains_key(asset),
        pre.has_live_bid(asset),
        pre.resolve_fits(asset, minter, rp),
        post.bank@ == pre.bank_after_resolve(asset, minter, rp),
        post.holdings@ == pre.holdings@.insert(asset, pre.auction_at(asset).refund_receiver),
        post.auctions@ == pre.auctions@.remove(asset),
        post.orders@ == pre.orders@,
        minter != pre.auction_at(asset).creator,
    ensures
        bal(post.bank@, minter) == bal(pre.bank@, minter) + royalty_spec(
            pre.auction_at(asset).price,
            rp,
        ),
        bal(post.bank@, pre.auction_at(asset).creator) == bal(
            pre.bank@,
            pre.auction_at(asset).creator,
        ) + proceeds_spec(pre.auction_at(asset).price, rp),
        royalty_spec(pre.auction_at(asset).price, rp) + proceeds_spec(
            pre.auction_at(asset).price,
            rp,
        ) == pre.auctions@[asset].escrow,
        forall|k: u64|
            k != minter && k != pre.auction_at(asset).creator ==> bal(post.bank@, k) == bal(
                pre.bank@,
                k,
            ),
        post.held_by(asset, pre.auction_at(asset).refund_receiver),
        !post.listed(asset),
{
    lemma_royalty_le_price(pre.auction_at(asset).price, rp);
}

/// Refund chain: when a bid is accepted while another bid stands, the
/// outstanding bid is repaid to its receiver in full, and afterwards the
/// vault holds exactly the new leading bid.  The hypotheses are what
/// `bid` ensures of a successful call.
pub proof fn lemma_bid_refund_chain(
    pre: Market,
    post: Market,
    asset: u64,
    bidder: u64,
    new_price: u64,
    now: u128,
)
    requires
        pre.wf(),
        pre.bid_fits(asset),
        pre.bid_accepts(asset, bidder, new_price, now),
        pre.has_live_bid(asset),
        pre.auction_at(asset).refund_receiver != bidder,
        post.bank@ == debit(pre.bank_after_refund(asset), bidder, new_price),
        post.auctions@ == pre.auctions@.insert(asset, pre.bid_next_lot(asset, bidder, new_price)),
    ensures
        bal(post.bank@, pre.auction_at(asset).refund_receiver) == bal(
            pre.bank@,
            pre.auction_at(asset).refund_receiver,
        ) + pre.auction_at(asset).price,
        bal(post.bank@, bidder) == bal(pre.bank@, bidder) - new_price,
        forall|k: u64|
            k != bidder && k != pre.auction_at(asset).refund_receiver ==> bal(post.bank@, k)
                == bal(pre.bank@, k),
        post.auctions@[asset].escrow == new_price,
        post.has_live_bid(asset),
{
}

/// A bid strictly below the current leading price is never accepted,
/// whether or not a real bid stands yet: the stored price acts as the
/// reserve.
pub proof fn lemma_low_bid_rejected(m: Market, asset: u64, bidder: u64, new_price: u64, now: u128)
    requires
        m.auctions@.contains_key(asset),
        new_price < m.auction_at(asset).price,
    ensures
        !m.bid_accepts(asset, bidder, new_price, now),
{
}

/// Resolving before the end time is never accepted, whatever the bid
/// state.
pub proof fn lemma_resolve_before_end_rejected(m: Market, asset: u64, now: u128)
    requires
        m.auctions@.contains_key(asset),
        now < m.auction_at(asset).end_time,
    ensures
        !m.auction_resolve_accepts(asset, now),
{
}

/// Resolving an auction that never saw a bid moves no funds at all and
/// returns the asset to the creator.  The hypotheses are what
/// `auction_resolve` ensures of a successful call without a live bid.
pub proof fn lemma_resolve_no_bid_moves_no_funds(
    pre: Market,
    post: Market,
    asset: u64,
    minter: u64,
    rp: u16,
)
    requires
        pre.auctions@.contains_key(asset),
        !pre.has_live_bid(asset),
        post.bank@ == pre.bank_after_resolve(asset, minter, rp),
        post.holdings@ == pre.holdings@.insert(asset, pre.auction_at(asset).creator),
    ensures
        post.bank@ == pre.bank@,
        post.held_by(asset, pre.auction_at(asset).creator),
{
}

/// Cancelling at or after the end time is never accepted, whatever the
/// bid state.
pub proof fn lemma_cancel_after_end_rejected(m: Market, asset: u64, now: u128)
    requires
        m.auctions@.contains_key(asset),
        now >= m.auction_at(asset).end_time,
    ensures
        !m.cancel_auction_accepts(asset, now),
{
}

/// Custody is exclusive: in a well-formed ledger an asset sits in at most
/// one place — a personal holding, an order vault or an auction vault —
/// so exactly one unit of it circulates.
pub proof fn lemma_custody_exclusive(m: Market, asset: u64)
    requires
        m.wf(),
    ensures
        m.listed(asset) ==> !m.holdings@.contains_key(asset),
        !(m.orders@.contains_key(asset) && m.auctions@.contains_key(asset)),
{
}

/// Terminal states are terminal: once no listing exists for an asset —
/// as after a fill, a cancellation or a resolution — no operation that
/// targets the listing is accepted any more, for any caller, price or
/// time.
pub proof fn lemma_unlisted_rejects_all(
    m: Market,
    asset: u64,
    caller: u64,
    buyer: u64,
    bidder: u64,
    price: u64,
    now: u128,
)
    requires
        !m.listed(asset),
    ensures
        !m.cancel_order_accepts(asset, caller),
        !m.fill_order_accepts(asset, buyer),
        !m.bid_accepts(asset, bidder, price, now),
        !m.cancel_auction_accepts(asset, now),
        !m.auction_resolve_accepts(asset, now),
{
}

} // verus!

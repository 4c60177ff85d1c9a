use vstd::prelude::*;

verus! {

broadcast use vstd::std_specs::hash::group_hash_axioms;

use std::collections::HashMap;
use crate::errors::{MarketError, MintError};
use crate::fees::{
    platform_fee, platform_fee_spec, check_royalty, ROYALTY_CEILING, royalty_spec, royalty_amount,
    seller_proceeds, lemma_royalty_le_price,
};
use crate::ledger::{
    bal, can_pay, can_credit, credit, debit, pay, transfer, balance_of, set_balance,
    credit_account, debit_account,
};
use crate::records::{Order, Auction};

/// An auction's escrow vault: the listing record together with the currency
/// the vault holds for the current leading bid.
pub struct AuctionLot {
    /// The auction record.
    pub auction: Auction,
    /// Currency held in the vault: the leading bid while one stands,
    /// otherwise nothing.
    pub escrow: u64,
}

/// The shared ledger the engine runs against: currency balances, the
/// holder of each circulating asset, and the open listings.  An asset
/// identifier appears in exactly one place — a personal holding, an order
/// vault or an auction vault — which is the one-unit custody invariant.
pub struct Market {
    /// Currency balance of each account.
    pub bank: HashMap<u64, u64>,
    /// Holder of each asset that is not in escrow.
    pub holdings: HashMap<u64, u64>,
    /// Open fixed-price listings, keyed by asset identifier.
    pub orders: HashMap<u64, Order>,
    /// Open competitive-bid listings, keyed by asset identifier.
    pub auctions: HashMap<u64, AuctionLot>,
}

/// Currency a well-formed auction vault owes: the leading bid if a real
/// bidder stands behind it, nothing while the refund receiver is still the
/// creator.
pub open spec fn vault_due(au: Auction) -> u64 {
    if au.refund_receiver == au.creator {
        0
    } else {
        au.price
    }
}

impl Market {
    /// Everything an order entry promises: keyed by its own asset, and the
    /// asset is nowhere else.
    pub open spec fn order_wf_at(self, a: u64) -> bool {
        &&& self.orders@[a].mint_key == a
        &&& !self.auctions@.contains_key(a)
        &&& !self.holdings@.contains_key(a)
    }

    /// Everything an auction entry promises: keyed by its own asset, the
    /// asset nowhere else, and the vault balance matching the bid state.
    pub open spec fn auction_wf_at(self, a: u64) -> bool {
        &&& self.auctions@[a].auction.mint_key == a
        &&& !self.holdings@.contains_key(a)
        &&& self.auctions@[a].escrow == vault_due(self.auctions@[a].auction)
    }

    /// The custody invariant of the whole ledger.
    pub open spec fn wf(self) -> bool {
        &&& forall|a: u64| #[trigger] self.orders@.contains_key(a) ==> self.order_wf_at(a)
        &&& forall|a: u64| #[trigger] self.auctions@.contains_key(a) ==> self.auction_wf_at(a)
    }

    /// Some listing — order or auction — is open for the asset.
    pub open spec fn listed(self, asset: u64) -> bool {
        self.orders@.contains_key(asset) || self.auctions@.contains_key(asset)
    }

    /// The asset sits in `who`'s personal holding.
    pub open spec fn held_by(self, asset: u64, who: u64) -> bool {
        self.holdings@.contains_key(asset) && self.holdings@[asset] == who
    }

    /// The asset exists somewhere: held, or escrowed under a listing.
    pub open spec fn asset_known(self, asset: u64) -> bool {
        self.holdings@.contains_key(asset) || self.listed(asset)
    }

    /// Currency balance of an account.
    pub open spec fn balance(self, k: u64) -> u64 {
        bal(self.bank@, k)
    }

    /// An empty ledger: no accounts, no assets, no listings.
    pub fn new() -> (r: Market)
        ensures
            r.wf(),
            r.bank@ == Map::<u64, u64>::empty(),
            r.holdings@ == Map::<u64, u64>::empty(),
            r.orders@ == Map::<u64, Order>::empty(),
            r.auctions@ == Map::<u64, AuctionLot>::empty(),
    {
        Market {
            bank: HashMap::new(),
            holdings: HashMap::new(),
            orders: HashMap::new(),
            auctions: HashMap::new(),
        }
    }

    /// The funding edge: set an account's currency balance from outside
    /// the engine.
    pub fn fund_account(&mut self, account: u64, amount: u64)
        requires
            old(self).wf(),
        ensures
            final(self).wf(),
            final(self).bank@ == old(self).bank@.insert(account, amount),
            final(self).holdings@ == old(self).holdings@,
            final(self).orders@ == old(self).orders@,
            final(self).auctions@ == old(self).auctions@,
    {
        set_balance(&mut self.bank, account, amount);
    }

    /// Register a freshly minted asset to `payer`'s holding.  The royalty
    /// configuration is capped before anything is minted; an identifier
    /// already in circulation is refused by the runtime.
    pub fn mint_nft(&mut self, payer: u64, asset: u64, royalty: u16) -> (r: Result<(), MintError>)
        requires
            old(self).wf(),
        ensures
            final(self).wf(),
            r is Ok <==> royalty <= ROYALTY_CEILING && !old(self).asset_known(asset),
            royalty > ROYALTY_CEILING ==> r == Err::<(), MintError>(MintError::RoyaltyExceeded),
            royalty <= ROYALTY_CEILING && old(self).asset_known(asset) ==> r == Err::<
                (),
                MintError,
            >(MintError::MintFailed),
            r is Err ==> *final(self) == *old(self),
            r is Ok ==> final(self).holdings@ == old(self).holdings@.insert(asset, payer),
            r is Ok ==> final(self).bank@ == old(self).bank@ && final(self).orders@ == old(self).orders@
                && final(self).auctions@ == old(self).auctions@,
    {
        if let Err(e) = check_royalty(royalty) {
            return Err(e);
        }
        if self.holdings.contains_key(&asset) || self.orders.contains_key(&asset)
            || self.auctions.contains_key(&asset) {
            return Err(MintError::MintFailed);
        }
        self.holdings.insert(asset, payer);
        Ok(())
    }

    /// When a fixed-price listing is accepted: the asset is not listed yet,
    /// the creator can pay the listing fee, and the creator holds the asset.
    pub open spec fn create_order_accepts(self, creator: u64, asset: u64, price: u64) -> bool {
        &&& !self.listed(asset)
        &&& bal(self.bank@, creator) >= platform_fee_spec(price)
        &&& self.held_by(asset, creator)
    }

    /// Open a fixed-price listing: the platform fee moves from the creator
    /// to the treasury, then the asset moves from the creator's holding
    /// into the new order's vault.  All of it commits, or none.
    pub fn create_order(
        &mut self,
        creator: u64,
        treasury: u64,
        asset: u64,
        memo: String,
        price: u64,
        bump: u8,
    ) -> (r: Result<(), MarketError>)
        requires
            old(self).wf(),
            price * 2 <= u64::MAX,
            old(self).create_order_accepts(creator, asset, price) ==> can_pay(
                old(self).bank@,
                creator,
                treasury,
                platform_fee_spec(price) as u64,
            ),
        ensures
            final(self).wf(),
            r is Ok <==> old(self).create_order_accepts(creator, asset, price),
            r is Err ==> *final(self) == *old(self),
            old(self).listed(asset) ==> r == Err::<(), MarketError>(MarketError::AlreadyListed),
            !old(self).listed(asset) && bal(old(self).bank@, creator) < platform_fee_spec(price)
                ==> r == Err::<(), MarketError>(MarketError::SolTransferFailed),
            !old(self).listed(asset) && bal(old(self).bank@, creator) >= platform_fee_spec(price)
                && !old(self).held_by(asset, creator) ==> r == Err::<(), MarketError>(
                MarketError::TokenTransferFailed,
            ),
            r is Ok ==> final(self).bank@ == pay(
                old(self).bank@,
                creator,
                treasury,
                platform_fee_spec(price) as u64,
            ),
            r is Ok ==> final(self).holdings@ == old(self).holdings@.remove(asset),
            r is Ok ==> final(self).orders@ == old(self).orders@.insert(
                asset,
                (Order { creator, mint_key: asset, memo, price, bump }),
            ),
            r is Ok ==> final(self).auctions@ == old(self).auctions@,
    {
        if self.orders.contains_key(&asset) || self.auctions.contains_key(&asset) {
            return Err(MarketError::AlreadyListed);
        }
        let fee = platform_fee(price);
        if balance_of(&self.bank, creator) < fee {
            return Err(MarketError::SolTransferFailed);
        }
        let held = match self.holdings.get(&asset) {
            Some(h) => *h == creator,
            None => false,
        };
        if !held {
            return Err(MarketError::TokenTransferFailed);
        }
        transfer(&mut self.bank, creator, treasury, fee);
        self.holdings.remove(&asset);
        self.orders.insert(asset, Order { creator, mint_key: asset, memo, price, bump });
        Ok(())
    }

    /// When cancelling an order is accepted: the order exists and the
    /// caller is its creator.
    pub open spec fn cancel_order_accepts(self, asset: u64, caller: u64) -> bool {
        self.orders@.contains_key(asset) && self.orders@[asset].creator == caller
    }

    /// Cancel an open order: the asset moves from the vault back to the
    /// creator's holding and the vault closes.  No currency moves; the
    /// listing fee is not refunded.
    pub fn cancel_order(&mut self, asset: u64, caller: u64) -> (r: Result<(), MarketError>)
        requires
            old(self).wf(),
        ensures
            final(self).wf(),
            r is Ok <==> old(self).cancel_order_accepts(asset, caller),
            r is Err ==> *final(self) == *old(self),
            !old(self).orders@.contains_key(asset) ==> r == Err::<(), MarketError>(
                MarketError::ListingNotFound,
            ),
            old(self).orders@.contains_key(asset) && old(self).orders@[asset].creator != caller
                ==> r == Err::<(), MarketError>(MarketError::Unauthorized),
            r is Ok ==> final(self).orders@ == old(self).orders@.remove(asset),
            r is Ok ==> final(self).holdings@ == old(self).holdings@.insert(asset, caller),
            r is Ok ==> final(self).bank@ == old(self).bank@ && final(self).auctions@ == old(
                self,
            ).auctions@,
    {
        let creator = match self.orders.get(&asset) {
            Some(o) => o.creator,
            None => {
                return Err(MarketError::ListingNotFound);
            },
        };
        if creator != caller {
            return Err(MarketError::Unauthorized);
        }
        self.orders.remove(&asset);
        self.holdings.insert(asset, creator);
        Ok(())
    }

    /// When filling an order is accepted: the order exists and the buyer's
    /// balance covers its price.
    pub open spec fn fill_order_accepts(self, asset: u64, buyer: u64) -> bool {
        self.orders@.contains_key(asset) && bal(self.bank@, buyer) >= self.orders@[asset].price
    }

    /// Royalty carved out of the order's price at settlement.
    pub open spec fn fill_royalty(self, asset: u64, rp: u16) -> u64 {
        royalty_spec(self.orders@[asset].price, rp) as u64
    }

    /// What the creator receives when the order settles.
    pub open spec fn fill_proceeds(self, asset: u64, rp: u16) -> u64 {
        (self.orders@[asset].price - royalty_spec(self.orders@[asset].price, rp)) as u64
    }

    /// Neither settlement credit can overflow its receiving account.
    pub open spec fn fill_fits(self, asset: u64, buyer: u64, minter: u64, rp: u16) -> bool {
        self.orders@.contains_key(asset) ==> {
            let roy = self.fill_royalty(asset, rp);
            let pro = self.fill_proceeds(asset, rp);
            &&& self.orders@[asset].price * rp <= u64::MAX
            &&& bal(debit(self.bank@, buyer, roy), minter) + roy <= u64::MAX
            &&& bal(debit(pay(self.bank@, buyer, minter, roy), buyer, pro), self.orders@[
                asset
            ].creator) + pro <= u64::MAX
        }
    }

    /// Fill an order: the buyer pays the royalty to the minter's account
    /// and the remaining proceeds to the creator, the asset moves from the
    /// vault to the buyer, and the vault closes.  All of it commits, or
    /// none.
    pub fn fill_order(&mut self, asset: u64, buyer: u64, minter: u64, royalty_percent: u16) -> (r:
        Result<(), MarketError>)
        requires
            old(self).wf(),
            royalty_percent <= 100,
            old(self).fill_fits(asset, buyer, minter, royalty_percent),
        ensures
            final(self).wf(),
            r is Ok <==> old(self).fill_order_accepts(asset, buyer),
            r is Err ==> *final(self) == *old(self),
            !old(self).orders@.contains_key(asset) ==> r == Err::<(), MarketError>(
                MarketError::ListingNotFound,
            ),
            old(self).orders@.contains_key(asset) && bal(old(self).bank@, buyer) < old(
                self,
            ).orders@[asset].price ==> r == Err::<(), MarketError>(MarketError::InsufficientMoney),
            r is Ok ==> final(self).bank@ == pay(
                pay(
                    old(self).bank@,
                    buyer,
                    minter,
                    old(self).fill_royalty(asset, royalty_percent),
                ),
                buyer,
                old(self).orders@[asset].creator,
                old(self).fill_proceeds(asset, royalty_percent),
            ),
            r is Ok ==> final(self).orders@ == old(self).orders@.remove(asset),
            r is Ok ==> final(self).holdings@ == old(self).holdings@.insert(asset, buyer),
            r is Ok ==> final(self).auctions@ == old(self).auctions@,
    {
        let (price, creator) = match self.orders.get(&asset) {
            Some(o) => (o.price, o.creator),
            None => {
                return Err(MarketError::ListingNotFound);
            },
        };
        if balance_of(&self.bank, buyer) < price {
            return Err(MarketError::InsufficientMoney);
        }
        proof {
            lemma_royalty_le_price(price, royalty_percent);
        }
        let roy = royalty_amount(price, royalty_percent);
        let pro = seller_proceeds(price, roy);
        transfer(&mut self.bank, buyer, minter, roy);
        transfer(&mut self.bank, buyer, creator, pro);
        self.orders.remove(&asset);
        self.holdings.insert(asset, buyer);
        Ok(())
    }

    /// The auction record stored for an asset.
    pub open spec fn auction_at(self, asset: u64) -> Auction {
        self.auctions@[asset].auction
    }

    /// A real bid stands: the refund receiver is no longer the creator.
    pub open spec fn has_live_bid(self, asset: u64) -> bool {
        self.auction_at(asset).refund_receiver != self.auction_at(asset).creator
    }

    /// The bank once the outstanding bid, if any, has been refunded from
    /// the vault to its receiver.
    pub open spec fn bank_after_refund(self, asset: u64) -> Map<u64, u64> {
        if self.has_live_bid(asset) {
            credit(self.bank@, self.auction_at(asset).refund_receiver, self.auction_at(asset).price)
        } else {
            self.bank@
        }
    }

    /// When opening an auction is accepted: the asset is not listed yet,
    /// the end time has not passed, the creator can pay the listing fee,
    /// and the creator holds the asset.
    pub open spec fn create_auction_accepts(
        self,
        creator: u64,
        asset: u64,
        price: u64,
        end_time: u128,
        now: u128,
    ) -> bool {
        &&& !self.listed(asset)
        &&& now <= end_time
        &&& bal(self.bank@, creator) >= platform_fee_spec(price)
        &&& self.held_by(asset, creator)
    }

    /// Open a competitive-bid listing: the platform fee moves from the
    /// creator to the treasury and the asset moves into the new auction's
    /// vault.  The refund receiver starts as the creator, encoding that no
    /// real bid stands and the vault holds no currency.
    pub fn create_auction(
        &mut self,
        creator: u64,
        treasury: u64,
        asset: u64,
        memo: String,
        price: u64,
        start_time: u128,
        end_time: u128,
        now: u128,
        bump: u8,
    ) -> (r: Result<(), MarketError>)
        requires
            old(self).wf(),
            price * 2 <= u64::MAX,
            old(self).create_auction_accepts(creator, asset, price, end_time, now) ==> can_pay(
                old(self).bank@,
                creator,
                treasury,
                platform_fee_spec(price) as u64,
            ),
        ensures
            final(self).wf(),
            r is Ok <==> old(self).create_auction_accepts(creator, asset, price, end_time, now),
            r is Err ==> *final(self) == *old(self),
            old(self).listed(asset) ==> r == Err::<(), MarketError>(MarketError::AlreadyListed),
            !old(self).listed(asset) && now > end_time ==> r == Err::<(), MarketError>(
                MarketError::InvalidEndTime,
            ),
            !old(self).listed(asset) && now <= end_time && bal(old(self).bank@, creator)
                < platform_fee_spec(price) ==> r == Err::<(), MarketError>(
                MarketError::SolTransferFailed,
            ),
            !old(self).listed(asset) && now <= end_time && bal(old(self).bank@, creator)
                >= platform_fee_spec(price) && !old(self).held_by(asset, creator) ==> r == Err::<
                (),
                MarketError,
            >(MarketError::TokenTransferFailed),
            r is Ok ==> final(self).bank@ == pay(
                old(self).bank@,
                creator,
                treasury,
                platform_fee_spec(price) as u64,
            ),
            r is Ok ==> final(self).holdings@ == old(self).holdings@.remove(asset),
            r is Ok ==> final(self).auctions@ == old(self).auctions@.insert(
                asset,
                (AuctionLot {
                    auction: (Auction {
                        creator,
                        mint_key: asset,
                        refund_receiver: creator,
                        memo,
                        price,
                        start_time,
                        end_time,
                        bump,
                    }),
                    escrow: 0,
                }),
            ),
            r is Ok ==> final(self).orders@ == old(self).orders@,
    {
        if self.orders.contains_key(&asset) || self.auctions.contains_key(&asset) {
            return Err(MarketError::AlreadyListed);
        }
        if now > end_time {
            return Err(MarketError::InvalidEndTime);
        }
        let fee = platform_fee(price);
        if balance_of(&self.bank, creator) < fee {
            return Err(MarketError::SolTransferFailed);
        }
        let held = match self.holdings.get(&asset) {
            Some(h) => *h == creator,
            None => false,
        };
        if !held {
            return Err(MarketError::TokenTransferFailed);
        }
        transfer(&mut self.bank, creator, treasury, fee);
        self.holdings.remove(&asset);
        self.auctions.insert(
            asset,
            AuctionLot {
                auction: Auction {
                    creator,
                    mint_key: asset,
                    refund_receiver: creator,
                    memo,
                    price,
                    start_time,
                    end_time,
                    bump,
                },
                escrow: 0,
            },
        );
        Ok(())
    }

    /// When a bid is accepted: the auction exists, the bid is not below
    /// the current leading price, time is not up, the bidder is not the
    /// creator, and — once the outstanding bid has been refunded — the
    /// bidder's balance covers the new bid.
    pub open spec fn bid_accepts(self, asset: u64, bidder: u64, new_price: u64, now: u128) -> bool {
        &&& self.auctions@.contains_key(asset)
        &&& new_price >= self.auction_at(asset).price
        &&& now < self.auction_at(asset).end_time
        &&& bidder != self.auction_at(asset).creator
        &&& bal(self.bank_after_refund(asset), bidder) >= new_price
    }

    /// Refunding the outstanding bid cannot overflow its receiver.
    pub open spec fn bid_fits(self, asset: u64) -> bool {
        self.auctions@.contains_key(asset) && self.has_live_bid(asset) ==> can_credit(
            self.bank@,
            self.auction_at(asset).refund_receiver,
            self.auction_at(asset).price,
        )
    }

    /// The auction entry once a bid by `bidder` at `new_price` stands:
    /// only the refund receiver, the leading price and the vault balance
    /// change.
    pub open spec fn bid_next_lot(self, asset: u64, bidder: u64, new_price: u64) -> AuctionLot {
        AuctionLot {
            auction: Auction {
                creator: self.auction_at(asset).creator,
                mint_key: self.auction_at(asset).mint_key,
                refund_receiver: bidder,
                memo: self.auction_at(asset).memo,
                price: new_price,
                start_time: self.auction_at(asset).start_time,
                end_time: self.auction_at(asset).end_time,
                bump: self.auction_at(asset).bump,
            },
            escrow: new_price,
        }
    }

    /// Place a bid: the outstanding bid, if any, is first refunded in full
    /// from the vault to its receiver, then the new bid moves from the
    /// bidder into the vault and the record adopts the new leader.  The
    /// creator cannot bid on their own auction, because the refund
    /// bookkeeping uses `refund_receiver == creator` to encode the no-bid
    /// state.  All of it commits, or none.
    pub fn bid(&mut self, asset: u64, bidder: u64, new_price: u64, now: u128) -> (r: Result<
        (),
        MarketError,
    >)
        requires
            old(self).wf(),
            old(self).bid_fits(asset),
        ensures
            final(self).wf(),
            r is Ok <==> old(self).bid_accepts(asset, bidder, new_price, now),
            r is Err ==> *final(self) == *old(self),
            !old(self).auctions@.contains_key(asset) ==> r == Err::<(), MarketError>(
                MarketError::ListingNotFound,
            ),
            old(self).auctions@.contains_key(asset) && new_price < old(self).auction_at(
                asset,
            ).price ==> r == Err::<(), MarketError>(MarketError::InsufficientMoney),
            old(self).auctions@.contains_key(asset) && new_price >= old(self).auction_at(
                asset,
            ).price && now >= old(self).auction_at(asset).end_time ==> r == Err::<(), MarketError>(
                MarketError::AuctionEnded,
            ),
            old(self).auctions@.contains_key(asset) && new_price >= old(self).auction_at(
                asset,
            ).price && now < old(self).auction_at(asset).end_time && bidder == old(self).auction_at(
                asset,
            ).creator ==> r == Err::<(), MarketError>(MarketError::InvalidReceiver),
            old(self).auctions@.contains_key(asset) && new_price >= old(self).auction_at(
                asset,
            ).price && now < old(self).auction_at(asset).end_time && bidder != old(self).auction_at(
                asset,
            ).creator && bal(old(self).bank_after_refund(asset), bidder) < new_price ==> r == Err::<
                (),
                MarketError,
            >(MarketError::SolTransferFailed),
            r is Ok ==> final(self).bank@ == debit(
                old(self).bank_after_refund(asset),
                bidder,
                new_price,
            ),
            r is Ok ==> final(self).auctions@ == old(self).auctions@.insert(
                asset,
                old(self).bid_next_lot(asset, bidder, new_price),
            ),
            r is Ok ==> final(self).holdings@ == old(self).holdings@ && final(self).orders@ == old(
                self,
            ).orders@,
    {
        let (cur_price, receiver, owner, end_t) = match self.auctions.get(&asset) {
            Some(l) => (l.auction.price, l.auction.refund_receiver, l.auction.creator,
            l.auction.end_time),
            None => {
                return Err(MarketError::ListingNotFound);
            },
        };
        if new_price < cur_price {
            return Err(MarketError::InsufficientMoney);
        }
        if now >= end_t {
            return Err(MarketError::AuctionEnded);
        }
        if bidder == owner {
            return Err(MarketError::InvalidReceiver);
        }
        let bidder_bal = balance_of(&self.bank, bidder);
        let effective_bal = if receiver != owner && bidder == receiver {
            bidder_bal + cur_price
        } else {
            bidder_bal
        };
        if effective_bal < new_price {
            return Err(MarketError::SolTransferFailed);
        }
        if receiver != owner {
            credit_account(&mut self.bank, receiver, cur_price);
        }
        debit_account(&mut self.bank, bidder, new_price);
        let lot = match self.auctions.remove(&asset) {
            Some(l) => l,
            None => {
                proof {
                    assert(false);
                }
                return Err(MarketError::ListingNotFound);
            },
        };
        let Auction {
            creator: a_creator,
            mint_key: a_mint,
            refund_receiver: _,
            memo: a_memo,
            price: _,
            start_time: a_start,
            end_time: a_end,
            bump: a_bump,
        } = lot.auction;
        self.auctions.insert(
            asset,
            AuctionLot {
                auction: Auction {
                    creator: a_creator,
                    mint_key: a_mint,
                    refund_receiver: bidder,
                    memo: a_memo,
                    price: new_price,
                    start_time: a_start,
                    end_time: a_end,
                    bump: a_bump,
                },
                escrow: new_price,
            },
        );
        Ok(())
    }

    /// When cancelling an auction is accepted: it exists and time is not
    /// up.  Once the end time has passed only resolution remains.
    pub open spec fn cancel_auction_accepts(self, asset: u64, now: u128) -> bool {
        self.auctions@.contains_key(asset) && now < self.auction_at(asset).end_time
    }

    /// Cancel an auction before its end time: the outstanding bid, if any,
    /// is refunded in full from the vault, the asset returns to the
    /// creator's holding, and the vault closes.
    pub fn cancel_auction(&mut self, asset: u64, now: u128) -> (r: Result<(), MarketError>)
        requires
            old(self).wf(),
            old(self).bid_fits(asset),
        ensures
            final(self).wf(),
            r is Ok <==> old(self).cancel_auction_accepts(asset, now),
            r is Err ==> *final(self) == *old(self),
            !old(self).auctions@.contains_key(asset) ==> r == Err::<(), MarketError>(
                MarketError::ListingNotFound,
            ),
            old(self).auctions@.contains_key(asset) && now >= old(self).auction_at(asset).end_time
                ==> r == Err::<(), MarketError>(MarketError::AuctionEnded),
            r is Ok ==> final(self).bank@ == old(self).bank_after_refund(asset),
            r is Ok ==> final(self).auctions@ == old(self).auctions@.remove(asset),
            r is Ok ==> final(self).holdings@ == old(self).holdings@.insert(
                asset,
                old(self).auction_at(asset).creator,
            ),
            r is Ok ==> final(self).orders@ == old(self).orders@,
    {
        let (cur_price, receiver, owner, end_t) = match self.auctions.get(&asset) {
            Some(l) => (l.auction.price, l.auction.refund_receiver, l.auction.creator,
            l.auction.end_time),
            None => {
                return Err(MarketError::ListingNotFound);
            },
        };
        if now >= end_t {
            return Err(MarketError::AuctionEnded);
        }
        if receiver != owner {
            credit_account(&mut self.bank, receiver, cur_price);
        }
        self.auctions.remove(&asset);
        self.holdings.insert(asset, owner);
        Ok(())
    }

    /// When resolving an auction is accepted: it exists and its end time
    /// has been reached.
    pub open spec fn auction_resolve_accepts(self, asset: u64, now: u128) -> bool {
        self.auctions@.contains_key(asset) && now >= self.auction_at(asset).end_time
    }

    /// Royalty carved out of the winning bid at settlement.
    pub open spec fn auction_royalty(self, asset: u64, rp: u16) -> u64 {
        royalty_spec(self.auction_at(asset).price, rp) as u64
    }

    /// What the creator receives when the auction settles with a winner.
    pub open spec fn auction_proceeds(self, asset: u64, rp: u16) -> u64 {
        (self.auction_at(asset).price - royalty_spec(self.auction_at(asset).price, rp)) as u64
    }

    /// Neither settlement credit out of the vault can overflow its
    /// receiving account.
    pub open spec fn resolve_fits(self, asset: u64, minter: u64, rp: u16) -> bool {
        self.auctions@.contains_key(asset) && self.has_live_bid(asset) ==> {
            let roy = self.auction_royalty(asset, rp);
            let pro = self.auction_proceeds(asset, rp);
            &&& self.auction_at(asset).price * rp <= u64::MAX
            &&& can_credit(self.bank@, minter, roy)
            &&& can_credit(credit(self.bank@, minter, roy), self.auction_at(asset).creator, pro)
        }
    }

    /// The bank once a settled auction's vault has been disbursed: the
    /// royalty lands on the minter's account and the remaining proceeds on
    /// the creator's; with no winner nothing moves.
    pub open spec fn bank_after_resolve(self, asset: u64, minter: u64, rp: u16) -> Map<u64, u64> {
        if self.has_live_bid(asset) {
            credit(
                credit(self.bank@, minter, self.auction_royalty(asset, rp)),
                self.auction_at(asset).creator,
                self.auction_proceeds(asset, rp),
            )
        } else {
            self.bank@
        }
    }

    /// Resolve an auction after its end time.  With a winner, the vault's
    /// currency splits into royalty and proceeds and the asset goes to the
    /// winner; with no bid ever placed, no funds move and the asset
    /// returns to the creator.  The vault closes either way.
    pub fn auction_resolve(&mut self, asset: u64, minter: u64, royalty_percent: u16, now: u128) -> (r:
        Result<(), MarketError>)
        requires
            old(self).wf(),
            royalty_percent <= 100,
            old(self).resolve_fits(asset, minter, royalty_percent),
        ensures
            final(self).wf(),
            r is Ok <==> old(self).auction_resolve_accepts(asset, now),
            r is Err ==> *final(self) == *old(self),
            !old(self).auctions@.contains_key(asset) ==> r == Err::<(), MarketError>(
                MarketError::ListingNotFound,
            ),
            old(self).auctions@.contains_key(asset) && now < old(self).auction_at(asset).end_time
                ==> r == Err::<(), MarketError>(MarketError::AuctionNotEnded),
            r is Ok ==> final(self).bank@ == old(self).bank_after_resolve(
                asset,
                minter,
                royalty_percent,
            ),
            r is Ok ==> final(self).auctions@ == old(self).auctions@.remove(asset),
            r is Ok && old(self).has_live_bid(asset) ==> final(self).holdings@ == old(
                self,
            ).holdings@.insert(asset, old(self).auction_at(asset).refund_receiver),
            r is Ok && !old(self).has_live_bid(asset) ==> final(self).holdings@ == old(
                self,
            ).holdings@.insert(asset, old(self).auction_at(asset).creator),
            r is Ok ==> final(self).orders@ == old(self).orders@,
    {
        let (cur_price, receiver, owner, end_t) = match self.auctions.get(&asset) {
            Some(l) => (l.auction.price, l.auction.refund_receiver, l.auction.creator,
            l.auction.end_time),
            None => {
                return Err(MarketError::ListingNotFound);
            },
        };
        if now < end_t {
            return Err(MarketError::AuctionNotEnded);
        }
        if receiver != owner {
            proof {
                lemma_royalty_le_price(cur_price, royalty_percent);
            }
            let roy = royalty_amount(cur_price, royalty_percent);
            let pro = seller_proceeds(cur_price, roy);
            credit_account(&mut self.bank, minter, roy);
            credit_account(&mut self.bank, owner, pro);
            self.auctions.remove(&asset);
            self.holdings.insert(asset, receiver);
        } else {
            self.auctions.remove(&asset);
            self.holdings.insert(asset, owner);
        }
        Ok(())
    }

    /// Currency balance of an account.
    pub fn account_balance(&self, k: u64) -> (r: u64)
        ensures
            r == self.balance(k),
    {
        balance_of(&self.bank, k)
    }

    /// Who holds the asset personally, if anyone does.
    pub fn holder_of(&self, asset: u64) -> (r: Option<u64>)
        ensures
            match r {
                Some(h) => self.held_by(asset, h),
                None => !self.holdings@.contains_key(asset),
            },
    {
        match self.holdings.get(&asset) {
            Some(h) => Some(*h),
            None => None,
        }
    }

    /// Whether an order is open for the asset.
    pub fn has_order(&self, asset: u64) -> (r: bool)
        ensures
            r == self.orders@.contains_key(asset),
    {
        self.orders.contains_key(&asset)
    }

    /// Price of the open order for the asset, if one exists.
    pub fn order_price(&self, asset: u64) -> (r: Option<u64>)
        ensures
            match r {
                Some(p) => self.orders@.contains_key(asset) && p == self.orders@[asset].price,
                None => !self.orders@.contains_key(asset),
            },
    {
        match self.orders.get(&asset) {
            Some(o) => Some(o.price),
            None => None,
        }
    }

    /// Whether an auction is open for the asset.
    pub fn has_auction(&self, asset: u64) -> (r: bool)
        ensures
            r == self.auctions@.contains_key(asset),
    {
        self.auctions.contains_key(&asset)
    }

    /// Current leading price of the open auction for the asset.
    pub fn auction_price(&self, asset: u64) -> (r: Option<u64>)
        ensures
            match r {
                Some(p) => self.auctions@.contains_key(asset) && p == self.auction_at(asset).price,
                None => !self.auctions@.contains_key(asset),
            },
    {
        match self.auctions.get(&asset) {
            Some(l) => Some(l.auction.price),
            None => None,
        }
    }

    /// Current refund receiver of the open auction for the asset.
    pub fn auction_refund_receiver(&self, asset: u64) -> (r: Option<u64>)
        ensures
            match r {
                Some(who) => self.auctions@.contains_key(asset) && who == self.auction_at(
                    asset,
                ).refund_receiver,
                None => !self.auctions@.contains_key(asset),
            },
    {
        match self.auctions.get(&asset) {
            Some(l) => Some(l.auction.refund_receiver),
            None => None,
        }
    }

    /// Currency currently held by the auction's vault.
    pub fn auction_escrow(&self, asset: u64) -> (r: Option<u64>)
        ensures
            match r {
                Some(e) => self.auctions@.contains_key(asset) && e == self.auctions@[asset].escrow,
                None => !self.auctions@.contains_key(asset),
            },
    {
        match self.auctions.get(&asset) {
            Some(l) => Some(l.escrow),
            None => None,
        }
    }
}

} // verus!

//! The gateway auction: English-style bidding on a time window, closing,
//! one-time liquidation settlement signals and claiming by the winner.

use vstd::prelude::*;
use crate::types::AccountId;

verus! {

/// Auction format.
#[derive(Clone, Copy, Debug, PartialEq, Eq, Structural)]
pub enum AuctionMode {
    /// Ascending price; the highest bidder wins at the end.
    English,
    /// Descending price; the first qualifying bid wins.
    Dutch,
}

/// Lifecycle status of an auction.
#[derive(Clone, Copy, Debug, PartialEq, Eq, Structural)]
pub enum AuctionStatus {
    Open,
    Closed,
    Claimed,
}

/// Parameters of an auction.
#[derive(Clone, Debug, PartialEq, Eq)]
pub struct AuctionConfig {
    pub mode: AuctionMode,
    pub username_hash: [u8; 32],
    pub start_time: u64,
    pub end_time: u64,
    pub min_bid: i128,
    /// Minimum outbid increment in basis points: each new bid must be at
    /// least `highest * (1 + min_increment_bps / 10_000)`, and above the
    /// highest bid. At most 10_000 (100%) when set at creation.
    pub min_increment_bps: u32,
    /// Starting price of a Dutch auction.
    pub dutch_start_price: Option<i128>,
    /// Floor price of a Dutch auction.
    pub dutch_floor_price: Option<i128>,
}

/// The stored state of an auction.
#[derive(Clone, Debug, PartialEq, Eq)]
pub struct AuctionState {
    pub config: AuctionConfig,
    pub status: AuctionStatus,
    pub highest_bidder: Option<AccountId>,
    pub highest_bid: i128,
}

/// A bid record.
#[derive(Clone, Debug, PartialEq, Eq)]
pub struct Bid {
    pub bidder: AccountId,
    pub amount: i128,
    pub timestamp: u64,
}

/// Why an auction call reverts; each variant is one of the contract's panics.
#[derive(Clone, Copy, Debug, PartialEq, Eq, Structural)]
pub enum AuctionError {
    /// "invalid times"
    InvalidTimes,
    /// "auction not found"
    NotFound,
    /// "already closed"
    AlreadyClosed,
    /// "amount must be positive"
    AmountNotPositive,
    /// "auction not initialized"
    NotInitialized,
    /// "auction not open"
    NotOpen,
    /// "auction closed"
    Ended,
    /// "bid too low"
    BidTooLow,
    /// "bid must be higher than current highest bid"
    BidNotHigher,
    /// "bid below minimum increment": higher, but by less than the
    /// auction's minimum increment.
    BidBelowMinIncrement,
    /// "auction state not found"
    StateNotFound,
    /// "auction not closed"
    NotClosed,
    /// "liquidation already settled"
    AlreadySettled,
    /// "no winner"
    NoWinner,
}

/// A refund owed to the outbid highest bidder.
#[derive(Clone, Debug, PartialEq, Eq)]
pub struct Refund {
    pub bidder: AccountId,
    pub amount: i128,
}

/// The state after an accepted bid, and the refund to pay, if any.
#[derive(Clone, Debug, PartialEq, Eq)]
pub struct BidOutcome {
    pub state: AuctionState,
    pub refund: Option<Refund>,
}

/// The liquidation settlement signal of a closed auction.
#[derive(Clone, Debug, PartialEq, Eq)]
pub struct Settlement {
    /// The highest bidder, or the borrower when nobody bid.
    pub winner: AccountId,
    pub amount: i128,
}

/// Largest minimum outbid increment that an auction can be created with
/// (100%).
pub const MAX_INCREMENT_BPS: u32 = 10_000u32;

/// Whether `amount` is at least `highest * (1 + bps / 10_000)`.
pub open spec fn meets_increment(amount: i128, highest: i128, bps: u32) -> bool {
    amount * 10_000 >= highest * (10_000 + bps)
}

proof fn lemma_ceil_div(x: int, y: int, d: int)
    requires
        d > 0,
        y >= 0,
    ensures
        (x * d >= y) == (x >= (y + d - 1) / d),
{
    let c = (y + d - 1) / d;
    vstd::arithmetic::div_mod::lemma_fundamental_div_mod(y + d - 1, d);
    vstd::arithmetic::div_mod::lemma_mod_bound(y + d - 1, d);
    assert(d * c >= y);
    assert(d * (c - 1) < y) by {
        vstd::arithmetic::mul::lemma_mul_is_distributive_sub(d, c, 1);
    }
    if x >= c {
        vstd::arithmetic::mul::lemma_mul_inequality(c, x, d);
        vstd::arithmetic::mul::lemma_mul_is_commutative(c, d);
    } else {
        vstd::arithmetic::mul::lemma_mul_inequality(x, c - 1, d);
        vstd::arithmetic::mul::lemma_mul_is_commutative(c - 1, d);
    }
}

/// Whether a positive highest bid is outbid by `amount` by at least
/// `bps` basis points, computed without overflow.
fn increment_met(highest: i128, amount: i128, bps: u32) -> (r: bool)
    requires
        highest > 0,
        amount > highest,
    ensures
        r == meets_increment(amount, highest, bps),
{
    let h: u128 = highest as u128;
    let diff: u128 = (amount - highest) as u128;
    let b: u128 = bps as u128;
    let q: u128 = h / 10_000;
    let rem: u128 = h % 10_000;
    let ghost hq = q as int;
    let ghost hr = rem as int;
    assert(h == 10_000 * hq + hr && 0 <= hr < 10_000);
    assert(highest * (10_000 + bps) == highest * 10_000 + (10_000 * (hq * b) + hr * b)) by (nonlinear_arith)
        requires
            highest == 10_000 * hq + hr,
            b == bps,
    ;
    let qb: u128 = match q.checked_mul(b) {
        Some(v) => v,
        None => {
            assert(10_000 * (hq * b) + hr * b > (amount - highest) * 10_000) by (nonlinear_arith)
                requires
                    hq * b > u128::MAX,
                    hr * b >= 0,
                    amount - highest <= u128::MAX,
            ;
            return false;
        },
    };
    assert(hr * b <= 9_999 * 4_294_967_295) by (nonlinear_arith)
        requires
            0 <= hr < 10_000,
            b <= 4_294_967_295,
    ;
    let rb: u128 = rem * b;
    let c: u128 = (rb + 9_999) / 10_000;
    proof {
        lemma_ceil_div((diff - qb) as int, rb as int, 10_000);
    }
    let need: u128 = match qb.checked_add(c) {
        Some(v) => v,
        None => {
            return false;
        },
    };
    diff >= need
}

/// The gateway auction contract.
pub struct Auction;

impl Auction {
    /// Create an open auction for the window `[start_time, end_time)` with a
    /// minimum bid and a minimum outbid increment (capped at 10_000 bps);
    /// the window must not be empty.
    pub fn init_auction(start_time: u64, end_time: u64, min_bid: i128, min_increment_bps: u32) -> (r: Result<AuctionState, AuctionError>)
        ensures
            start_time >= end_time <==> r is Err,
            r matches Err(e) ==> e == AuctionError::InvalidTimes,
            r matches Ok(s) ==> {
                &&& s.config.mode == AuctionMode::English
                &&& s.config.username_hash@ == Seq::new(32, |i: int| 0u8)
                &&& s.config.start_time == start_time
                &&& s.config.end_time == end_time
                &&& s.config.min_bid == min_bid
                &&& s.config.min_increment_bps == (if min_increment_bps > 10_000 { 10_000 } else { min_increment_bps })
                &&& s.config.dutch_start_price is None
                &&& s.config.dutch_floor_price is None
                &&& s.status == AuctionStatus::Open
                &&& s.highest_bidder is None
                &&& s.highest_bid == 0
            },
    {
        if start_time >= end_time {
            return Err(AuctionError::InvalidTimes);
        }
        let hash = [0u8; 32];
        assert(hash@ =~= Seq::new(32, |i: int| 0u8));
        Ok(AuctionState {
            config: AuctionConfig {
                mode: AuctionMode::English,
                username_hash: hash,
                start_time,
                end_time,
                min_bid,
                min_increment_bps: if min_increment_bps > MAX_INCREMENT_BPS { MAX_INCREMENT_BPS } else { min_increment_bps },
                dutch_start_price: None,
                dutch_floor_price: None,
            },
            status: AuctionStatus::Open,
            highest_bidder: None,
            highest_bid: 0,
        })
    }

    /// Close an auction: an auction that is not already closed becomes Closed.
    pub fn close_auction(state: Option<AuctionState>) -> (r: Result<AuctionState, AuctionError>)
        ensures
            r == close_auction_result(state),
    {
        let state = match state {
            Some(s) => s,
            None => {
                return Err(AuctionError::NotFound);
            },
        };
        if state.status == AuctionStatus::Closed {
            return Err(AuctionError::AlreadyClosed);
        }
        Ok(AuctionState { status: AuctionStatus::Closed, ..state })
    }

    /// Place a bid of `amount` by `bidder` at ledger time `now`. The bid must
    /// be positive, made while the auction is open and before its end, at
    /// least the minimum bid and strictly above the current highest bid; the
    /// outbid bidder is owed a refund of their bid.
    pub fn place_bid(state: Option<AuctionState>, bidder: AccountId, amount: i128, now: u64) -> (r: Result<BidOutcome, AuctionError>)
        ensures
            r == place_bid_result(state, bidder, amount, now),
    {
        if amount <= 0 {
            return Err(AuctionError::AmountNotPositive);
        }
        let state = match state {
            Some(s) => s,
            None => {
                return Err(AuctionError::NotInitialized);
            },
        };
        if state.status != AuctionStatus::Open {
            return Err(AuctionError::NotOpen);
        }
        if now >= state.config.end_time {
            return Err(AuctionError::Ended);
        }
        if amount < state.config.min_bid {
            return Err(AuctionError::BidTooLow);
        }
        let AuctionState { config, status, highest_bidder, highest_bid } = state;
        let refund = match highest_bidder {
            Some(prev) => {
                if amount <= highest_bid {
                    return Err(AuctionError::BidNotHigher);
                }
                if highest_bid > 0 {
                    if !increment_met(highest_bid, amount, config.min_increment_bps) {
                        return Err(AuctionError::BidBelowMinIncrement);
                    }
                } else {
                    assert(meets_increment(amount, highest_bid, config.min_increment_bps)) by (nonlinear_arith)
                        requires
                            amount > 0,
                            highest_bid <= 0,
                            config.min_increment_bps >= 0,
                    ;
                }
                Some(Refund { bidder: prev, amount: highest_bid })
            },
            None => None,
        };
        Ok(BidOutcome {
            state: AuctionState { config, status, highest_bidder: Some(bidder), highest_bid: amount },
            refund,
        })
    }

    /// Emit the liquidation settlement signal of a closed auction, once per
    /// auction: `already_settled` tells whether it was emitted before.
    pub fn settle_default_liquidation(state: Option<AuctionState>, already_settled: bool, borrower: AccountId) -> (r: Result<Settlement, AuctionError>)
        ensures
            r == settle_auction_result(state, already_settled, borrower),
    {
        let state = match state {
            Some(s) => s,
            None => {
                return Err(AuctionError::StateNotFound);
            },
        };
        if state.status != AuctionStatus::Closed {
            return Err(AuctionError::NotClosed);
        }
        if already_settled {
            return Err(AuctionError::AlreadySettled);
        }
        let winner = match state.highest_bidder {
            Some(w) => w,
            None => borrower,
        };
        Ok(Settlement { winner, amount: state.highest_bid })
    }

    /// Claim a closed auction for its winner (whose authorization the caller
    /// requires): the auction becomes Claimed.
    pub fn claim_auction(state: Option<AuctionState>) -> (r: Result<AuctionState, AuctionError>)
        ensures
            r == claim_auction_result(state),
    {
        let state = match state {
            Some(s) => s,
            None => {
                return Err(AuctionError::StateNotFound);
            },
        };
        if state.status != AuctionStatus::Closed {
            return Err(AuctionError::NotClosed);
        }
        if state.highest_bidder.is_none() {
            return Err(AuctionError::NoWinner);
        }
        Ok(AuctionState { status: AuctionStatus::Claimed, ..state })
    }
}

/// The outcome of closing an auction.
pub open spec fn close_auction_result(state: Option<AuctionState>) -> Result<AuctionState, AuctionError> {
    match state {
        None => Err(AuctionError::NotFound),
        Some(s) => if s.status == AuctionStatus::Closed {
            Err(AuctionError::AlreadyClosed)
        } else {
            Ok(AuctionState { status: AuctionStatus::Closed, ..s })
        },
    }
}

/// The outcome of a bid of `amount` by `bidder` at ledger time `now`.
pub open spec fn place_bid_result(state: Option<AuctionState>, bidder: AccountId, amount: i128, now: u64) -> Result<BidOutcome, AuctionError> {
    if amount <= 0 {
        Err(AuctionError::AmountNotPositive)
    } else {
        match state {
            None => Err(AuctionError::NotInitialized),
            Some(s) => {
                if s.status != AuctionStatus::Open {
                    Err(AuctionError::NotOpen)
                } else if now >= s.config.end_time {
                    Err(AuctionError::Ended)
                } else if amount < s.config.min_bid {
                    Err(AuctionError::BidTooLow)
                } else {
                    let next = AuctionState { highest_bidder: Some(bidder), highest_bid: amount, ..s };
                    match s.highest_bidder {
                        Some(prev) => if amount <= s.highest_bid {
                            Err(AuctionError::BidNotHigher)
                        } else if !meets_increment(amount, s.highest_bid, s.config.min_increment_bps) {
                            Err(AuctionError::BidBelowMinIncrement)
                        } else {
                            Ok(BidOutcome { state: next, refund: Some(Refund { bidder: prev, amount: s.highest_bid }) })
                        },
                        None => Ok(BidOutcome { state: next, refund: None }),
                    }
                }
            },
        }
    }
}

/// The outcome of emitting the liquidation settlement signal.
pub open spec fn settle_auction_result(state: Option<AuctionState>, already_settled: bool, borrower: AccountId) -> Result<Settlement, AuctionError> {
    match state {
        None => Err(AuctionError::StateNotFound),
        Some(s) => {
            if s.status != AuctionStatus::Closed {
                Err(AuctionError::NotClosed)
            } else if already_settled {
                Err(AuctionError::AlreadySettled)
            } else {
                Ok(Settlement {
                    winner: match s.highest_bidder { Some(w) => w, None => borrower },
                    amount: s.highest_bid,
                })
            }
        },
    }
}

/// The outcome of claiming an auction.
pub open spec fn claim_auction_result(state: Option<AuctionState>) -> Result<AuctionState, AuctionError> {
    match state {
        None => Err(AuctionError::StateNotFound),
        Some(s) => {
            if s.status != AuctionStatus::Closed {
                Err(AuctionError::NotClosed)
            } else if s.highest_bidder is None {
                Err(AuctionError::NoWinner)
            } else {
                Ok(AuctionState { status: AuctionStatus::Claimed, ..s })
            }
        },
    }
}

/// An accepted bid is positive, at least the minimum, placed while the
/// auction is open and before its end, and, when there was a highest bid,
/// strictly above it by at least the minimum increment; it becomes the highest bid, and the
/// previous highest bidder is refunded exactly their bid.
pub proof fn bid_raises_highest(s: AuctionState, bidder: AccountId, amount: i128, now: u64)
    ensures
        place_bid_result(Some(s), bidder, amount, now) matches Ok(o) ==> {
            &&& amount > 0
            &&& amount >= s.config.min_bid
            &&& s.status == AuctionStatus::Open
            &&& now < s.config.end_time
            &&& o.state.status == AuctionStatus::Open
            &&& o.state.highest_bid == amount
            &&& o.state.highest_bidder == Some(bidder)
            &&& o.state.config == s.config
            &&& (s.highest_bidder is Some ==> amount > s.highest_bid && meets_increment(amount, s.highest_bid, s.config.min_increment_bps))
            &&& (s.highest_bidder is None ==> o.refund is None)
            &&& (o.refund matches Some(r) ==> s.highest_bidder == Some(r.bidder) && r.amount == s.highest_bid)
        },
{
}

/// Auction status moves Open/Claimed -> Closed by closing and Closed ->
/// Claimed by claiming (which needs a winner); settlement needs a closed
/// auction and happens once; a claimed auction cannot be claimed again.
pub proof fn auction_status_transitions(s: AuctionState, already_settled: bool, borrower: AccountId)
    ensures
        close_auction_result(Some(s)) matches Ok(n) ==> s.status != AuctionStatus::Closed && n.status == AuctionStatus::Closed,
        claim_auction_result(Some(s)) matches Ok(n) ==> s.status == AuctionStatus::Closed && s.highest_bidder is Some && n.status == AuctionStatus::Claimed,
        settle_auction_result(Some(s), already_settled, borrower) is Ok ==> s.status == AuctionStatus::Closed && !already_settled,
        already_settled ==> settle_auction_result(Some(s), already_settled, borrower) is Err,
        s.status == AuctionStatus::Claimed ==> claim_auction_result(Some(s)) is Err,
{
}

/// Whether an auction without a bidder records no highest bid, as
/// `init_auction` creates it.
pub open spec fn bid_record_ok(s: AuctionState) -> bool {
    s.highest_bidder is None ==> s.highest_bid == 0
}

/// The highest bid never decreases: an accepted bid raises it strictly, and
/// closing or claiming keeps it; every operation keeps the bid record
/// consistent.
pub proof fn highest_bid_never_decreases(s: AuctionState, bidder: AccountId, amount: i128, now: u64)
    requires
        bid_record_ok(s),
    ensures
        place_bid_result(Some(s), bidder, amount, now) matches Ok(o) ==> o.state.highest_bid > s.highest_bid && bid_record_ok(o.state),
        close_auction_result(Some(s)) matches Ok(n) ==> n.highest_bid == s.highest_bid && n.highest_bidder == s.highest_bidder,
        claim_auction_result(Some(s)) matches Ok(n) ==> n.highest_bid == s.highest_bid && n.highest_bidder == s.highest_bidder,
{
}

/// How a bid is answered: a non-positive amount, a missing auction, an
/// auction that is not Open and a bid at or after the end time are refused;
/// on an Open auction before its end, a bid below the minimum bid is too low,
/// and any bid of at least the minimum on an auction without bids becomes
/// the highest bid with nothing to refund. With a previous bidder, a bid not
/// above the highest is refused, one above it by less than the increment
/// (`amount * 10_000 < highest * (10_000 + bps)`) is refused, and any other
/// replaces the highest bid and refunds the previous bidder exactly their bid.
pub proof fn bid_answer(s: AuctionState, bidder: AccountId, amount: i128, now: u64)
    ensures
        amount <= 0 ==> place_bid_result(Some(s), bidder, amount, now) == Err::<BidOutcome, AuctionError>(AuctionError::AmountNotPositive),
        amount > 0 ==> place_bid_result(None, bidder, amount, now) == Err::<BidOutcome, AuctionError>(AuctionError::NotInitialized),
        (amount > 0 && s.status != AuctionStatus::Open)
            ==> place_bid_result(Some(s), bidder, amount, now) == Err::<BidOutcome, AuctionError>(AuctionError::NotOpen),
        (amount > 0 && s.status == AuctionStatus::Open && now >= s.config.end_time)
            ==> place_bid_result(Some(s), bidder, amount, now) == Err::<BidOutcome, AuctionError>(AuctionError::Ended),
        (amount > 0 && s.status == AuctionStatus::Open && now < s.config.end_time && amount < s.config.min_bid)
            ==> place_bid_result(Some(s), bidder, amount, now) == Err::<BidOutcome, AuctionError>(AuctionError::BidTooLow),
        (amount > 0 && s.status == AuctionStatus::Open && now < s.config.end_time && amount >= s.config.min_bid
            && s.highest_bidder is None)
            ==> place_bid_result(Some(s), bidder, amount, now) == Ok::<BidOutcome, AuctionError>(BidOutcome {
                state: AuctionState {
                    config: s.config,
                    status: AuctionStatus::Open,
                    highest_bidder: Some(bidder),
                    highest_bid: amount,
                },
                refund: None,
            }),
        (amount > 0 && s.status == AuctionStatus::Open && now < s.config.end_time && amount >= s.config.min_bid
            && s.highest_bidder is Some && amount <= s.highest_bid)
            ==> place_bid_result(Some(s), bidder, amount, now) == Err::<BidOutcome, AuctionError>(AuctionError::BidNotHigher),
        (amount > 0 && s.status == AuctionStatus::Open && now < s.config.end_time && amount >= s.config.min_bid
            && s.highest_bidder is Some && amount > s.highest_bid
            && amount * 10_000 < s.highest_bid * (10_000 + s.config.min_increment_bps))
            ==> place_bid_result(Some(s), bidder, amount, now) == Err::<BidOutcome, AuctionError>(AuctionError::BidBelowMinIncrement),
        (amount > 0 && s.status == AuctionStatus::Open && now < s.config.end_time && amount >= s.config.min_bid
            && s.highest_bidder is Some && amount > s.highest_bid
            && amount * 10_000 >= s.highest_bid * (10_000 + s.config.min_increment_bps))
            ==> place_bid_result(Some(s), bidder, amount, now) == Ok::<BidOutcome, AuctionError>(BidOutcome {
                state: AuctionState {
                    config: s.config,
                    status: AuctionStatus::Open,
                    highest_bidder: Some(bidder),
                    highest_bid: amount,
                },
                refund: Some(Refund { bidder: s.highest_bidder->Some_0, amount: s.highest_bid }),
            }),
{
}

/// Closing, settling and claiming: closing a stored auction that is not
/// Closed makes it Closed and changes nothing else; the settlement signal of
/// a Closed auction not settled before names the highest bidder (the
/// borrower when nobody bid) and the highest bid; claiming a Closed auction
/// with a bidder makes it Claimed and changes nothing else.
pub proof fn close_settle_claim_answer(s: AuctionState, already_settled: bool, borrower: AccountId)
    ensures
        close_auction_result(None) == Err::<AuctionState, AuctionError>(AuctionError::NotFound),
        s.status == AuctionStatus::Closed ==> close_auction_result(Some(s)) == Err::<AuctionState, AuctionError>(AuctionError::AlreadyClosed),
        s.status != AuctionStatus::Closed ==> close_auction_result(Some(s)) == Ok::<AuctionState, AuctionError>(AuctionState {
            config: s.config,
            status: AuctionStatus::Closed,
            highest_bidder: s.highest_bidder,
            highest_bid: s.highest_bid,
        }),
        settle_auction_result(None, already_settled, borrower) == Err::<Settlement, AuctionError>(AuctionError::StateNotFound),
        s.status != AuctionStatus::Closed ==> settle_auction_result(Some(s), already_settled, borrower) == Err::<Settlement, AuctionError>(AuctionError::NotClosed),
        (s.status == AuctionStatus::Closed && already_settled)
            ==> settle_auction_result(Some(s), already_settled, borrower) == Err::<Settlement, AuctionError>(AuctionError::AlreadySettled),
        (s.status == AuctionStatus::Closed && !already_settled && s.highest_bidder is None)
            ==> settle_auction_result(Some(s), already_settled, borrower) == Ok::<Settlement, AuctionError>(Settlement { winner: borrower, amount: s.highest_bid }),
        (s.status == AuctionStatus::Closed && !already_settled && s.highest_bidder is Some)
            ==> settle_auction_result(Some(s), already_settled, borrower)
            == Ok::<Settlement, AuctionError>(Settlement { winner: s.highest_bidder->Some_0, amount: s.highest_bid }),
        claim_auction_result(None) == Err::<AuctionState, AuctionError>(AuctionError::StateNotFound),
        s.status != AuctionStatus::Closed ==> claim_auction_result(Some(s)) == Err::<AuctionState, AuctionError>(AuctionError::NotClosed),
        (s.status == AuctionStatus::Closed && s.highest_bidder is None)
            ==> claim_auction_result(Some(s)) == Err::<AuctionState, AuctionError>(AuctionError::NoWinner),
        (s.status == AuctionStatus::Closed && s.highest_bidder is Some)
            ==> claim_auction_result(Some(s)) == Ok::<AuctionState, AuctionError>(AuctionState {
                config: s.config,
                status: AuctionStatus::Claimed,
                highest_bidder: s.highest_bidder,
                highest_bid: s.highest_bid,
            }),
{
}

} // verus!

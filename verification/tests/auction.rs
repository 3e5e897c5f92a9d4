use creditra_credit::auction::{Auction, AuctionError, AuctionMode, AuctionState, AuctionStatus};
use creditra_credit::types::AccountId;

fn acct(name: &str) -> AccountId {
    AccountId { key: name.as_bytes().to_vec() }
}

fn open_auction() -> AuctionState {
    Auction::init_auction(100, 200, 50, 0).unwrap()
}

#[test]
fn init_auction_validates_window() {
    assert_eq!(Auction::init_auction(200, 200, 10, 0).unwrap_err(), AuctionError::InvalidTimes);
    assert_eq!(Auction::init_auction(300, 200, 10, 0).unwrap_err(), AuctionError::InvalidTimes);
    let s = open_auction();
    assert_eq!(s.status, AuctionStatus::Open);
    assert_eq!(s.config.mode, AuctionMode::English);
    assert_eq!(s.config.username_hash, [0u8; 32]);
    assert_eq!(s.highest_bidder, None);
    assert_eq!(s.highest_bid, 0);
}

#[test]
fn bids_must_rise_and_refund_the_outbid_bidder() {
    let first = Auction::place_bid(Some(open_auction()), acct("alice"), 60, 150).unwrap();
    assert_eq!(first.refund, None);
    assert_eq!(first.state.highest_bid, 60);
    assert_eq!(first.state.highest_bidder, Some(acct("alice")));

    let err = Auction::place_bid(Some(first.state.clone()), acct("bob"), 60, 151).unwrap_err();
    assert_eq!(err, AuctionError::BidNotHigher);

    let second = Auction::place_bid(Some(first.state), acct("bob"), 61, 151).unwrap();
    let refund = second.refund.unwrap();
    assert_eq!(refund.bidder, acct("alice"));
    assert_eq!(refund.amount, 60);
    assert_eq!(second.state.highest_bidder, Some(acct("bob")));
    assert_eq!(second.state.highest_bid, 61);
}

#[test]
fn bid_validation_errors() {
    let s = open_auction();
    assert_eq!(Auction::place_bid(Some(s.clone()), acct("a"), 0, 150).unwrap_err(), AuctionError::AmountNotPositive);
    assert_eq!(Auction::place_bid(None, acct("a"), 60, 150).unwrap_err(), AuctionError::NotInitialized);
    assert_eq!(Auction::place_bid(Some(s.clone()), acct("a"), 60, 200).unwrap_err(), AuctionError::Ended);
    assert_eq!(Auction::place_bid(Some(s.clone()), acct("a"), 49, 150).unwrap_err(), AuctionError::BidTooLow);
    let closed = Auction::close_auction(Some(s)).unwrap();
    assert_eq!(Auction::place_bid(Some(closed), acct("a"), 60, 150).unwrap_err(), AuctionError::NotOpen);
}

#[test]
fn close_settle_and_claim() {
    let bid = Auction::place_bid(Some(open_auction()), acct("alice"), 70, 150).unwrap();
    assert_eq!(Auction::settle_default_liquidation(Some(bid.state.clone()), false, acct("borrower")).unwrap_err(), AuctionError::NotClosed);
    assert_eq!(Auction::claim_auction(Some(bid.state.clone())).unwrap_err(), AuctionError::NotClosed);

    let closed = Auction::close_auction(Some(bid.state)).unwrap();
    assert_eq!(closed.status, AuctionStatus::Closed);
    assert_eq!(Auction::close_auction(Some(closed.clone())).unwrap_err(), AuctionError::AlreadyClosed);
    assert_eq!(Auction::close_auction(None).unwrap_err(), AuctionError::NotFound);

    let settlement = Auction::settle_default_liquidation(Some(closed.clone()), false, acct("borrower")).unwrap();
    assert_eq!(settlement.winner, acct("alice"));
    assert_eq!(settlement.amount, 70);
    assert_eq!(
        Auction::settle_default_liquidation(Some(closed.clone()), true, acct("borrower")).unwrap_err(),
        AuctionError::AlreadySettled
    );

    let claimed = Auction::claim_auction(Some(closed)).unwrap();
    assert_eq!(claimed.status, AuctionStatus::Claimed);
    assert_eq!(Auction::claim_auction(Some(claimed)).unwrap_err(), AuctionError::NotClosed);
    assert_eq!(Auction::claim_auction(None).unwrap_err(), AuctionError::StateNotFound);
}

#[test]
fn settlement_without_bids_goes_to_borrower_and_claim_needs_winner() {
    let closed = Auction::close_auction(Some(open_auction())).unwrap();
    let settlement = Auction::settle_default_liquidation(Some(closed.clone()), false, acct("borrower")).unwrap();
    assert_eq!(settlement.winner, acct("borrower"));
    assert_eq!(settlement.amount, 0);
    assert_eq!(Auction::claim_auction(Some(closed)).unwrap_err(), AuctionError::NoWinner);
}

#[test]
fn bids_must_clear_the_minimum_increment() {
    let s = Auction::init_auction(100, 200, 50, 1_000).unwrap();
    assert_eq!(s.config.min_increment_bps, 1_000);
    let first = Auction::place_bid(Some(s), acct("alice"), 1_000, 150).unwrap();
    // 10% over 1_000 is 1_100.
    assert_eq!(
        Auction::place_bid(Some(first.state.clone()), acct("bob"), 1_001, 151).unwrap_err(),
        AuctionError::BidBelowMinIncrement
    );
    assert_eq!(
        Auction::place_bid(Some(first.state.clone()), acct("bob"), 1_099, 151).unwrap_err(),
        AuctionError::BidBelowMinIncrement
    );
    let second = Auction::place_bid(Some(first.state), acct("bob"), 1_100, 151).unwrap();
    assert_eq!(second.state.highest_bid, 1_100);
}

#[test]
fn minimum_increment_rounds_in_favour_of_the_rule() {
    let s = Auction::init_auction(100, 200, 1, 1).unwrap();
    let first = Auction::place_bid(Some(s), acct("alice"), 15_000, 150).unwrap();
    // 15_000 * 1.0001 = 15_001.5, so 15_001 is too low and 15_002 is enough.
    assert_eq!(
        Auction::place_bid(Some(first.state.clone()), acct("bob"), 15_001, 151).unwrap_err(),
        AuctionError::BidBelowMinIncrement
    );
    assert!(Auction::place_bid(Some(first.state), acct("bob"), 15_002, 151).is_ok());
}

#[test]
fn minimum_increment_is_capped_at_creation() {
    let s = Auction::init_auction(100, 200, 1, 50_000).unwrap();
    assert_eq!(s.config.min_increment_bps, 10_000);
}

#[test]
fn huge_highest_bid_cannot_be_outbid_below_the_increment() {
    let mut s = Auction::init_auction(100, 200, 1, 10_000).unwrap();
    s.highest_bidder = Some(acct("alice"));
    s.highest_bid = i128::MAX / 2 + 1;
    assert_eq!(
        Auction::place_bid(Some(s.clone()), acct("bob"), i128::MAX, 150).unwrap_err(),
        AuctionError::BidBelowMinIncrement
    );
    s.config.min_increment_bps = u32::MAX;
    s.highest_bid = i128::MAX / 4;
    assert_eq!(
        Auction::place_bid(Some(s), acct("bob"), i128::MAX, 150).unwrap_err(),
        AuctionError::BidBelowMinIncrement
    );
}

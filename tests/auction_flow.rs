use dutch_auction::{
    current_price, Action, ActorId, Auction, CreateConfig, Duration, Error, Event, RegistryCall,
    Response, Status, Step, TokenId, TransactionLedger, TransactionStage,
};

fn actor(n: u64) -> ActorId {
    ActorId { w0: n, w1: 0, w2: 0, w3: 0 }
}

fn token(n: u64) -> TokenId {
    TokenId { w0: n, w1: 0, w2: 0, w3: 0 }
}

const OWNER: u64 = 1;
const SELLER: u64 = 7;
const BUYER: u64 = 8;
const PROGRAM: u64 = 99;
const REGISTRY: u64 = 50;
const TOKEN: u64 = 3;

fn config(starting_price: u128, discount_rate: u128, seconds: u64) -> CreateConfig {
    CreateConfig {
        nft_contract_actor_id: actor(REGISTRY),
        token_id: token(TOKEN),
        starting_price,
        discount_rate,
        duration: Duration { hours: 0, minutes: 0, seconds },
    }
}

fn err(e: Error) -> Step {
    Step::Reply { result: Err(e), refund: 0 }
}

fn err_refunded(e: Error, payment: u128) -> Step {
    Step::Reply { result: Err(e), refund: payment }
}

/// Runs a whole StartAuction saga at `now` with every registry call succeeding.
fn started(cfg: CreateConfig, now: u64) -> Auction {
    let mut a = Auction::new(actor(OWNER), actor(PROGRAM));
    let action = Action::Create(cfg);
    assert!(matches!(a.handle(actor(OWNER), action, now, 0), Step::Call(RegistryCall::CheckApproval { .. })));
    assert!(matches!(a.respond(actor(OWNER), Response::Approval(true), now), Step::Call(RegistryCall::QueryOwner { .. })));
    assert!(matches!(a.respond(actor(OWNER), Response::Owner(actor(SELLER)), now), Step::Call(RegistryCall::Transfer { .. })));
    assert!(matches!(a.respond(actor(OWNER), Response::Transferred, now), Step::Reply { result: Ok(_), .. }));
    a
}

#[test]
fn price_decays_per_whole_second() {
    assert_eq!(current_price(50_000, 0, 1000, 1), 950);
    assert_eq!(current_price(50_999, 0, 1000, 1), 950);
    assert_eq!(current_price(999, 0, 1000, 1), 1000);
    assert_eq!(current_price(12_000, 2_000, 1000, 3), 970);
}

#[test]
fn price_is_floored_at_zero() {
    assert_eq!(current_price(10_000_000, 0, 1000, 1), 0);
    assert_eq!(current_price(5_000, 0, 10, u128::MAX), 0);
    assert_eq!(current_price(1_000, 0, 7, 7), 0);
}

#[test]
fn price_before_start_is_starting_price() {
    assert_eq!(current_price(100, 5_000, 1000, 10), 1000);
}

#[test]
fn price_never_rises() {
    let mut last = current_price(0, 0, 10_000, 7);
    for t in 1..200u64 {
        let p = current_price(t * 333, 0, 10_000, 7);
        assert!(p <= last);
        assert!(p <= 10_000);
        last = p;
    }
}

#[test]
fn duration_sums_fields_into_seconds() {
    let d = Duration { hours: 1, minutes: 2, seconds: 3 };
    assert_eq!(d.in_seconds(), 3723);
    let big = Duration { hours: u64::MAX, minutes: u64::MAX, seconds: u64::MAX };
    assert_eq!(big.in_seconds(), (u64::MAX as u128) * 3661);
}

#[test]
fn start_price_below_minimum_is_refused() {
    let mut a = Auction::new(actor(OWNER), actor(PROGRAM));
    let r = a.handle(actor(OWNER), Action::Create(config(99, 1, 100)), 0, 0);
    assert_eq!(r, err(Error::StartingPriceBelowMinimum));
    assert_eq!(a.status, Status::Uninitialized);
    assert!(a.transactions.get(actor(OWNER)).is_none());
}

#[test]
fn start_price_at_minimum_is_accepted() {
    let mut a = Auction::new(actor(OWNER), actor(PROGRAM));
    let r = a.handle(actor(OWNER), Action::Create(config(100, 1, 100)), 0, 0);
    assert_eq!(
        r,
        Step::Call(RegistryCall::CheckApproval {
            contract_id: actor(REGISTRY),
            token_id: token(TOKEN),
            spender: actor(PROGRAM),
        })
    );
}

#[test]
fn start_then_buy_end_to_end() {
    let mut a = Auction::new(actor(OWNER), actor(PROGRAM));
    let cfg = config(1000, 1, 100);
    let r = a.handle(actor(OWNER), Action::Create(cfg), 0, 0);
    assert!(matches!(r, Step::Call(RegistryCall::CheckApproval { .. })));
    let r = a.respond(actor(OWNER), Response::Approval(true), 0);
    assert_eq!(r, Step::Call(RegistryCall::QueryOwner { contract_id: actor(REGISTRY), token_id: token(TOKEN) }));
    let r = a.respond(actor(OWNER), Response::Owner(actor(SELLER)), 0);
    assert_eq!(
        r,
        Step::Call(RegistryCall::Transfer {
            contract_id: actor(REGISTRY),
            token_id: token(TOKEN),
            to: actor(PROGRAM),
            transaction_id: 0,
        })
    );
    assert_eq!(a.status, Status::IsRunning);
    assert_eq!(a.expires_at, 100_000);
    let r = a.respond(actor(OWNER), Response::Transferred, 0);
    assert_eq!(
        r,
        Step::Reply {
            result: Ok(Event::AuctionStarted { token_owner: actor(SELLER), price: 1000, token_id: token(TOKEN) }),
            refund: 0,
        }
    );
    assert!(a.transactions.get(actor(OWNER)).is_none());

    assert_eq!(a.token_price(50_000), 950);
    let r = a.handle(actor(BUYER), Action::Buy, 50_000, 950);
    assert_eq!(
        r,
        Step::Call(RegistryCall::Transfer {
            contract_id: actor(REGISTRY),
            token_id: token(TOKEN),
            to: actor(BUYER),
            transaction_id: 1,
        })
    );
    assert_eq!(a.status, Status::Purchased { price: 950 });
    let r = a.respond(actor(BUYER), Response::Transferred, 50_000);
    assert_eq!(r, Step::Call(RegistryCall::PayReward { to: actor(SELLER), amount: 950 }));
    assert_eq!(a.nft.owner, actor(BUYER));
    let r = a.respond(actor(BUYER), Response::Paid, 50_000);
    assert_eq!(r, Step::Reply { result: Ok(Event::Bought { price: 950 }), refund: 0 });
    assert_eq!(a.status, Status::Purchased { price: 950 });
    assert!(a.transactions.get(actor(BUYER)).is_none());
}

fn buy_all_the_way(payment: u128) -> Step {
    let mut a = started(config(1000, 1, 100), 0);
    a.handle(actor(BUYER), Action::Buy, 50_000, payment);
    a.respond(actor(BUYER), Response::Transferred, 50_000);
    a.respond(actor(BUYER), Response::Paid, 50_000)
}

#[test]
fn small_refund_is_dust() {
    assert_eq!(buy_all_the_way(1449), Step::Reply { result: Ok(Event::Bought { price: 950 }), refund: 0 });
}

#[test]
fn large_refund_is_sent() {
    assert_eq!(buy_all_the_way(1450), Step::Reply { result: Ok(Event::Bought { price: 950 }), refund: 500 });
}

#[test]
fn buy_just_before_expiry_succeeds() {
    let mut a = started(config(1000, 1, 100), 0);
    let r = a.handle(actor(BUYER), Action::Buy, 99_999, 1000);
    assert!(matches!(r, Step::Call(RegistryCall::Transfer { .. })));
    assert_eq!(a.status, Status::Purchased { price: 901 });
}

#[test]
fn buy_at_expiry_fails() {
    let mut a = started(config(1000, 1, 100), 0);
    let r = a.handle(actor(BUYER), Action::Buy, 100_000, 1000);
    assert_eq!(r, err_refunded(Error::Expired, 1000));
    assert_eq!(a.status, Status::Expired);
    assert!(a.transactions.get(actor(BUYER)).is_none());
}

#[test]
fn buy_with_too_little_fails() {
    let mut a = started(config(1000, 1, 100), 0);
    let r = a.handle(actor(BUYER), Action::Buy, 50_000, 949);
    assert_eq!(r, err_refunded(Error::InsufficientPayment, 949));
    assert_eq!(a.status, Status::IsRunning);
}

#[test]
fn buy_before_start_fails() {
    let mut a = Auction::new(actor(OWNER), actor(PROGRAM));
    assert_eq!(a.handle(actor(BUYER), Action::Buy, 0, 1000), err_refunded(Error::AuctionNotActive, 1000));
}

#[test]
fn repeated_buy_shares_transaction() {
    let mut a = started(config(1000, 1, 100), 0);
    let first = a.handle(actor(BUYER), Action::Buy, 10_000, 1000);
    assert!(matches!(first, Step::Call(RegistryCall::Transfer { transaction_id: 1, .. })));
    let second = a.handle(actor(BUYER), Action::Buy, 11_000, 1000);
    assert_eq!(second, Step::InProgress { transaction_id: 1, refund: 1000 });
    assert_eq!(a.transactions.next_id(), 2);
}

#[test]
fn other_request_while_buying_is_refused() {
    let mut a = started(config(1000, 1, 100), 0);
    a.handle(actor(BUYER), Action::Buy, 10_000, 1000);
    let r = a.handle(actor(BUYER), Action::ForceStop, 11_000, 0);
    assert_eq!(r, err(Error::PreviousTransactionPending));
    let r = a.handle(actor(BUYER), Action::Create(config(5, 0, 1)), 11_000, 0);
    assert_eq!(r, err(Error::PreviousTransactionPending));
    assert_eq!(a.status, Status::Purchased { price: 990 });
}

#[test]
fn force_stop_by_stranger_fails() {
    let mut a = started(config(1000, 1, 100), 0);
    assert_eq!(a.handle(actor(BUYER), Action::ForceStop, 1_000, 0), err(Error::NotOwner));
    assert_eq!(a.status, Status::IsRunning);
    assert!(a.transactions.get(actor(BUYER)).is_none());
}

#[test]
fn force_stop_by_owner_returns_asset() {
    let mut a = started(config(1000, 1, 100), 0);
    let r = a.handle(actor(OWNER), Action::ForceStop, 1_000, 0);
    assert_eq!(
        r,
        Step::Call(RegistryCall::Transfer {
            contract_id: actor(REGISTRY),
            token_id: token(TOKEN),
            to: actor(SELLER),
            transaction_id: 1,
        })
    );
    assert_eq!(a.status, Status::IsRunning);
    let r = a.respond(actor(OWNER), Response::Transferred, 1_000);
    assert_eq!(
        r,
        Step::Reply { result: Ok(Event::AuctionStopped { token_owner: actor(SELLER), token_id: token(TOKEN) }), refund: 0 }
    );
    assert_eq!(a.status, Status::Stopped);
}

#[test]
fn force_stop_transfer_failure_is_retried() {
    let mut a = started(config(1000, 1, 100), 0);
    a.handle(actor(OWNER), Action::ForceStop, 1_000, 0);
    assert_eq!(a.respond(actor(OWNER), Response::Failed, 1_000), err(Error::AssetTransferFailed));
    assert_eq!(a.status, Status::IsRunning);
    let r = a.handle(actor(OWNER), Action::ForceStop, 2_000, 0);
    assert!(matches!(r, Step::Call(RegistryCall::Transfer { transaction_id: 1, .. })));
}

#[test]
fn force_stop_of_expired_auction_fails() {
    let mut a = started(config(1000, 1, 100), 0);
    assert_eq!(a.handle(actor(OWNER), Action::ForceStop, 100_000, 0), err(Error::Expired));
    let mut b = Auction::new(actor(OWNER), actor(PROGRAM));
    assert_eq!(b.handle(actor(OWNER), Action::ForceStop, 0, 0), err(Error::AuctionNotActive));
}

#[test]
fn start_while_running_fails() {
    let mut a = started(config(1000, 1, 100), 0);
    let r = a.handle(actor(BUYER), Action::Create(config(10, 0, 5)), 1_000, 0);
    assert_eq!(r, err(Error::AuctionAlreadyRunning));
}

#[test]
fn restart_after_expiry_is_allowed() {
    let mut a = started(config(1000, 1, 100), 0);
    let r = a.handle(actor(OWNER), Action::Create(config(500, 1, 10)), 200_000, 0);
    assert!(matches!(r, Step::Call(RegistryCall::CheckApproval { .. })));
}

#[test]
fn approval_denied_ends_saga() {
    let mut a = Auction::new(actor(OWNER), actor(PROGRAM));
    a.handle(actor(OWNER), Action::Create(config(1000, 1, 100)), 0, 0);
    assert_eq!(a.respond(actor(OWNER), Response::Approval(false), 0), err(Error::AssetNotApproved));
    assert!(a.transactions.get(actor(OWNER)).is_none());
    assert_eq!(a.status, Status::Uninitialized);
}

#[test]
fn owner_query_failure_keeps_checkpoint() {
    let mut a = Auction::new(actor(OWNER), actor(PROGRAM));
    let cfg = config(1000, 1, 100);
    a.handle(actor(OWNER), Action::Create(cfg), 0, 0);
    a.respond(actor(OWNER), Response::Approval(true), 0);
    assert_eq!(a.respond(actor(OWNER), Response::Failed, 0), err(Error::RegistryCallFailed));
    let t = a.transactions.get(actor(OWNER)).unwrap();
    assert!(!t.awaiting_reply);
    assert_eq!(
        a.handle(actor(OWNER), Action::Create(cfg), 0, 0),
        Step::Call(RegistryCall::QueryOwner { contract_id: actor(REGISTRY), token_id: token(TOKEN) })
    );
}

#[test]
fn resume_after_restart_skips_approval() {
    let mut a = Auction::new(actor(OWNER), actor(PROGRAM));
    let cfg = config(1000, 1, 100);
    a.handle(actor(OWNER), Action::Create(cfg), 0, 0);
    a.respond(actor(OWNER), Response::Approval(true), 0);
    a.respond(actor(OWNER), Response::Owner(actor(SELLER)), 0);
    assert_eq!(a.handle(actor(OWNER), Action::Create(cfg), 5, 0), Step::InProgress { transaction_id: 0, refund: 0 });
    a.restart();
    let r = a.handle(actor(OWNER), Action::Create(cfg), 2_000, 0);
    assert_eq!(
        r,
        Step::Call(RegistryCall::Transfer {
            contract_id: actor(REGISTRY),
            token_id: token(TOKEN),
            to: actor(PROGRAM),
            transaction_id: 0,
        })
    );
    assert_eq!(a.started_at, 2_000);
    assert_eq!(a.expires_at, 102_000);
    let r = a.respond(actor(OWNER), Response::Transferred, 2_000);
    assert!(matches!(r, Step::Reply { result: Ok(Event::AuctionStarted { .. }), .. }));
}

#[test]
fn buy_transfer_failure_keeps_price_locked() {
    let mut a = started(config(1000, 1, 100), 0);
    a.handle(actor(BUYER), Action::Buy, 20_000, 1000);
    assert_eq!(a.respond(actor(BUYER), Response::Failed, 20_000), err(Error::AssetTransferFailed));
    assert_eq!(a.status, Status::Purchased { price: 980 });
    let r = a.handle(actor(BUYER), Action::Buy, 30_000, 1000);
    assert_eq!(
        r,
        Step::Call(RegistryCall::Transfer {
            contract_id: actor(REGISTRY),
            token_id: token(TOKEN),
            to: actor(BUYER),
            transaction_id: 1,
        })
    );
}

#[test]
fn reward_failure_is_reported_and_retried() {
    let mut a = started(config(1000, 1, 100), 0);
    a.handle(actor(BUYER), Action::Buy, 20_000, 1000);
    a.respond(actor(BUYER), Response::Transferred, 20_000);
    assert_eq!(a.respond(actor(BUYER), Response::Failed, 20_000), err(Error::RewardSendFailed));
    let r = a.handle(actor(BUYER), Action::Buy, 30_000, 1000);
    assert_eq!(r, Step::Call(RegistryCall::PayReward { to: actor(SELLER), amount: 980 }));
    assert_eq!(a.respond(actor(BUYER), Response::Paid, 30_000), Step::Reply { result: Ok(Event::Bought { price: 980 }), refund: 1000 });
}

#[test]
fn unexpected_reply_is_ignored() {
    let mut a = started(config(1000, 1, 100), 0);
    assert_eq!(a.respond(actor(BUYER), Response::Paid, 0), Step::Ignored);
    assert_eq!(a.status, Status::IsRunning);
}

#[test]
fn info_checks_expiry_and_reports() {
    let mut a = started(config(1000, 1, 100), 0);
    a.handle(actor(BUYER), Action::Buy, 1_000, 1);
    let i = a.info(40_000);
    assert_eq!(i.current_price, 960);
    assert_eq!(i.time_left, 60_000);
    assert_eq!(i.status, Status::IsRunning);
    assert_eq!(i.token_owner, actor(SELLER));
    assert_eq!(i.current_tid, 2);
    assert!(i.transactions.is_empty());
    let i = a.info(150_000);
    assert_eq!(i.status, Status::Expired);
    assert_eq!(i.time_left, 0);
    assert_eq!(i.current_price, 850);
}

#[test]
fn info_lists_pending_transactions() {
    let mut a = started(config(1000, 1, 100), 0);
    a.handle(actor(BUYER), Action::Buy, 1_000, 1000);
    let i = a.info(2_000);
    assert_eq!(i.transactions.len(), 1);
    assert_eq!(i.transactions[0].0, actor(BUYER));
    assert_eq!(i.transactions[0].1.id, 1);
    assert!(i.transactions[0].1.awaiting_reply);
}

#[test]
fn ledger_begin_advance_end() {
    let mut l = TransactionLedger::new();
    assert_eq!(l.begin(actor(1), Action::Buy, 700), Ok(0));
    assert_eq!(l.get(actor(1)).unwrap().refund_due, 700);
    assert_eq!(l.begin(actor(2), Action::ForceStop, 0), Ok(1));
    assert_eq!(l.begin(actor(1), Action::Buy, 5), Ok(0));
    assert_eq!(l.get(actor(1)).unwrap().refund_due, 700);
    assert_eq!(l.begin(actor(1), Action::ForceStop, 0), Err(Error::PreviousTransactionPending));
    l.advance(actor(2), TransactionStage::ForceStopStage, true, 3);
    assert!(l.get(actor(2)).unwrap().awaiting_reply);
    assert_eq!(l.get(actor(2)).unwrap().refund_due, 3);
    l.end(actor(1));
    assert!(l.get(actor(1)).is_none());
    assert_eq!(l.begin(actor(1), Action::ForceStop, 0), Ok(2));
    assert_eq!(l.next_id(), 3);
}

fn week_long_config() -> CreateConfig {
    CreateConfig {
        nft_contract_actor_id: actor(2),
        token_id: token(0),
        starting_price: 1_000_000_000,
        discount_rate: 1_000,
        duration: Duration { hours: 168, minutes: 0, seconds: 0 },
    }
}

fn open_week_long(a: &mut Auction) {
    let cfg = week_long_config();
    assert!(matches!(a.handle(actor(OWNER), Action::Create(cfg), 0, 0), Step::Call(RegistryCall::CheckApproval { .. })));
    a.respond(actor(OWNER), Response::Approval(true), 0);
    a.respond(actor(OWNER), Response::Owner(actor(SELLER)), 0);
    let r = a.respond(actor(OWNER), Response::Transferred, 0);
    assert_eq!(
        r,
        Step::Reply {
            result: Ok(Event::AuctionStarted { token_owner: actor(SELLER), price: 1_000_000_000, token_id: token(0) }),
            refund: 0,
        }
    );
    assert_eq!(a.expires_at, 168 * 3600 * 1000);
}

#[test]
fn buy() {
    let mut a = Auction::new(actor(OWNER), actor(PROGRAM));
    open_week_long(&mut a);
    assert_eq!(a.status, Status::IsRunning);
    let r = a.handle(actor(BUYER), Action::Buy, 1_000, 1_000_000_000);
    assert!(matches!(r, Step::Call(RegistryCall::Transfer { .. })));
    a.respond(actor(BUYER), Response::Transferred, 1_000);
    let r = a.respond(actor(BUYER), Response::Paid, 1_000);
    assert_eq!(r, Step::Reply { result: Ok(Event::Bought { price: 999_999_000 }), refund: 1_000 });
}

#[test]
fn create_and_stop() {
    let mut a = Auction::new(actor(OWNER), actor(PROGRAM));
    open_week_long(&mut a);
    a.handle(actor(OWNER), Action::ForceStop, 1_000, 0);
    let r = a.respond(actor(OWNER), Response::Transferred, 1_000);
    assert_eq!(
        r,
        Step::Reply { result: Ok(Event::AuctionStopped { token_owner: actor(SELLER), token_id: token(0) }), refund: 0 }
    );
    assert_eq!(a.status, Status::Stopped);
}

#[test]
fn buy_refused_while_owner_stops() {
    let mut a = started(config(1000, 1, 100), 0);
    assert!(matches!(a.handle(actor(OWNER), Action::ForceStop, 1_000, 0), Step::Call(RegistryCall::Transfer { .. })));
    let r = a.handle(actor(BUYER), Action::Buy, 2_000, 1000);
    assert_eq!(r, err_refunded(Error::AuctionNotActive, 1000));
    assert_eq!(a.status, Status::IsRunning);
    assert!(a.transactions.get(actor(BUYER)).is_none());
    let r = a.respond(actor(OWNER), Response::Transferred, 3_000);
    assert!(matches!(r, Step::Reply { result: Ok(Event::AuctionStopped { .. }), .. }));
    assert_eq!(a.status, Status::Stopped);
}

#[test]
fn stop_that_outlives_expiry_keeps_expired() {
    let mut a = started(config(1000, 1, 100), 0);
    a.handle(actor(OWNER), Action::ForceStop, 1_000, 0);
    assert_eq!(a.handle(actor(BUYER), Action::Buy, 100_000, 5), err_refunded(Error::Expired, 5));
    assert_eq!(a.status, Status::Expired);
    let r = a.respond(actor(OWNER), Response::Transferred, 100_000);
    assert!(matches!(r, Step::Reply { result: Ok(Event::AuctionStopped { .. }), .. }));
    assert_eq!(a.status, Status::Expired);
}

#[test]
fn refused_requests_return_payment() {
    let mut a = started(config(1000, 1, 100), 0);
    a.handle(actor(BUYER), Action::Buy, 1_000, 2000);
    assert_eq!(a.handle(actor(BUYER), Action::ForceStop, 1_000, 42), err_refunded(Error::PreviousTransactionPending, 42));
    assert_eq!(a.handle(actor(SELLER), Action::ForceStop, 1_000, 17), err_refunded(Error::NotOwner, 17));
    let mut b = Auction::new(actor(OWNER), actor(PROGRAM));
    assert_eq!(
        b.handle(actor(OWNER), Action::Create(config(99, 1, 100)), 0, 30),
        err_refunded(Error::StartingPriceBelowMinimum, 30)
    );
}

#[test]
fn buy_surplus_returned_on_transfer_failure() {
    let mut a = started(config(1000, 1, 100), 0);
    a.handle(actor(BUYER), Action::Buy, 20_000, 2000);
    assert_eq!(a.respond(actor(BUYER), Response::Failed, 20_000), err_refunded(Error::AssetTransferFailed, 1020));
    assert_eq!(a.handle(actor(BUYER), Action::Buy, 30_000, 300), Step::Call(RegistryCall::Transfer {
        contract_id: actor(REGISTRY),
        token_id: token(TOKEN),
        to: actor(BUYER),
        transaction_id: 1,
    }));
    a.respond(actor(BUYER), Response::Transferred, 30_000);
    assert_eq!(a.respond(actor(BUYER), Response::Paid, 30_000), Step::Reply { result: Ok(Event::Bought { price: 980 }), refund: 300 });
}

#[test]
fn new_auction_has_zero_asset() {
    let a = Auction::new(actor(OWNER), actor(PROGRAM));
    assert_eq!(a.nft.owner, actor(0));
    assert_eq!(a.nft.contract_id, actor(0));
    assert_eq!(a.nft.token_id, token(0));
}

#[test]
fn start_refused_while_purchase_pending() {
    let mut a = started(config(1000, 1, 100), 0);
    a.handle(actor(BUYER), Action::Buy, 20_000, 1000);
    assert_eq!(a.respond(actor(BUYER), Response::Failed, 20_000), err(Error::AssetTransferFailed));
    let r = a.handle(actor(OWNER), Action::Create(config(500, 1, 10)), 30_000, 9);
    assert_eq!(r, err_refunded(Error::AuctionAlreadyRunning, 9));
    assert_eq!(a.status, Status::Purchased { price: 980 });
}

#[test]
fn buy_refused_while_start_pending() {
    let mut a = Auction::new(actor(OWNER), actor(PROGRAM));
    a.handle(actor(OWNER), Action::Create(config(1000, 1, 100)), 0, 0);
    a.respond(actor(OWNER), Response::Approval(true), 0);
    a.respond(actor(OWNER), Response::Owner(actor(SELLER)), 0);
    assert_eq!(a.status, Status::IsRunning);
    assert_eq!(a.handle(actor(BUYER), Action::Buy, 1_000, 1000), err_refunded(Error::AuctionNotActive, 1000));
    assert!(matches!(a.respond(actor(OWNER), Response::Transferred, 1_000), Step::Reply { result: Ok(_), .. }));
    assert!(matches!(a.handle(actor(BUYER), Action::Buy, 2_000, 1000), Step::Call(RegistryCall::Transfer { .. })));
}

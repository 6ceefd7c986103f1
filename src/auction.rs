use vstd::prelude::*;
use crate::types::{
    duration_secs, Action, ActorId, CreateConfig, Error, Event, Nft, Status, TokenId,
    DUST_THRESHOLD, MILLIS_PER_UNIT,
};
use crate::price::{current_price, price_at};
use crate::ledger::{
    initial_stage, BuyStage, StartAuctionStage, Transaction, TransactionLedger, TransactionStage,
};

verus! {

/// A call on the asset registry that the host must perform for a saga.
#[derive(Clone, Copy, Debug, PartialEq, Eq, Structural)]
pub enum RegistryCall {
    /// May `spender` move the token?
    CheckApproval { contract_id: ActorId, token_id: TokenId, spender: ActorId },
    /// Who owns the token?
    QueryOwner { contract_id: ActorId, token_id: TokenId },
    /// Move the token to `to`; the registry treats calls with one
    /// `transaction_id` as one operation.
    Transfer { contract_id: ActorId, token_id: TokenId, to: ActorId, transaction_id: u64 },
    /// Send `amount` of value to `to`.
    PayReward { to: ActorId, amount: u128 },
}

/// The outcome of a registry call, handed back by the host.
#[derive(Clone, Copy, Debug, PartialEq, Eq, Structural)]
pub enum Response {
    Approval(bool),
    Owner(ActorId),
    Transferred,
    Paid,
    /// The call failed or its reply could not be read.
    Failed,
}

/// What the host must do next for a caller.
#[derive(Clone, Copy, Debug, PartialEq, Eq)]
pub enum Step {
    /// Perform the call and hand its outcome to `Auction::respond`.
    Call(RegistryCall),
    /// The caller's operation already waits for a registry reply; answer
    /// the repeat and send its payment, `refund`, back.
    InProgress { transaction_id: u64, refund: u128 },
    /// The operation is over: reply with `result` and send `refund` back.
    Reply { result: Result<Event, Error>, refund: u128 },
    /// A reply that no saga of this caller waits for; nothing to do.
    Ignored,
}

/// A snapshot of the auction for queries.
#[derive(Debug)]
pub struct AuctionInfo {
    pub nft_contract_actor_id: ActorId,
    pub token_id: TokenId,
    pub token_owner: ActorId,
    pub auction_owner: ActorId,
    pub starting_price: u128,
    pub current_price: u128,
    pub discount_rate: u128,
    pub time_left: u64,
    pub expires_at: u64,
    pub status: Status,
    pub transactions: Vec<(ActorId, Transaction)>,
    pub current_tid: u64,
}

/// The single auction: its terms, its lifecycle and its ledger of in-flight
/// operations.
pub struct Auction {
    /// Who deployed the auction; only they may force a stop.
    pub owner: ActorId,
    /// The auction's own identity in the registry.
    pub program_id: ActorId,
    pub nft: Nft,
    pub starting_price: u128,
    pub discount_rate: u128,
    pub status: Status,
    pub started_at: u64,
    pub expires_at: u64,
    pub transactions: TransactionLedger,
}

/// The status after the lazy expiry check at time `now`.
pub open spec fn status_at(status: Status, now: u64, expires_at: u64) -> Status {
    if status is IsRunning && now >= expires_at { Status::Expired } else { status }
}

/// The expiry of an auction started at `now` that runs `secs` seconds,
/// saturating at the largest timestamp.
pub open spec fn expiry(now: u64, secs: int) -> u64 {
    let e = now + secs * MILLIS_PER_UNIT;
    if e > u64::MAX { u64::MAX } else { e as u64 }
}

/// What the buyer gets back: the surplus, unless it is dust.
pub open spec fn refund_of(payment: u128, price: int) -> u128 {
    let r = payment - price;
    if r < DUST_THRESHOLD { 0 } else { r as u128 }
}

/// All fields but the status and the ledger are equal.
pub open spec fn same_terms(a: Auction, b: Auction) -> bool {
    &&& a.owner == b.owner
    &&& a.program_id == b.program_id
    &&& a.nft == b.nft
    &&& a.starting_price == b.starting_price
    &&& a.discount_rate == b.discount_rate
    &&& a.started_at == b.started_at
    &&& a.expires_at == b.expires_at
}

/// `caller`'s entry moved to `stage`, awaiting a reply or not, with
/// `refund_due` owed to the request driving it.
pub open spec fn staged(
    pre: Auction,
    post: Auction,
    caller: ActorId,
    stage: TransactionStage,
    awaiting: bool,
    refund_due: u128,
) -> bool {
    &&& post.transactions@ == pre.transactions@.insert(
        caller,
        Transaction { stage, awaiting_reply: awaiting, refund_due, ..pre.transactions@[caller] },
    )
    &&& post.transactions.next_id_spec() == pre.transactions.next_id_spec()
}

/// `caller`'s entry was removed and nothing else changed.
pub open spec fn ended(pre: Auction, post: Auction, caller: ActorId) -> bool {
    &&& post.transactions@ == pre.transactions@.remove(caller)
    &&& post.transactions.next_id_spec() == pre.transactions.next_id_spec()
    &&& same_terms(pre, post)
    &&& post.status == pre.status
}

/// What is owed back to the request that drives `caller`'s saga.
pub open spec fn due(a: Auction, caller: ActorId) -> u128 {
    a.transactions@[caller].refund_due
}

/// The operation ended with error `e` before any effect; nothing is left to
/// resume and what was held for the request goes back.
pub open spec fn failed_before_effects(pre: Auction, post: Auction, caller: ActorId, e: Error, r: Step) -> bool {
    &&& r == Step::Reply { result: Err(e), refund: due(pre, caller) }
    &&& ended(pre, post, caller)
}

/// A registry call failed with error `e`: what is owed to the driving
/// request goes back with the reply, and the entry stays at its checkpoint,
/// no longer awaiting, so that a retry resumes there.
pub open spec fn failed_retryable(pre: Auction, post: Auction, caller: ActorId, e: Error, r: Step) -> bool {
    &&& r == Step::Reply { result: Err(e), refund: due(pre, caller) }
    &&& staged(pre, post, caller, pre.transactions@[caller].stage, false, 0)
    &&& same_terms(pre, post)
    &&& post.status == pre.status
}

/// Only the ledger moved to `stage`, awaiting the reply to `call`.
pub open spec fn issued(
    pre: Auction,
    post: Auction,
    caller: ActorId,
    stage: TransactionStage,
    call: RegistryCall,
    r: Step,
) -> bool {
    &&& r == Step::Call(call)
    &&& staged(pre, post, caller, stage, true, due(pre, caller))
    &&& same_terms(pre, post)
    &&& post.status == pre.status
}

impl Auction {
    pub closed spec fn wf(&self) -> bool {
        &&& self.transactions.wf()
        &&& self.started_at <= self.expires_at
    }

    /// The reason a StartAuction may not proceed, if any.
    pub open spec fn start_error(&self, caller: ActorId, config: CreateConfig) -> Option<Error> {
        if self.status is IsRunning {
            Some(Error::AuctionAlreadyRunning)
        } else if self.busy_for(caller) {
            Some(Error::AuctionAlreadyRunning)
        } else if config.starting_price < config.discount_rate * duration_secs(config.duration) {
            Some(Error::StartingPriceBelowMinimum)
        } else {
            None
        }
    }

    /// Another caller has an operation in flight. Every two operations on
    /// the one auction conflict, so none begins while another is in flight.
    pub open spec fn busy_for(&self, caller: ActorId) -> bool {
        exists|k: ActorId| k != caller && #[trigger] self.transactions@.contains_key(k)
    }

    /// The reason a Buy by `caller` at `now` paying `payment` may not
    /// proceed, if any.
    pub open spec fn buy_error(&self, caller: ActorId, now: u64, payment: u128) -> Option<Error> {
        if self.status is Expired {
            Some(Error::Expired)
        } else if !(self.status is IsRunning) {
            Some(Error::AuctionNotActive)
        } else if now >= self.expires_at {
            Some(Error::Expired)
        } else if self.busy_for(caller) {
            Some(Error::AuctionNotActive)
        } else if payment < price_at(now, self.started_at, self.starting_price, self.discount_rate) {
            Some(Error::InsufficientPayment)
        } else {
            None
        }
    }

    /// The reason a ForceStop by `caller` may not proceed, if any.
    pub open spec fn stop_error(&self, caller: ActorId) -> Option<Error> {
        if caller != self.owner {
            Some(Error::NotOwner)
        } else if self.status is Expired {
            Some(Error::Expired)
        } else if !(self.status is IsRunning) {
            Some(Error::AuctionNotActive)
        } else if self.busy_for(caller) {
            Some(Error::AuctionNotActive)
        } else {
            None
        }
    }
}

/// The first step of StartAuction: check the terms, then ask the registry
/// whether the auction may move the asset.
pub open spec fn start_received(pre: Auction, caller: ActorId, config: CreateConfig, post: Auction, r: Step) -> bool {
    match pre.start_error(caller, config) {
        Some(e) => failed_before_effects(pre, post, caller, e, r),
        None => issued(
            pre,
            post,
            caller,
            TransactionStage::StartAuctionStage(StartAuctionStage::JustReceived),
            RegistryCall::CheckApproval {
                contract_id: config.nft_contract_actor_id,
                token_id: config.token_id,
                spender: pre.program_id,
            },
            r,
        ),
    }
}

/// Approval confirmed: ask the registry who owns the asset.
pub open spec fn owner_requested(pre: Auction, caller: ActorId, config: CreateConfig, post: Auction, r: Step) -> bool {
    issued(
        pre,
        post,
        caller,
        TransactionStage::StartAuctionStage(StartAuctionStage::ApprovalConfirmed),
        RegistryCall::QueryOwner { contract_id: config.nft_contract_actor_id, token_id: config.token_id },
        r,
    )
}

/// Owner recorded: commit the terms, mark the auction running, and move the
/// asset to the auction under the saga's transaction id.
pub open spec fn auction_opened(
    pre: Auction,
    caller: ActorId,
    config: CreateConfig,
    now: u64,
    post: Auction,
    r: Step,
) -> bool {
    &&& r == Step::Call(
        RegistryCall::Transfer {
            contract_id: pre.nft.contract_id,
            token_id: pre.nft.token_id,
            to: pre.program_id,
            transaction_id: pre.transactions@[caller].id,
        },
    )
    &&& staged(
        pre,
        post,
        caller,
        TransactionStage::StartAuctionStage(StartAuctionStage::OwnerRecorded),
        true,
        due(pre, caller),
    )
    &&& post.status == Status::IsRunning
    &&& post.started_at == now
    &&& post.expires_at == expiry(now, duration_secs(config.duration))
    &&& post.starting_price == config.starting_price
    &&& post.discount_rate == config.discount_rate
    &&& post.owner == pre.owner
    &&& post.program_id == pre.program_id
    &&& post.nft == pre.nft
}

/// The first step of Buy, paid with what the caller's entry holds: check,
/// lock the price by marking the auction purchased, keep only the surplus as
/// due back, then move the asset to the buyer.
pub open spec fn buy_received(pre: Auction, caller: ActorId, now: u64, post: Auction, r: Step) -> bool {
    let payment = due(pre, caller);
    match pre.buy_error(caller, now, payment) {
        Some(e) => failed_before_effects(pre, post, caller, e, r),
        None => {
            let price = price_at(now, pre.started_at, pre.starting_price, pre.discount_rate);
            &&& r == Step::Call(
                RegistryCall::Transfer {
                    contract_id: pre.nft.contract_id,
                    token_id: pre.nft.token_id,
                    to: caller,
                    transaction_id: pre.transactions@[caller].id,
                },
            )
            &&& staged(
                pre,
                post,
                caller,
                TransactionStage::BuyStage(BuyStage::PriceLocked { price: price as u128 }),
                true,
                refund_of(payment, price),
            )
            &&& same_terms(pre, post)
            &&& post.status == Status::Purchased { price: price as u128 }
        },
    }
}

/// The first step of ForceStop: check, then move the asset back to its
/// pre-auction owner.
pub open spec fn stop_received(pre: Auction, caller: ActorId, post: Auction, r: Step) -> bool {
    match pre.stop_error(caller) {
        Some(e) => failed_before_effects(pre, post, caller, e, r),
        None => issued(
            pre,
            post,
            caller,
            TransactionStage::ForceStopStage,
            RegistryCall::Transfer {
                contract_id: pre.nft.contract_id,
                token_id: pre.nft.token_id,
                to: pre.nft.owner,
                transaction_id: pre.transactions@[caller].id,
            },
            r,
        ),
    }
}

/// Carry on `caller`'s saga from its recorded checkpoint, which awaits no
/// reply: steps that were confirmed are not repeated.
pub open spec fn resumed(pre: Auction, caller: ActorId, now: u64, post: Auction, r: Step) -> bool {
    let t = pre.transactions@[caller];
    match t.stage {
        TransactionStage::StartAuctionStage(s) => {
            let config = t.action->Create_0;
            match s {
                StartAuctionStage::JustReceived => start_received(pre, caller, config, post, r),
                StartAuctionStage::ApprovalConfirmed => owner_requested(pre, caller, config, post, r),
                StartAuctionStage::OwnerRecorded => auction_opened(pre, caller, config, now, post, r),
            }
        },
        TransactionStage::BuyStage(s) => match s {
            BuyStage::JustReceived => buy_received(pre, caller, now, post, r),
            BuyStage::PriceLocked { .. } => issued(
                pre,
                post,
                caller,
                t.stage,
                RegistryCall::Transfer {
                    contract_id: pre.nft.contract_id,
                    token_id: pre.nft.token_id,
                    to: caller,
                    transaction_id: t.id,
                },
                r,
            ),
            BuyStage::TransferConfirmed { price, seller, .. } => issued(
                pre,
                post,
                caller,
                t.stage,
                RegistryCall::PayReward { to: seller, amount: price },
                r,
            ),
        },
        TransactionStage::ForceStopStage => stop_received(pre, caller, post, r),
    }
}

/// The auction with its expiry checked at `now`.
pub open spec fn checked_at(a: Auction, now: u64) -> Auction {
    Auction { status: status_at(a.status, now, a.expires_at), ..a }
}

/// The whole handling of an inbound request `action` from `caller` at `now`
/// with `payment` attached: expiry check, ledger lookup, then the saga.
/// A refused request and a repeat of a request that still waits get their
/// payment back at once; otherwise the payment is held in the caller's entry
/// for the request that now drives the saga.
pub open spec fn handled(
    pre: Auction,
    caller: ActorId,
    action: Action,
    now: u64,
    payment: u128,
    post: Auction,
    r: Step,
) -> bool {
    let a = checked_at(pre, now);
    let l = a.transactions@;
    if l.contains_key(caller) && l[caller].action != action {
        r == Step::Reply { result: Err(Error::PreviousTransactionPending), refund: payment } && post == a
    } else if l.contains_key(caller) && l[caller].awaiting_reply {
        r == (Step::InProgress { transaction_id: l[caller].id, refund: payment }) && post == a
    } else {
        let entry = if l.contains_key(caller) {
            Transaction { refund_due: payment, ..l[caller] }
        } else {
            Transaction {
                id: a.transactions.next_id_spec(),
                action,
                stage: initial_stage(action),
                awaiting_reply: false,
                refund_due: payment,
            }
        };
        let next_id = if l.contains_key(caller) {
            a.transactions.next_id_spec()
        } else {
            crate::ledger::following_id(a.transactions.next_id_spec())
        };
        exists|mid: Auction|
            {
                &&& mid.transactions@ == l.insert(caller, entry)
                &&& mid.transactions.next_id_spec() == next_id
                &&& same_terms(a, mid)
                &&& mid.status == a.status
                &&& resumed(mid, caller, now, post, r)
            }
    }
}

/// How the reply `response` to `caller`'s awaited registry call moves the
/// saga: on success to the next checkpoint and its call, or to the final
/// result; on failure the error is reported and the checkpoint kept, so a
/// retry resumes there (a denied approval ends the saga instead).
pub open spec fn responded(pre: Auction, caller: ActorId, response: Response, now: u64, post: Auction, r: Step) -> bool {
    let l = pre.transactions@;
    if !l.contains_key(caller) || !l[caller].awaiting_reply {
        r == Step::Ignored && post == pre
    } else {
        let t = l[caller];
        match t.stage {
            TransactionStage::StartAuctionStage(s) => {
                let config = t.action->Create_0;
                match s {
                    StartAuctionStage::JustReceived => match response {
                        Response::Approval(true) => owner_requested(pre, caller, config, post, r),
                        Response::Approval(false) => failed_before_effects(pre, post, caller, Error::AssetNotApproved, r),
                        _ => failed_retryable(pre, post, caller, Error::RegistryCallFailed, r),
                    },
                    StartAuctionStage::ApprovalConfirmed => match response {
                        Response::Owner(o) => auction_opened(
                            Auction {
                                nft: Nft {
                                    token_id: config.token_id,
                                    owner: o,
                                    contract_id: config.nft_contract_actor_id,
                                },
                                ..pre
                            },
                            caller,
                            config,
                            now,
                            post,
                            r,
                        ),
                        _ => failed_retryable(pre, post, caller, Error::RegistryCallFailed, r),
                    },
                    StartAuctionStage::OwnerRecorded => match response {
                        Response::Transferred => {
                            &&& r == Step::Reply {
                                result: Ok(
                                    Event::AuctionStarted {
                                        token_owner: pre.nft.owner,
                                        price: pre.starting_price,
                                        token_id: pre.nft.token_id,
                                    },
                                ),
                                refund: due(pre, caller),
                            }
                            &&& ended(pre, post, caller)
                        },
                        _ => failed_retryable(pre, post, caller, Error::RegistryCallFailed, r),
                    },
                }
            },
            TransactionStage::BuyStage(s) => match s {
                BuyStage::JustReceived => r == Step::Ignored && post == pre,
                BuyStage::PriceLocked { price } => match response {
                    Response::Transferred => {
                        &&& r == Step::Call(RegistryCall::PayReward { to: pre.nft.owner, amount: price })
                        &&& staged(
                            pre,
                            post,
                            caller,
                            TransactionStage::BuyStage(
                                BuyStage::TransferConfirmed { price, seller: pre.nft.owner },
                            ),
                            true,
                            due(pre, caller),
                        )
                        &&& post.nft == Nft { owner: caller, ..pre.nft }
                        &&& same_terms(Auction { nft: post.nft, ..pre }, post)
                        &&& post.status == pre.status
                    },
                    _ => failed_retryable(pre, post, caller, Error::AssetTransferFailed, r),
                },
                BuyStage::TransferConfirmed { price, .. } => match response {
                    Response::Paid => {
                        &&& r == Step::Reply { result: Ok(Event::Bought { price }), refund: due(pre, caller) }
                        &&& ended(pre, post, caller)
                    },
                    _ => failed_retryable(pre, post, caller, Error::RewardSendFailed, r),
                },
            },
            TransactionStage::ForceStopStage => match response {
                Response::Transferred => {
                    &&& r == Step::Reply {
                        result: Ok(
                            Event::AuctionStopped {
                                token_owner: pre.nft.owner,
                                token_id: pre.nft.token_id,
                            },
                        ),
                        refund: due(pre, caller),
                    }
                    &&& post.transactions@ == pre.transactions@.remove(caller)
                    &&& post.transactions.next_id_spec() == pre.transactions.next_id_spec()
                    &&& same_terms(pre, post)
                    &&& post.status == (if pre.status is IsRunning { Status::Stopped } else { pre.status })
                },
                _ => failed_retryable(pre, post, caller, Error::AssetTransferFailed, r),
            },
        }
    }
}

impl Auction {
    /// A fresh auction deployed by `owner`, known to the registry as
    /// `program_id`; no auction has run yet.
    pub fn new(owner: ActorId, program_id: ActorId) -> (r: Self)
        ensures
            r.wf(),
            r.owner == owner,
            r.program_id == program_id,
            r.status == Status::Uninitialized,
            r.nft == (Nft {
                token_id: TokenId { w0: 0, w1: 0, w2: 0, w3: 0 },
                owner: ActorId { w0: 0, w1: 0, w2: 0, w3: 0 },
                contract_id: ActorId { w0: 0, w1: 0, w2: 0, w3: 0 },
            }),
            r.transactions@ == Map::<ActorId, Transaction>::empty(),
            r.transactions.next_id_spec() == 0,
            r.started_at == 0,
            r.expires_at == 0,
            r.starting_price == 0,
            r.discount_rate == 0,
    {
        let zero_actor = ActorId { w0: 0, w1: 0, w2: 0, w3: 0 };
        Auction {
            owner,
            program_id,
            nft: Nft {
                token_id: TokenId { w0: 0, w1: 0, w2: 0, w3: 0 },
                owner: zero_actor,
                contract_id: zero_actor,
            },
            starting_price: 0,
            discount_rate: 0,
            status: Status::Uninitialized,
            started_at: 0,
            expires_at: 0,
            transactions: TransactionLedger::new(),
        }
    }

    /// Whether an auction is running.
    pub fn is_active(&self) -> (r: bool)
        ensures
            r == (self.status is IsRunning),
    {
        matches!(self.status, Status::IsRunning)
    }

    /// The price of the asset at `now`.
    pub fn token_price(&self, now: u64) -> (r: u128)
        ensures
            r as int == price_at(now, self.started_at, self.starting_price, self.discount_rate),
    {
        current_price(now, self.started_at, self.starting_price, self.discount_rate)
    }

    /// The lazy expiry check: a running auction whose time is over becomes
    /// expired.
    pub fn stop_if_time_is_over(&mut self, now: u64)
        ensures
            *final(self) == checked_at(*old(self), now),
    {
        if self.is_active() && now >= self.expires_at {
            self.status = Status::Expired;
        }
    }

    fn entry(&self, caller: ActorId) -> (r: Transaction)
        requires
            self.wf(),
            self.transactions@.contains_key(caller),
        ensures
            r == self.transactions@[caller],
    {
        match self.transactions.get(caller) {
            Some(t) => t,
            None => Transaction {  // unreachable: the entry exists by the precondition
                id: 0,
                action: Action::Buy,
                stage: TransactionStage::ForceStopStage,
                awaiting_reply: false,
                refund_due: 0,
            },
        }
    }


    /// The first step of StartAuction.
    pub fn renew_contract(&mut self, caller: ActorId, config: CreateConfig) -> (r: Step)
        requires
            old(self).wf(),
            old(self).transactions@.contains_key(caller),
            old(self).transactions@[caller].stage
                == TransactionStage::StartAuctionStage(StartAuctionStage::JustReceived),
        ensures
            final(self).wf(),
            start_received(*old(self), caller, config, *final(self), r),
    {
        proof {
            self.transactions.lemma_stages_fit();
        }
        let held = self.entry(caller).refund_due;
        if self.is_active() || self.transactions.has_other(caller) {
            self.transactions.end(caller);
            return Step::Reply { result: Err(Error::AuctionAlreadyRunning), refund: held };
        }
        let secs = config.duration.in_seconds();
        let too_low = match config.discount_rate.checked_mul(secs) {
            Some(min_price) => config.starting_price < min_price,
            None => true,
        };
        if too_low {
            self.transactions.end(caller);
            return Step::Reply { result: Err(Error::StartingPriceBelowMinimum), refund: held };
        }
        self.transactions.advance(
            caller,
            TransactionStage::StartAuctionStage(StartAuctionStage::JustReceived),
            true,
            held,
        );
        Step::Call(
            RegistryCall::CheckApproval {
                contract_id: config.nft_contract_actor_id,
                token_id: config.token_id,
                spender: self.program_id,
            },
        )
    }

    /// Acts on the registry's answer to whether the auction may move the
    /// asset: without approval the saga ends, with it the owner is asked for.
    pub fn validate_nft_approve(&mut self, caller: ActorId, config: CreateConfig, approved: bool) -> (r: Step)
        requires
            old(self).wf(),
            old(self).transactions@.contains_key(caller),
            old(self).transactions@[caller].stage is StartAuctionStage,
        ensures
            final(self).wf(),
            approved ==> owner_requested(*old(self), caller, config, *final(self), r),
            !approved ==> failed_before_effects(*old(self), *final(self), caller, Error::AssetNotApproved, r),
    {
        if approved {
            self.get_token_owner(caller, config)
        } else {
            let held = self.entry(caller).refund_due;
            self.transactions.end(caller);
            Step::Reply { result: Err(Error::AssetNotApproved), refund: held }
        }
    }

    /// Asks the registry for the asset's owner, once approval is confirmed.
    pub fn get_token_owner(&mut self, caller: ActorId, config: CreateConfig) -> (r: Step)
        requires
            old(self).wf(),
            old(self).transactions@.contains_key(caller),
            old(self).transactions@[caller].stage is StartAuctionStage,
        ensures
            final(self).wf(),
            owner_requested(*old(self), caller, config, *final(self), r),
    {
        proof {
            self.transactions.lemma_stages_fit();
        }
        let held = self.entry(caller).refund_due;
        self.transactions.advance(
            caller,
            TransactionStage::StartAuctionStage(StartAuctionStage::ApprovalConfirmed),
            true,
            held,
        );
        Step::Call(
            RegistryCall::QueryOwner {
                contract_id: config.nft_contract_actor_id,
                token_id: config.token_id,
            },
        )
    }

    /// Commits the terms, opens the auction and moves the asset to it.
    pub fn transfer_nft_to_auction(&mut self, caller: ActorId, config: CreateConfig, now: u64) -> (r: Step)
        requires
            old(self).wf(),
            old(self).transactions@.contains_key(caller),
            old(self).transactions@[caller].stage is StartAuctionStage,
        ensures
            final(self).wf(),
            auction_opened(*old(self), caller, config, now, *final(self), r),
    {
        proof {
            self.transactions.lemma_stages_fit();
        }
        let t = self.entry(caller);
        let secs = config.duration.in_seconds();
        assert(secs * 1000 <= 0x1_0000_0000_0000_0000 * 3661 * 1000) by (nonlinear_arith)
            requires secs <= 0x1_0000_0000_0000_0000 * 3661;
        let end = now as u128 + secs * (MILLIS_PER_UNIT as u128);
        self.started_at = now;
        self.expires_at = if end > u64::MAX as u128 { u64::MAX } else { end as u64 };
        self.starting_price = config.starting_price;
        self.discount_rate = config.discount_rate;
        self.status = Status::IsRunning;
        self.transactions.advance(
            caller,
            TransactionStage::StartAuctionStage(StartAuctionStage::OwnerRecorded),
            true,
            t.refund_due,
        );
        Step::Call(
            RegistryCall::Transfer {
                contract_id: self.nft.contract_id,
                token_id: self.nft.token_id,
                to: self.program_id,
                transaction_id: t.id,
            },
        )
    }

    /// The first step of Buy, paid with what the caller's entry holds.
    pub fn buy(&mut self, caller: ActorId, now: u64) -> (r: Step)
        requires
            old(self).wf(),
            old(self).transactions@.contains_key(caller),
            old(self).transactions@[caller].stage == TransactionStage::BuyStage(BuyStage::JustReceived),
        ensures
            final(self).wf(),
            buy_received(*old(self), caller, now, *final(self), r),
    {
        proof {
            self.transactions.lemma_stages_fit();
        }
        let t = self.entry(caller);
        let payment = t.refund_due;
        let err = if matches!(self.status, Status::Expired) {
            Some(Error::Expired)
        } else if !self.is_active() {
            Some(Error::AuctionNotActive)
        } else if now >= self.expires_at {
            Some(Error::Expired)
        } else if self.transactions.has_other(caller) {
            Some(Error::AuctionNotActive)
        } else if payment < self.token_price(now) {
            Some(Error::InsufficientPayment)
        } else {
            None
        };
        match err {
            Some(e) => {
                self.transactions.end(caller);
                Step::Reply { result: Err(e), refund: payment }
            },
            None => {
                let price = self.token_price(now);
                self.status = Status::Purchased { price };
                let surplus = payment - price;
                let refund = if surplus < DUST_THRESHOLD { 0 } else { surplus };
                self.transactions.advance(
                    caller,
                    TransactionStage::BuyStage(BuyStage::PriceLocked { price }),
                    true,
                    refund,
                );
                Step::Call(
                    RegistryCall::Transfer {
                        contract_id: self.nft.contract_id,
                        token_id: self.nft.token_id,
                        to: caller,
                        transaction_id: t.id,
                    },
                )
            },
        }
    }

    /// The first step of ForceStop.
    pub fn force_stop(&mut self, caller: ActorId) -> (r: Step)
        requires
            old(self).wf(),
            old(self).transactions@.contains_key(caller),
            old(self).transactions@[caller].stage == TransactionStage::ForceStopStage,
        ensures
            final(self).wf(),
            stop_received(*old(self), caller, *final(self), r),
    {
        proof {
            self.transactions.lemma_stages_fit();
        }
        let t = self.entry(caller);
        let err = if caller != self.owner {
            Some(Error::NotOwner)
        } else if matches!(self.status, Status::Expired) {
            Some(Error::Expired)
        } else if !self.is_active() || self.transactions.has_other(caller) {
            Some(Error::AuctionNotActive)
        } else {
            None
        };
        match err {
            Some(e) => {
                self.transactions.end(caller);
                Step::Reply { result: Err(e), refund: t.refund_due }
            },
            None => {
                let tid = t.id;
                self.transactions.advance(caller, TransactionStage::ForceStopStage, true, t.refund_due);
                Step::Call(
                    RegistryCall::Transfer {
                        contract_id: self.nft.contract_id,
                        token_id: self.nft.token_id,
                        to: self.nft.owner,
                        transaction_id: tid,
                    },
                )
            },
        }
    }
}

impl Auction {
    /// Carries on `caller`'s saga from its recorded checkpoint.
    pub fn resume(&mut self, caller: ActorId, now: u64) -> (r: Step)
        requires
            old(self).wf(),
            old(self).transactions@.contains_key(caller),
            !old(self).transactions@[caller].awaiting_reply,
        ensures
            final(self).wf(),
            resumed(*old(self), caller, now, *final(self), r),
    {
        proof {
            self.transactions.lemma_stages_fit();
        }
        let t = match self.transactions.get(caller) {
            Some(t) => t,
            None => return Step::Ignored,  // unreachable: the entry exists by the precondition
        };
        match t.stage {
            TransactionStage::StartAuctionStage(s) => {
                let config = match t.action {
                    Action::Create(c) => c,
                    _ => return Step::Ignored,  // unreachable: a StartAuction stage only goes with a Create action
                };
                match s {
                    StartAuctionStage::JustReceived => self.renew_contract(caller, config),
                    StartAuctionStage::ApprovalConfirmed => self.get_token_owner(caller, config),
                    StartAuctionStage::OwnerRecorded => self.transfer_nft_to_auction(caller, config, now),
                }
            },
            TransactionStage::BuyStage(s) => match s {
                BuyStage::JustReceived => self.buy(caller, now),
                BuyStage::PriceLocked { .. } => {
                    self.transactions.advance(caller, t.stage, true, t.refund_due);
                    Step::Call(
                        RegistryCall::Transfer {
                            contract_id: self.nft.contract_id,
                            token_id: self.nft.token_id,
                            to: caller,
                            transaction_id: t.id,
                        },
                    )
                },
                BuyStage::TransferConfirmed { price, seller, .. } => {
                    self.transactions.advance(caller, t.stage, true, t.refund_due);
                    Step::Call(RegistryCall::PayReward { to: seller, amount: price })
                },
            },
            TransactionStage::ForceStopStage => self.force_stop(caller),
        }
    }

    /// Handles an inbound request `action` from `caller` at `now`, with
    /// `payment` attached.
    ///
    /// Checks expiry first. A caller with a different operation in flight is
    /// refused; a retry of the same operation gets the same transaction and
    /// resumes at its last checkpoint, or is told that it is still waiting
    /// for a registry reply. A new operation gets a fresh transaction.
    pub fn handle(&mut self, caller: ActorId, action: Action, now: u64, payment: u128) -> (r: Step)
        requires
            old(self).wf(),
        ensures
            final(self).wf(),
            handled(*old(self), caller, action, now, payment, *final(self), r),
    {
        self.stop_if_time_is_over(now);
        let ghost a = *self;
        match self.transactions.begin(caller, action, payment) {
            Err(e) => Step::Reply { result: Err(e), refund: payment },
            Ok(tid) => {
                let t = match self.transactions.get(caller) {
                    Some(t) => t,
                    None => return Step::Ignored,  // unreachable: `begin` just stored or found the entry
                };
                if t.awaiting_reply {
                    Step::InProgress { transaction_id: tid, refund: payment }
                } else {
                    proof {
                        self.transactions.lemma_stages_fit();
                    }
                    self.transactions.advance(caller, t.stage, false, payment);
                    let ghost mid = *self;
                    let r = self.resume(caller, now);
                    proof {
                        assert(same_terms(a, mid));
                        assert(mid.transactions@ == a.transactions@.insert(caller, Transaction { refund_due: payment, ..t }));
                    }
                    r
                }
            },
        }
    }
}

impl Auction {
    fn fail_retryable(&mut self, caller: ActorId, e: Error) -> (r: Step)
        requires
            old(self).wf(),
            old(self).transactions@.contains_key(caller),
        ensures
            final(self).wf(),
            failed_retryable(*old(self), *final(self), caller, e, r),
    {
        proof {
            self.transactions.lemma_stages_fit();
        }
        let t = self.entry(caller);
        self.transactions.advance(caller, t.stage, false, 0);
        Step::Reply { result: Err(e), refund: t.refund_due }
    }

    /// Takes the outcome of the registry call that `caller`'s saga awaits and
    /// moves the saga on.
    pub fn respond(&mut self, caller: ActorId, response: Response, now: u64) -> (r: Step)
        requires
            old(self).wf(),
        ensures
            final(self).wf(),
            responded(*old(self), caller, response, now, *final(self), r),
    {
        proof {
            self.transactions.lemma_stages_fit();
        }
        let t = match self.transactions.get(caller) {
            Some(t) => t,
            None => return Step::Ignored,
        };
        if !t.awaiting_reply {
            return Step::Ignored;
        }
        match t.stage {
            TransactionStage::StartAuctionStage(s) => {
                let config = match t.action {
                    Action::Create(c) => c,
                    _ => return Step::Ignored,  // unreachable: a StartAuction stage only goes with a Create action
                };
                match s {
                    StartAuctionStage::JustReceived => match response {
                        Response::Approval(approved) => self.validate_nft_approve(caller, config, approved),
                        _ => self.fail_retryable(caller, Error::RegistryCallFailed),
                    },
                    StartAuctionStage::ApprovalConfirmed => match response {
                        Response::Owner(o) => {
                            self.nft = Nft {
                                token_id: config.token_id,
                                owner: o,
                                contract_id: config.nft_contract_actor_id,
                            };
                            self.transfer_nft_to_auction(caller, config, now)
                        },
                        _ => self.fail_retryable(caller, Error::RegistryCallFailed),
                    },
                    StartAuctionStage::OwnerRecorded => match response {
                        Response::Transferred => {
                            self.transactions.end(caller);
                            Step::Reply {
                                result: Ok(
                                    Event::AuctionStarted {
                                        token_owner: self.nft.owner,
                                        price: self.starting_price,
                                        token_id: self.nft.token_id,
                                    },
                                ),
                                refund: t.refund_due,
                            }
                        },
                        _ => self.fail_retryable(caller, Error::RegistryCallFailed),
                    },
                }
            },
            TransactionStage::BuyStage(s) => match s {
                BuyStage::JustReceived => Step::Ignored,
                BuyStage::PriceLocked { price } => match response {
                    Response::Transferred => {
                        let seller = self.nft.owner;
                        self.transactions.advance(
                            caller,
                            TransactionStage::BuyStage(
                                BuyStage::TransferConfirmed { price, seller },
                            ),
                            true,
                            t.refund_due,
                        );
                        self.nft.owner = caller;
                        Step::Call(RegistryCall::PayReward { to: seller, amount: price })
                    },
                    _ => self.fail_retryable(caller, Error::AssetTransferFailed),
                },
                BuyStage::TransferConfirmed { price, .. } => match response {
                    Response::Paid => {
                        self.transactions.end(caller);
                        Step::Reply { result: Ok(Event::Bought { price }), refund: t.refund_due }
                    },
                    _ => self.fail_retryable(caller, Error::RewardSendFailed),
                },
            },
            TransactionStage::ForceStopStage => match response {
                Response::Transferred => {
                    self.transactions.end(caller);
                    if self.is_active() {
                        self.status = Status::Stopped;
                    }
                    Step::Reply {
                        result: Ok(
                            Event::AuctionStopped {
                                token_owner: self.nft.owner,
                                token_id: self.nft.token_id,
                            },
                        ),
                        refund: t.refund_due,
                    }
                },
                _ => self.fail_retryable(caller, Error::AssetTransferFailed),
            },
        }
    }

    /// A snapshot of the auction at `now`, after the lazy expiry check.
    pub fn info(&mut self, now: u64) -> (r: AuctionInfo)
        requires
            old(self).wf(),
        ensures
            final(self).wf(),
            *final(self) == checked_at(*old(self), now),
            r.nft_contract_actor_id == final(self).nft.contract_id,
            r.token_id == final(self).nft.token_id,
            r.token_owner == final(self).nft.owner,
            r.auction_owner == final(self).owner,
            r.starting_price == final(self).starting_price,
            r.current_price == price_at(now, final(self).started_at, final(self).starting_price, final(self).discount_rate),
            r.discount_rate == final(self).discount_rate,
            r.time_left == (if final(self).expires_at >= now { final(self).expires_at - now } else { 0 }),
            r.expires_at == final(self).expires_at,
            r.status == final(self).status,
            r.current_tid == final(self).transactions.next_id_spec(),
            forall|i: int| 0 <= i < r.transactions@.len() ==> {
                &&& final(self).transactions@.contains_key(#[trigger] r.transactions@[i].0)
                &&& final(self).transactions@[r.transactions@[i].0] == r.transactions@[i].1
            },
            forall|k: ActorId| #[trigger] final(self).transactions@.contains_key(k)
                ==> exists|i: int| 0 <= i < r.transactions@.len() && r.transactions@[i].0 == k,
    {
        self.stop_if_time_is_over(now);
        let transactions = self.transactions.entries();
        assert forall|k: ActorId| #[trigger] self.transactions@.contains_key(k)
            implies exists|i: int| 0 <= i < transactions@.len() && transactions@[i].0 == k by {
            assert(self.transactions@.contains_key(k));
        }
        let ghost entries = transactions@;
        let info = AuctionInfo {
            nft_contract_actor_id: self.nft.contract_id,
            token_id: self.nft.token_id,
            token_owner: self.nft.owner,
            auction_owner: self.owner,
            starting_price: self.starting_price,
            current_price: self.token_price(now),
            discount_rate: self.discount_rate,
            time_left: self.expires_at.saturating_sub(now),
            expires_at: self.expires_at,
            status: self.status,
            transactions,
            current_tid: self.transactions.next_id(),
        };
        assert(info.transactions@ == entries);
        info
    }
}

impl Auction {
    /// After a restart the replies that sagas awaited will never come: each
    /// saga stays at its last checkpoint, and a retry of its request resumes
    /// there.
    pub fn restart(&mut self)
        requires
            old(self).wf(),
        ensures
            final(self).wf(),
            same_terms(*old(self), *final(self)),
            final(self).status == old(self).status,
            final(self).transactions@.dom() == old(self).transactions@.dom(),
            forall|k: ActorId| #[trigger] final(self).transactions@.contains_key(k)
                ==> final(self).transactions@[k]
                    == (Transaction { awaiting_reply: false, ..old(self).transactions@[k] }),
            final(self).transactions.next_id_spec() == old(self).transactions.next_id_spec(),
    {
        self.transactions.abandon_awaited_replies();
    }
}

} // verus!

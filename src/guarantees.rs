use vstd::prelude::*;
use crate::types::{Action, ActorId, CreateConfig, Error, Status, DUST_THRESHOLD};
use crate::price::price_at;
use crate::ledger::{BuyStage, StartAuctionStage, TransactionStage};
use crate::auction::{checked_at, handled, refund_of, status_at, Auction, RegistryCall, Step};

verus! {

/// Whenever handling a request issues a registry call, the caller's entry
/// records that request and awaits the call's reply.
pub proof fn lemma_call_awaits_reply(
    pre: Auction,
    caller: ActorId,
    action: Action,
    now: u64,
    payment: u128,
    post: Auction,
    r: Step,
)
    requires
        handled(pre, caller, action, now, payment, post, r),
        r is Call,
    ensures
        post.transactions@.contains_key(caller),
        post.transactions@[caller].awaiting_reply,
        post.transactions@[caller].action == action,
{
}

/// A Buy of a running auction before its expiry, paying the starting price,
/// goes through (unless another caller's operation is in flight): the price is
/// locked and the asset's transfer is asked for. Once the expiry has come, a
/// Buy fails with `Expired` and its payment goes back.
pub proof fn lemma_buy_until_expiry(
    pre: Auction,
    caller: ActorId,
    now: u64,
    payment: u128,
    post: Auction,
    r: Step,
)
    requires
        handled(pre, caller, Action::Buy, now, payment, post, r),
        !pre.transactions@.contains_key(caller),
        pre.status == Status::IsRunning,
    ensures
        now < pre.expires_at && payment == pre.starting_price && !pre.busy_for(caller) ==> {
            &&& r matches Step::Call(RegistryCall::Transfer { to, .. }) && to == caller
            &&& post.status is Purchased
        },
        now >= pre.expires_at ==> r == (Step::Reply { result: Err(Error::Expired), refund: payment }),
{
    let e = if now >= pre.started_at { (now - pre.started_at) / 1000 } else { 0int };
    assert(e >= 0) by {
        if now >= pre.started_at {
            vstd::arithmetic::div_mod::lemma_div_pos_is_pos((now - pre.started_at) as int, 1000);
        }
    }
    assert(pre.discount_rate * e >= 0) by (nonlinear_arith)
        requires e >= 0, pre.discount_rate >= 0;
    assert(price_at(now, pre.started_at, pre.starting_price, pre.discount_rate) <= pre.starting_price);
}

/// Two identical requests from one caller, the second before the first's
/// registry call has replied, share one transaction id, and the second
/// issues no registry call of its own.
pub proof fn lemma_retry_while_pending(
    a0: Auction,
    caller: ActorId,
    action: Action,
    now1: u64,
    payment1: u128,
    a1: Auction,
    r1: Step,
    now2: u64,
    payment2: u128,
    a2: Auction,
    r2: Step,
)
    requires
        handled(a0, caller, action, now1, payment1, a1, r1),
        r1 is Call,
        handled(a1, caller, action, now2, payment2, a2, r2),
    ensures
        r2 == (Step::InProgress { transaction_id: a1.transactions@[caller].id, refund: payment2 }),
        a2 == checked_at(a1, now2),
        action == Action::Buy && !a0.transactions@.contains_key(caller) ==> (r1 matches Step::Call(RegistryCall::Transfer { transaction_id, .. })
            && transaction_id == a1.transactions@[caller].id),
{
    lemma_call_awaits_reply(a0, caller, action, now1, payment1, a1, r1);
    let a = checked_at(a0, now1);
    if action == Action::Buy && !a.transactions@.contains_key(caller) {
        let mid = choose|mid: Auction|
            {
                &&& mid.transactions@ == a.transactions@.insert(
                    caller,
                    crate::ledger::Transaction {
                        id: a.transactions.next_id_spec(),
                        action,
                        stage: crate::ledger::initial_stage(action),
                        awaiting_reply: false,
                        refund_due: payment1,
                    },
                )
                &&& mid.transactions.next_id_spec() == crate::ledger::following_id(
                    a.transactions.next_id_spec(),
                )
                &&& crate::auction::same_terms(a, mid)
                &&& mid.status == a.status
                &&& crate::auction::resumed(mid, caller, now1, a1, r1)
            };
        assert(mid.transactions@[caller].stage == TransactionStage::BuyStage(BuyStage::JustReceived));
    }
}

/// While a caller's Buy awaits a registry reply, any other kind of request
/// from that caller is refused with `PreviousTransactionPending` and changes
/// nothing but the expiry check.
pub proof fn lemma_other_request_while_buying(
    a0: Auction,
    caller: ActorId,
    now1: u64,
    payment1: u128,
    a1: Auction,
    r1: Step,
    other: Action,
    now2: u64,
    payment2: u128,
    a2: Auction,
    r2: Step,
)
    requires
        handled(a0, caller, Action::Buy, now1, payment1, a1, r1),
        r1 is Call,
        other != Action::Buy,
        handled(a1, caller, other, now2, payment2, a2, r2),
    ensures
        r2 == (Step::Reply { result: Err(Error::PreviousTransactionPending), refund: payment2 }),
        a2 == checked_at(a1, now2),
{
    lemma_call_awaits_reply(a0, caller, Action::Buy, now1, payment1, a1, r1);
}

/// A ForceStop by anyone but the owner fails with `NotOwner` and leaves the
/// status as the expiry check left it.
pub proof fn lemma_stop_by_stranger(
    pre: Auction,
    caller: ActorId,
    now: u64,
    payment: u128,
    post: Auction,
    r: Step,
)
    requires
        handled(pre, caller, Action::ForceStop, now, payment, post, r),
        caller != pre.owner,
        !pre.transactions@.contains_key(caller),
    ensures
        r == (Step::Reply { result: Err(Error::NotOwner), refund: payment }),
        post.status == status_at(pre.status, now, pre.expires_at),
        !(pre.status is IsRunning && now >= pre.expires_at) ==> post.status == pre.status,
{
}

/// A StartAuction resumed at the checkpoint where the owner was recorded
/// moves straight to the transfer: it does not ask for approval again.
pub proof fn lemma_resume_after_owner_recorded(
    pre: Auction,
    caller: ActorId,
    config: CreateConfig,
    now: u64,
    payment: u128,
    post: Auction,
    r: Step,
)
    requires
        pre.transactions@.contains_key(caller),
        pre.transactions@[caller].action == Action::Create(config),
        pre.transactions@[caller].stage
            == TransactionStage::StartAuctionStage(StartAuctionStage::OwnerRecorded),
        !pre.transactions@[caller].awaiting_reply,
        handled(pre, caller, Action::Create(config), now, payment, post, r),
    ensures
        r == Step::Call(
            RegistryCall::Transfer {
                contract_id: pre.nft.contract_id,
                token_id: pre.nft.token_id,
                to: pre.program_id,
                transaction_id: pre.transactions@[caller].id,
            },
        ),
        !(r matches Step::Call(RegistryCall::CheckApproval { .. })),
        post.status == Status::IsRunning,
{
}

/// A Buy's payment is fully accounted for: the price plus the refund never
/// exceed it, and what is kept beyond the price is less than the dust
/// threshold.
pub proof fn lemma_payment_accounted(payment: u128, price: int)
    requires
        0 <= price <= payment,
    ensures
        price + refund_of(payment, price) <= payment,
        payment - price - refund_of(payment, price) < DUST_THRESHOLD,
{
}

/// While another caller's operation (a ForceStop, a StartAuction, a Buy) is
/// in flight, a Buy is refused, gets its whole payment back, and leaves the
/// status as the expiry check left it: no two operations interleave.
pub proof fn lemma_buy_refused_while_busy(
    pre: Auction,
    caller: ActorId,
    now: u64,
    payment: u128,
    post: Auction,
    r: Step,
)
    requires
        handled(pre, caller, Action::Buy, now, payment, post, r),
        pre.busy_for(caller),
        !pre.transactions@.contains_key(caller),
    ensures
        r matches Step::Reply { result: Err(_), refund } && refund == payment,
        post.status == status_at(pre.status, now, pre.expires_at),
{
    let a = checked_at(pre, now);
    let k = choose|k: ActorId| k != caller && #[trigger] pre.transactions@.contains_key(k);
    let mid = choose|mid: Auction|
        {
            &&& mid.transactions@ == a.transactions@.insert(
                caller,
                crate::ledger::Transaction {
                    id: a.transactions.next_id_spec(),
                    action: Action::Buy,
                    stage: crate::ledger::initial_stage(Action::Buy),
                    awaiting_reply: false,
                    refund_due: payment,
                },
            )
            &&& mid.transactions.next_id_spec() == crate::ledger::following_id(
                a.transactions.next_id_spec(),
            )
            &&& crate::auction::same_terms(a, mid)
            &&& mid.status == a.status
            &&& crate::auction::resumed(mid, caller, now, post, r)
        };
    assert(mid.transactions@.contains_key(k));
    assert(mid.busy_for(caller));
}

} // verus!

use vstd::prelude::*;
use crate::types::{Action, ActorId, Error};

verus! {

/// Checkpoints of the StartAuction saga: the last step that completed.
#[derive(Clone, Copy, Debug, PartialEq, Eq, Structural)]
pub enum StartAuctionStage {
    JustReceived,
    /// The registry confirmed that the auction may move the asset.
    ApprovalConfirmed,
    /// The asset's owner was read from the registry and recorded.
    OwnerRecorded,
}

/// Checkpoints of the Buy saga.
#[derive(Clone, Copy, Debug, PartialEq, Eq, Structural)]
pub enum BuyStage {
    JustReceived,
    /// The price was snapshotted and the auction marked as purchased.
    PriceLocked { price: u128 },
    /// The registry moved the asset to the buyer; `seller` is still unpaid.
    TransferConfirmed { price: u128, seller: ActorId },
}

/// The checkpoint of one in-flight saga, tagged by the kind of operation.
#[derive(Clone, Copy, Debug, PartialEq, Eq, Structural)]
pub enum TransactionStage {
    StartAuctionStage(StartAuctionStage),
    BuyStage(BuyStage),
    /// ForceStop has a single registry call and no intermediate checkpoint.
    ForceStopStage,
}

/// A ledger entry: the operation a caller has in flight.
#[derive(Clone, Copy, Debug, PartialEq, Eq, Structural)]
pub struct Transaction {
    pub id: u64,
    pub action: Action,
    pub stage: TransactionStage,
    /// A registry call of this saga was issued and its reply has not come.
    pub awaiting_reply: bool,
    /// What the request now driving the saga gets back when it is answered:
    /// its whole payment, but for the surplus of a Buy once the price is
    /// locked.
    pub refund_due: u128,
}

/// The stage a fresh saga for `action` starts in.
pub open spec fn initial_stage(action: Action) -> TransactionStage {
    match action {
        Action::Buy => TransactionStage::BuyStage(BuyStage::JustReceived),
        Action::Create(_) => TransactionStage::StartAuctionStage(StartAuctionStage::JustReceived),
        Action::ForceStop => TransactionStage::ForceStopStage,
    }
}

/// The stage belongs to the saga of the action.
pub open spec fn stage_fits(action: Action, stage: TransactionStage) -> bool {
    match action {
        Action::Buy => stage is BuyStage,
        Action::Create(_) => stage is StartAuctionStage,
        Action::ForceStop => stage is ForceStopStage,
    }
}

/// Per-caller record of in-flight operations, plus the counter that issues
/// transaction ids.
pub struct TransactionLedger {
    entries: Vec<(ActorId, Transaction)>,
    next_id: u64,
}

impl View for TransactionLedger {
    type V = Map<ActorId, Transaction>;

    /// The entry of each caller that has an operation in flight.
    closed spec fn view(&self) -> Map<ActorId, Transaction> {
        Map::new(
            |k: ActorId| exists|i: int| 0 <= i < self.entries@.len() && self.entries@[i].0 == k,
            |k: ActorId|
                self.entries@[choose|i: int| 0 <= i < self.entries@.len() && self.entries@[i].0 == k].1,
        )
    }
}

/// The id that follows `id`, wrapping on overflow.
pub open spec fn following_id(id: u64) -> u64 {
    if id == u64::MAX { 0 } else { (id + 1) as u64 }
}

impl TransactionLedger {
    /// The id that the next fresh transaction will get.
    pub closed spec fn next_id_spec(&self) -> u64 {
        self.next_id
    }

    /// At most one entry per caller, and each entry's stage fits its action.
    pub closed spec fn wf(&self) -> bool {
        &&& forall|i: int, j: int|
            0 <= i < j < self.entries@.len() ==> self.entries@[i].0 != self.entries@[j].0
        &&& forall|i: int|
            0 <= i < self.entries@.len() ==> stage_fits(
                #[trigger] self.entries@[i].1.action,
                self.entries@[i].1.stage,
            )
    }

    proof fn lemma_view_at(&self, i: int)
        requires
            self.wf(),
            0 <= i < self.entries@.len(),
        ensures
            self@.contains_key(self.entries@[i].0),
            self@[self.entries@[i].0] == self.entries@[i].1,
    {
        let k = self.entries@[i].0;
        assert(exists|j: int| 0 <= j < self.entries@.len() && self.entries@[j].0 == k);
        let j = choose|j: int| 0 <= j < self.entries@.len() && self.entries@[j].0 == k;
        assert(i == j);
    }

    /// Every entry of a well-formed ledger is at a stage of its own action.
    pub proof fn lemma_stages_fit(&self)
        requires
            self.wf(),
        ensures
            forall|k: ActorId| #[trigger] self@.contains_key(k) ==> stage_fits(self@[k].action, self@[k].stage),
    {
        assert forall|k: ActorId| #[trigger] self@.contains_key(k) implies stage_fits(
            self@[k].action,
            self@[k].stage,
        ) by {
            let i = choose|i: int| 0 <= i < self.entries@.len() && self.entries@[i].0 == k;
            self.lemma_view_at(i);
        }
    }

    /// An empty ledger whose first transaction id is zero.
    pub fn new() -> (r: Self)
        ensures
            r.wf(),
            r@ == Map::<ActorId, Transaction>::empty(),
            r.next_id_spec() == 0,
    {
        let r = TransactionLedger { entries: Vec::new(), next_id: 0 };
        assert(r@ =~= Map::<ActorId, Transaction>::empty());
        r
    }

    /// The id that the next fresh transaction will get.
    pub fn next_id(&self) -> (r: u64)
        ensures
            r == self.next_id_spec(),
    {
        self.next_id
    }

    fn find(&self, caller: ActorId) -> (r: Option<usize>)
        requires
            self.wf(),
        ensures
            r is None <==> !self@.contains_key(caller),
            r matches Some(i) ==> i < self.entries@.len() && self.entries@[i as int].0 == caller
                && self@[caller] == self.entries@[i as int].1,
    {
        let mut i: usize = 0;
        while i < self.entries.len()
            invariant
                self.wf(),
                i <= self.entries@.len(),
                forall|j: int| 0 <= j < i ==> self.entries@[j].0 != caller,
            decreases self.entries@.len() - i,
        {
            if self.entries[i].0 == caller {
                proof {
                    self.lemma_view_at(i as int);
                }
                return Some(i);
            }
            i += 1;
        }
        None
    }

    /// The operation `caller` has in flight, if any.
    pub fn get(&self, caller: ActorId) -> (r: Option<Transaction>)
        requires
            self.wf(),
        ensures
            r is None <==> !self@.contains_key(caller),
            r matches Some(t) ==> t == self@[caller],
    {
        match self.find(caller) {
            Some(i) => Some(self.entries[i].1),
            None => None,
        }
    }

    /// Obtains the transaction id for `caller`'s request.
    ///
    /// A caller with an entry for the same action gets that entry's id back
    /// (a retry resumes the same saga); a caller with an entry for another
    /// action is refused. Otherwise a fresh entry is stored at the initial
    /// stage with the next id, holding `payment` as due back, and the counter
    /// moves on, wrapping.
    pub fn begin(&mut self, caller: ActorId, action: Action, payment: u128) -> (r: Result<u64, Error>)
        requires
            old(self).wf(),
        ensures
            final(self).wf(),
            old(self)@.contains_key(caller) && old(self)@[caller].action == action ==> {
                &&& r == Ok::<u64, Error>(old(self)@[caller].id)
                &&& *final(self) == *old(self)
            },
            old(self)@.contains_key(caller) && old(self)@[caller].action != action ==> {
                &&& r == Err::<u64, Error>(Error::PreviousTransactionPending)
                &&& *final(self) == *old(self)
            },
            !old(self)@.contains_key(caller) ==> {
                &&& r == Ok::<u64, Error>(old(self).next_id_spec())
                &&& final(self)@ == old(self)@.insert(
                    caller,
                    Transaction {
                        id: old(self).next_id_spec(),
                        action,
                        stage: initial_stage(action),
                        awaiting_reply: false,
                        refund_due: payment,
                    },
                )
                &&& final(self).next_id_spec() == following_id(old(self).next_id_spec())
            },
    {
        match self.find(caller) {
            Some(i) => {
                let t = self.entries[i].1;
                if t.action == action {
                    Ok(t.id)
                } else {
                    Err(Error::PreviousTransactionPending)
                }
            },
            None => {
                let id = self.next_id;
                let stage = match action {
                    Action::Buy => TransactionStage::BuyStage(BuyStage::JustReceived),
                    Action::Create(_) => TransactionStage::StartAuctionStage(
                        StartAuctionStage::JustReceived,
                    ),
                    Action::ForceStop => TransactionStage::ForceStopStage,
                };
                let t = Transaction { id, action, stage, awaiting_reply: false, refund_due: payment };
                let ghost old_ledger = *self;
                self.entries.push((caller, t));
                self.next_id = id.wrapping_add(1);
                proof {
                    self.lemma_after_push(old_ledger, caller, t);
                }
                Ok(id)
            },
        }
    }

    proof fn lemma_after_push(&self, old_ledger: Self, caller: ActorId, t: Transaction)
        requires
            old_ledger.wf(),
            !old_ledger@.contains_key(caller),
            stage_fits(t.action, t.stage),
            self.entries@ == old_ledger.entries@.push((caller, t)),
        ensures
            self.wf(),
            self@ == old_ledger@.insert(caller, t),
    {
        let n = old_ledger.entries@.len();
        assert forall|i: int| 0 <= i < n implies old_ledger.entries@[i].0 != caller by {
            old_ledger.lemma_view_at(i);
        }
        assert(self.entries@[n as int] == (caller, t));
        assert(self.wf());
        assert forall|k: ActorId| #[trigger] self@.contains_key(k) == old_ledger@.insert(caller, t).contains_key(k) by {
            if k != caller && self@.contains_key(k) {
                let i = choose|i: int| 0 <= i < self.entries@.len() && self.entries@[i].0 == k;
                assert(old_ledger.entries@[i].0 == k);
            }
            if k != caller && old_ledger@.contains_key(k) {
                let i = choose|i: int| 0 <= i < old_ledger.entries@.len() && old_ledger.entries@[i].0 == k;
                assert(self.entries@[i].0 == k);
            }
            if k == caller {
                assert(self.entries@[n as int].0 == k);
            }
        }
        assert forall|k: ActorId| #[trigger] self@.contains_key(k) implies self@[k] == old_ledger@.insert(caller, t)[k] by {
            let i = choose|i: int| 0 <= i < self.entries@.len() && self.entries@[i].0 == k;
            self.lemma_view_at(i);
            if k != caller {
                assert(i < n);
                old_ledger.lemma_view_at(i);
            }
        }
        assert(self@ =~= old_ledger@.insert(caller, t));
    }

    /// Records a new checkpoint for `caller`'s saga, whether a registry call
    /// is now awaited, and what is due back to the request driving it.
    pub fn advance(&mut self, caller: ActorId, stage: TransactionStage, awaiting_reply: bool, refund_due: u128)
        requires
            old(self).wf(),
            old(self)@.contains_key(caller),
            stage_fits(old(self)@[caller].action, stage),
        ensures
            final(self).wf(),
            final(self)@ == old(self)@.insert(
                caller,
                Transaction { stage, awaiting_reply, refund_due, ..old(self)@[caller] },
            ),
            final(self).next_id_spec() == old(self).next_id_spec(),
    {
        let i = self.find(caller).unwrap();
        let t = self.entries[i].1;
        let nt = Transaction { stage, awaiting_reply, refund_due, ..t };
        let ghost old_ledger = *self;
        self.entries.set(i, (caller, nt));
        proof {
            self.lemma_after_set(old_ledger, i as int, caller, nt);
        }
    }

    proof fn lemma_after_set(&self, old_ledger: Self, i: int, caller: ActorId, t: Transaction)
        requires
            old_ledger.wf(),
            0 <= i < old_ledger.entries@.len(),
            old_ledger.entries@[i].0 == caller,
            stage_fits(t.action, t.stage),
            self.entries@ == old_ledger.entries@.update(i, (caller, t)),
        ensures
            self.wf(),
            self@ == old_ledger@.insert(caller, t),
    {
        assert(self.wf());
        assert forall|k: ActorId| #[trigger] self@.contains_key(k) == old_ledger@.insert(caller, t).contains_key(k) by {
            if self@.contains_key(k) {
                let j = choose|j: int| 0 <= j < self.entries@.len() && self.entries@[j].0 == k;
                if j != i {
                    assert(old_ledger.entries@[j].0 == k);
                }
            }
            if old_ledger@.contains_key(k) {
                let j = choose|j: int| 0 <= j < old_ledger.entries@.len() && old_ledger.entries@[j].0 == k;
                assert(self.entries@[j].0 == k);
            }
            if k == caller {
                assert(self.entries@[i].0 == k);
            }
        }
        assert forall|k: ActorId| #[trigger] self@.contains_key(k) implies self@[k] == old_ledger@.insert(caller, t)[k] by {
            let j = choose|j: int| 0 <= j < self.entries@.len() && self.entries@[j].0 == k;
            self.lemma_view_at(j);
            if k != caller {
                old_ledger.lemma_view_at(j);
            }
        }
        assert(self@ =~= old_ledger@.insert(caller, t));
    }

    /// Removes `caller`'s entry, if there is one.
    pub fn end(&mut self, caller: ActorId)
        requires
            old(self).wf(),
        ensures
            final(self).wf(),
            final(self)@ == old(self)@.remove(caller),
            final(self).next_id_spec() == old(self).next_id_spec(),
    {
        match self.find(caller) {
            Some(i) => {
                let ghost old_ledger = *self;
                self.entries.remove(i);
                proof {
                    self.lemma_after_remove(old_ledger, i as int, caller);
                }
            },
            None => {
                assert(self@ =~= self@.remove(caller));
            },
        }
    }

    proof fn lemma_after_remove(&self, old_ledger: Self, i: int, caller: ActorId)
        requires
            old_ledger.wf(),
            0 <= i < old_ledger.entries@.len(),
            old_ledger.entries@[i].0 == caller,
            self.entries@ == old_ledger.entries@.remove(i),
        ensures
            self.wf(),
            self@ == old_ledger@.remove(caller),
    {
        let o = old_ledger.entries@;
        let s = self.entries@;
        assert forall|j: int| 0 <= j < s.len() implies s[j] == o[if j < i { j } else { j + 1 }] by {}
        assert forall|a: int, b: int| 0 <= a < b < s.len() implies s[a].0 != s[b].0 by {
            let a2 = if a < i { a } else { a + 1 };
            let b2 = if b < i { b } else { b + 1 };
            assert(s[a] == o[a2] && s[b] == o[b2]);
        }
        assert forall|j: int| 0 <= j < s.len() implies stage_fits(#[trigger] s[j].1.action, s[j].1.stage) by {
            let j2 = if j < i { j } else { j + 1 };
            assert(s[j] == o[j2]);
        }
        assert(self.wf());
        assert forall|k: ActorId| #[trigger] self@.contains_key(k) == old_ledger@.remove(caller).contains_key(k) by {
            if self@.contains_key(k) {
                let j = choose|j: int| 0 <= j < s.len() && s[j].0 == k;
                let j2 = if j < i { j } else { j + 1 };
                assert(o[j2].0 == k);
                assert(j2 != i);
            }
            if k != caller && old_ledger@.contains_key(k) {
                let j = choose|j: int| 0 <= j < o.len() && o[j].0 == k;
                assert(j != i);
                let j1 = if j < i { j } else { j - 1 };
                assert(s[j1].0 == k);
            }
        }
        assert forall|k: ActorId| #[trigger] self@.contains_key(k) implies self@[k] == old_ledger@.remove(caller)[k] by {
            let j = choose|j: int| 0 <= j < s.len() && s[j].0 == k;
            self.lemma_view_at(j);
            let j2 = if j < i { j } else { j + 1 };
            assert(o[j2] == s[j]);
            old_ledger.lemma_view_at(j2);
        }
        assert(self@ =~= old_ledger@.remove(caller));
    }
}

impl TransactionLedger {
    /// Every entry, one per caller.
    pub fn entries(&self) -> (r: Vec<(ActorId, Transaction)>)
        requires
            self.wf(),
        ensures
            forall|i: int, j: int| 0 <= i < j < r@.len() ==> r@[i].0 != r@[j].0,
            forall|i: int| 0 <= i < r@.len() ==> {
                &&& self@.contains_key(#[trigger] r@[i].0)
                &&& self@[r@[i].0] == r@[i].1
            },
            forall|k: ActorId| #[trigger] self@.contains_key(k)
                ==> exists|i: int| 0 <= i < r@.len() && r@[i].0 == k,
    {
        let mut r: Vec<(ActorId, Transaction)> = Vec::new();
        let mut i: usize = 0;
        while i < self.entries.len()
            invariant
                self.wf(),
                i <= self.entries@.len(),
                r@ == self.entries@.subrange(0, i as int),
            decreases self.entries@.len() - i,
        {
            r.push(self.entries[i]);
            i += 1;
            assert(r@ =~= self.entries@.subrange(0, i as int));
        }
        assert(r@ =~= self.entries@);
        assert forall|i: int| 0 <= i < r@.len() implies {
            &&& self@.contains_key(#[trigger] r@[i].0)
            &&& self@[r@[i].0] == r@[i].1
        } by {
            self.lemma_view_at(i);
        }
        r
    }
}

impl TransactionLedger {
    /// Forgets every awaited reply, keeping each entry at its checkpoint.
    pub fn abandon_awaited_replies(&mut self)
        requires
            old(self).wf(),
        ensures
            final(self).wf(),
            final(self)@.dom() == old(self)@.dom(),
            forall|k: ActorId| #[trigger] final(self)@.contains_key(k)
                ==> final(self)@[k] == (Transaction { awaiting_reply: false, ..old(self)@[k] }),
            final(self).next_id_spec() == old(self).next_id_spec(),
    {
        let ghost o = self.entries@;
        let mut i: usize = 0;
        while i < self.entries.len()
            invariant
                i <= self.entries@.len(),
                self.entries@.len() == o.len(),
                self.next_id == old(self).next_id,
                o == old(self).entries@,
                forall|j: int| 0 <= j < o.len() ==> #[trigger] self.entries@[j].0 == o[j].0,
                forall|j: int| 0 <= j < i ==> #[trigger] self.entries@[j].1
                    == (Transaction { awaiting_reply: false, ..o[j].1 }),
                forall|j: int| i <= j < o.len() ==> #[trigger] self.entries@[j].1 == o[j].1,
            decreases o.len() - i,
        {
            let (k, t) = self.entries[i];
            self.entries.set(i, (k, Transaction { awaiting_reply: false, ..t }));
            i += 1;
        }
        assert(self.wf()) by {
            assert forall|j: int| 0 <= j < o.len() implies stage_fits(
                #[trigger] self.entries@[j].1.action,
                self.entries@[j].1.stage,
            ) by {
                assert(stage_fits(o[j].1.action, o[j].1.stage));
            }
        }
        assert forall|k: ActorId| #[trigger] self@.contains_key(k) == old(self)@.contains_key(k) by {
            if self@.contains_key(k) {
                let j = choose|j: int| 0 <= j < o.len() && self.entries@[j].0 == k;
                assert(o[j].0 == k);
            }
            if old(self)@.contains_key(k) {
                let j = choose|j: int| 0 <= j < o.len() && o[j].0 == k;
                assert(self.entries@[j].0 == k);
            }
        }
        assert(self@.dom() =~= old(self)@.dom());
        assert forall|k: ActorId| #[trigger] self@.contains_key(k)
            implies self@[k] == (Transaction { awaiting_reply: false, ..old(self)@[k] }) by {
            let j = choose|j: int| 0 <= j < o.len() && self.entries@[j].0 == k;
            self.lemma_view_at(j);
            old(self).lemma_view_at(j);
        }
    }
}

impl TransactionLedger {
    /// Whether any caller other than `caller` has an operation in flight.
    pub fn has_other(&self, caller: ActorId) -> (r: bool)
        requires
            self.wf(),
        ensures
            r == (exists|k: ActorId| k != caller && #[trigger] self@.contains_key(k)),
    {
        let mut i: usize = 0;
        while i < self.entries.len()
            invariant
                self.wf(),
                i <= self.entries@.len(),
                forall|j: int| 0 <= j < i ==> self.entries@[j].0 == caller,
            decreases self.entries@.len() - i,
        {
            if self.entries[i].0 != caller {
                proof {
                    self.lemma_view_at(i as int);
                }
                return true;
            }
            i += 1;
        }
        assert forall|k: ActorId| k != caller implies !#[trigger] self@.contains_key(k) by {
            if self@.contains_key(k) {
                let j = choose|j: int| 0 <= j < self.entries@.len() && self.entries@[j].0 == k;
            }
        }
        false
    }
}

} // verus!

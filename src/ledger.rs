//! The ledger: each sender's append-only history of payment records.
use vstd::prelude::*;

use crate::model::{after_payment, history_in};
use crate::types::{AccountId, Balance, CallContext, PaymentRecord, PaymentRecorded};

verus! {

/// The records of one sender.
struct HistoryEntry {
    owner: AccountId,
    records: Vec<PaymentRecord>,
}

/// The ledger of claimed payments, keyed by the identity that made them.
///
/// Each identity that has recorded at least one payment has one entry; an
/// identity without an entry has the empty history.
pub struct PaymentRecorder {
    payment_history: Vec<HistoryEntry>,
}

impl View for PaymentRecorder {
    type V = Map<AccountId, Seq<PaymentRecord>>;

    /// Each identity that has an entry, mapped to its records.
    closed spec fn view(&self) -> Map<AccountId, Seq<PaymentRecord>> {
        Map::new(
            |u: AccountId| self.has_entry(u),
            |u: AccountId| self.payment_history@[self.entry_of(u)].records@,
        )
    }
}

impl PaymentRecorder {
    /// Whether some entry belongs to `u`.
    spec fn has_entry(&self, u: AccountId) -> bool {
        exists|i: int| 0 <= i < self.payment_history@.len() && #[trigger] self.payment_history@[i].owner == u
    }

    /// The position of an entry that belongs to `u`, where there is one.
    spec fn entry_of(&self, u: AccountId) -> int {
        choose|i: int| 0 <= i < self.payment_history@.len() && #[trigger] self.payment_history@[i].owner == u
    }

    /// No two entries belong to the same identity.
    pub closed spec fn wf(&self) -> bool {
        forall|i: int, j: int|
            0 <= i < j < self.payment_history@.len() ==> #[trigger] self.payment_history@[i].owner
                != #[trigger] self.payment_history@[j].owner
    }

    /// The history of `user`: the records of the payments it made, in call
    /// order; empty for an identity that made none.
    pub open spec fn history(&self, user: AccountId) -> Seq<PaymentRecord> {
        history_in(self@, user)
    }

    /// The view holds, for the owner of each entry, that entry's records.
    proof fn lemma_view_at(&self, i: int)
        requires
            self.wf(),
            0 <= i < self.payment_history@.len(),
        ensures
            self@.contains_key(self.payment_history@[i].owner),
            self@[self.payment_history@[i].owner] == self.payment_history@[i].records@,
    {
        let u = self.payment_history@[i].owner;
        assert(self.has_entry(u));
        let j = self.entry_of(u);
        assert(self.payment_history@[j].owner == u);
        if i < j {
            assert(self.payment_history@[i].owner != self.payment_history@[j].owner);
        } else if j < i {
            assert(self.payment_history@[j].owner != self.payment_history@[i].owner);
        }
    }

    /// An identity that owns no entry is outside the view.
    proof fn lemma_view_absent(&self, u: AccountId)
        requires
            forall|i: int| 0 <= i < self.payment_history@.len() ==> #[trigger] self.payment_history@[i].owner != u,
        ensures
            !self@.contains_key(u),
    {
    }

    /// A ledger in which every history is empty.
    pub fn new() -> (r: PaymentRecorder)
        ensures
            r.wf(),
            r@ == Map::<AccountId, Seq<PaymentRecord>>::empty(),
    {
        let r = PaymentRecorder { payment_history: Vec::new() };
        assert(r@ =~= Map::<AccountId, Seq<PaymentRecord>>::empty());
        r
    }

    /// The position of the entry of `user`, if it has one.
    fn find_entry(&self, user: &AccountId) -> (r: Option<usize>)
        ensures
            match r {
                Some(i) => i < self.payment_history@.len() && self.payment_history@[i as int].owner
                    == *user,
                None => forall|i: int|
                    0 <= i < self.payment_history@.len() ==> #[trigger] self.payment_history@[i].owner
                        != *user,
            },
    {
        let mut i: usize = 0;
        while i < self.payment_history.len()
            invariant
                0 <= i <= self.payment_history@.len(),
                forall|k: int| 0 <= k < i ==> #[trigger] self.payment_history@[k].owner != *user,
            decreases self.payment_history@.len() - i,
        {
            if self.payment_history[i].owner == *user {
                return Some(i);
            }
            i = i + 1;
        }
        None
    }

    /// Records that the caller of `ctx` paid `amount` to `recipient`, at the
    /// time of `ctx`, and returns the notification of it.
    ///
    /// The record is appended to the caller's history; every other history,
    /// the recipient's among them, is left as it was.
    pub fn record_payment(&mut self, ctx: CallContext, recipient: AccountId, amount: Balance) -> (e:
        PaymentRecorded)
        requires
            old(self).wf(),
        ensures
            final(self).wf(),
            e == (PaymentRecorded {
                sender: ctx.caller,
                recipient,
                amount,
                timestamp: ctx.timestamp,
            }),
            final(self)@ == after_payment(old(self)@, e),
            final(self).history(ctx.caller) == old(self).history(ctx.caller).push(e.spec_record()),
            forall|u: AccountId|
                u != ctx.caller ==> #[trigger] final(self).history(u) == old(self).history(u),
    {
        let sender = ctx.caller;
        let timestamp = ctx.timestamp;
        let record = PaymentRecord { recipient, amount, timestamp };
        let e = PaymentRecorded { sender, recipient, amount, timestamp };
        let ghost before = *self;
        let ghost target = after_payment(before@, e);
        match self.find_entry(&sender) {
            Some(i) => {
                let mut entry = self.payment_history.remove(i);
                entry.records.push(record);
                self.payment_history.insert(i, entry);
                assert(self.payment_history@ =~= before.payment_history@.update(
                    i as int,
                    self.payment_history@[i as int],
                ));
                proof {
                    before.lemma_view_at(i as int);
                    assert forall|k: int| 0 <= k < before.payment_history@.len() implies self.payment_history@[k].owner == #[trigger] before.payment_history@[k].owner by {
                    }
                    assert forall|u: AccountId|
                        #![trigger self@.contains_key(u)]
                        #![trigger target.contains_key(u)]
                        self@.contains_key(u) == target.contains_key(u) && (self@.contains_key(u)
                            ==> self@[u] == target[u]) by {
                        if self.has_entry(u) {
                            let j = self.entry_of(u);
                            self.lemma_view_at(j);
                            if j != i {
                                before.lemma_view_at(j);
                            }
                        } else {
                            self.lemma_view_absent(u);
                            before.lemma_view_absent(u);
                        }
                    }
                    assert(self@ =~= target);
                }
            },
            None => {
                let mut records: Vec<PaymentRecord> = Vec::new();
                records.push(record);
                self.payment_history.push(HistoryEntry { owner: sender, records });
                proof {
                    before.lemma_view_absent(sender);
                    let n = before.payment_history@.len() as int;
                    assert forall|k: int| 0 <= k < n implies self.payment_history@[k].owner == #[trigger] before.payment_history@[k].owner by {
                    }
                    assert(self.payment_history@[n].owner == sender);
                    assert(self.payment_history@[n].records@ =~= Seq::<PaymentRecord>::empty().push(
                        record,
                    ));
                    assert forall|u: AccountId|
                        #![trigger self@.contains_key(u)]
                        #![trigger target.contains_key(u)]
                        self@.contains_key(u) == target.contains_key(u) && (self@.contains_key(u)
                            ==> self@[u] == target[u]) by {
                        if self.has_entry(u) {
                            let j = self.entry_of(u);
                            self.lemma_view_at(j);
                            if j != n {
                                before.lemma_view_at(j);
                            }
                        } else {
                            self.lemma_view_absent(u);
                            before.lemma_view_absent(u);
                        }
                    }
                    assert(self@ =~= target);
                }
            },
        }
        e
    }

    /// The history of `user`, in call order; empty where `user` has recorded
    /// nothing. Anyone may read any history.
    pub fn get_payment_history(&self, user: AccountId) -> (r: Vec<PaymentRecord>)
        requires
            self.wf(),
        ensures
            r@ == self.history(user),
    {
        match self.find_entry(&user) {
            Some(i) => {
                proof {
                    self.lemma_view_at(i as int);
                }
                let r = self.payment_history[i].records.clone();
                assert(r@ =~= self.payment_history@[i as int].records@);
                r
            },
            None => {
                proof {
                    self.lemma_view_absent(user);
                }
                let r: Vec<PaymentRecord> = Vec::new();
                assert(r@ =~= Seq::<PaymentRecord>::empty());
                r
            },
        }
    }

    /// The history of the caller of `ctx`: the same as
    /// `get_payment_history` of that caller.
    pub fn get_my_payment_history(&self, ctx: CallContext) -> (r: Vec<PaymentRecord>)
        requires
            self.wf(),
        ensures
            r@ == self.history(ctx.caller),
    {
        let caller = ctx.caller;
        self.get_payment_history(caller)
    }
}

impl Default for PaymentRecorder {
    /// The empty ledger, as `new` makes it.
    fn default() -> (r: PaymentRecorder)
        ensures
            r.wf(),
            r@ == Map::<AccountId, Seq<PaymentRecord>>::empty(),
    {
        PaymentRecorder::new()
    }
}

} // verus!

//! The mathematical model of the ledger: a map from each sender to the
//! sequence of records it has made, and the effect of one recorded payment.
use vstd::prelude::*;

use crate::types::{AccountId, PaymentRecord, PaymentRecorded};

verus! {

/// The history of `user` in `m`: what `m` holds for it, and the empty
/// sequence where `m` holds nothing.
pub open spec fn history_in(m: Map<AccountId, Seq<PaymentRecord>>, user: AccountId) -> Seq<
    PaymentRecord,
> {
    if m.contains_key(user) {
        m[user]
    } else {
        Seq::empty()
    }
}

/// The ledger `m` after the payment that `e` announces: the record is
/// appended to the history of its sender, and to no other.
pub open spec fn after_payment(
    m: Map<AccountId, Seq<PaymentRecord>>,
    e: PaymentRecorded,
) -> Map<AccountId, Seq<PaymentRecord>> {
    m.insert(e.sender, history_in(m, e.sender).push(e.spec_record()))
}

/// The ledger that a fresh ledger becomes after the payments of `events`,
/// recorded in that order.
pub open spec fn replay(events: Seq<PaymentRecorded>) -> Map<AccountId, Seq<PaymentRecord>>
    decreases events.len(),
{
    if events.len() == 0 {
        Map::empty()
    } else {
        after_payment(replay(events.drop_last()), events.last())
    }
}

/// The records of the payments in `events` that `user` made, in call order.
pub open spec fn sent_by(events: Seq<PaymentRecorded>, user: AccountId) -> Seq<PaymentRecord> {
    events.filter_map(
        |e: PaymentRecorded|
            if e.sender == user {
                Some(e.spec_record())
            } else {
                None
            },
    )
}

/// Recording one more payment takes the ledger of the earlier ones to the
/// ledger of all of them.
pub proof fn lemma_replay_push(events: Seq<PaymentRecorded>, e: PaymentRecorded)
    ensures
        replay(events.push(e)) == after_payment(replay(events), e),
{
    assert(events.push(e).drop_last() =~= events);
}

/// A payment made by one identity leaves the history of every other identity
/// as it was, that of its recipient included.
pub proof fn lemma_other_sender_leaves_history(
    m: Map<AccountId, Seq<PaymentRecord>>,
    e: PaymentRecorded,
    user: AccountId,
)
    requires
        e.sender != user,
    ensures
        history_in(after_payment(m, e), user) == history_in(m, user),
{
}

/// After any sequence of recorded payments, the history of an identity is
/// exactly the records of the payments that it made, in call order: nothing
/// reordered, lost or repeated.
pub proof fn lemma_history_is_sent_by(events: Seq<PaymentRecorded>, user: AccountId)
    ensures
        history_in(replay(events), user) == sent_by(events, user),
    decreases events.len(),
{
    if events.len() > 0 {
        let rest = events.drop_last();
        let last = events.last();
        lemma_history_is_sent_by(rest, user);
        if last.sender == user {
            assert(sent_by(events, user) =~= sent_by(rest, user).push(last.spec_record()));
        } else {
            assert(sent_by(events, user) =~= sent_by(rest, user));
        }
    }
}

/// An identity that has made no payment has the empty history, however many
/// payments others made, to it or to anyone.
pub proof fn lemma_silent_identity_has_empty_history(events: Seq<PaymentRecorded>, user: AccountId)
    requires
        forall|i: int| 0 <= i < events.len() ==> #[trigger] events[i].sender != user,
    ensures
        history_in(replay(events), user) == Seq::<PaymentRecord>::empty(),
    decreases events.len(),
{
    if events.len() > 0 {
        let rest = events.drop_last();
        assert forall|i: int| 0 <= i < rest.len() implies #[trigger] rest[i].sender != user by {
            assert(rest[i] == events[i]);
        }
        lemma_silent_identity_has_empty_history(rest, user);
        assert(events[events.len() - 1].sender != user);
    }
}

/// Histories are kept by sender: every record in the history of `user` is the
/// record of a payment that `user` itself made. A payment that only names
/// `user` as its recipient never shows there.
pub proof fn lemma_history_holds_own_payments(events: Seq<PaymentRecorded>, user: AccountId)
    ensures
        forall|k: int|
            0 <= k < history_in(replay(events), user).len() ==> exists|j: int|
                0 <= j < events.len() && #[trigger] events[j].sender == user
                    && events[j].spec_record() == #[trigger] history_in(replay(events), user)[k],
    decreases events.len(),
{
    if events.len() > 0 {
        let rest = events.drop_last();
        let last = events.last();
        let n = events.len() - 1;
        lemma_history_holds_own_payments(rest, user);
        let h = history_in(replay(events), user);
        let hr = history_in(replay(rest), user);
        assert forall|k: int| 0 <= k < h.len() implies exists|j: int|
            0 <= j < events.len() && #[trigger] events[j].sender == user
                && events[j].spec_record() == #[trigger] h[k] by {
            if k < hr.len() {
                let j = choose|j: int|
                    0 <= j < rest.len() && #[trigger] rest[j].sender == user
                        && rest[j].spec_record() == #[trigger] hr[k];
                assert(events[j] == rest[j]);
                if last.sender == user {
                    assert(h[k] == hr[k]);
                }
            } else {
                assert(last.sender == user);
                assert(events[n] == last);
            }
        }
    }
}

} // verus!

//! The model of fragment reassembly that the reassembler's contracts are
//! written in, and the laws that hold of it.
//!
//! A pending message is its fragment count and, per fragment index, the
//! payload received so far at that index (if any). The reassembler as a whole
//! is a map from `(client id, message id)` to pending messages.

use vstd::prelude::*;

use crate::events::FragmentRecord;
use crate::MAX_TOTAL_FRAGMENTS;

verus! {

/// A message whose fragments are still arriving.
pub struct PartialMessage {
    /// How many fragments the message was announced with.
    pub total: u16,
    /// The payload received at each fragment index, if any.
    pub slots: Seq<Option<Seq<u8>>>,
}

/// Pending messages, keyed by `(client id, message id)`.
pub type PendingMessages = Map<(u64, u32), PartialMessage>;

/// A fragment count that the protocol accepts: at least one and at most
/// `MAX_TOTAL_FRAGMENTS`.
pub open spec fn valid_total(total: u16) -> bool {
    1 <= total && total <= MAX_TOTAL_FRAGMENTS
}

/// The bytes held in a slot (nothing for an empty slot).
pub open spec fn slot_bytes(slot: Option<Seq<u8>>) -> Seq<u8> {
    match slot {
        Some(bytes) => bytes,
        None => Seq::empty(),
    }
}

/// The payloads of the slots, concatenated in index order.
pub open spec fn joined(slots: Seq<Option<Seq<u8>>>) -> Seq<u8> {
    slots.map_values(|slot: Option<Seq<u8>>| slot_bytes(slot)).flatten()
}

/// The number of slots that hold a payload.
pub open spec fn filled(slots: Seq<Option<Seq<u8>>>) -> nat
    decreases slots.len(),
{
    if slots.len() == 0 {
        0
    } else {
        filled(slots.drop_last()) + if slots.last() is Some {
            1nat
        } else {
            0nat
        }
    }
}

impl PartialMessage {
    /// A message of `total` fragments of which none has arrived.
    pub open spec fn empty(total: u16) -> PartialMessage {
        PartialMessage { total, slots: Seq::new(total as nat, |i: int| None) }
    }

    /// Every fragment has arrived.
    pub open spec fn is_complete(self) -> bool {
        forall|i: int| 0 <= i < self.slots.len() ==> #[trigger] self.slots[i] is Some
    }

    /// What the reassembler keeps of a message: a valid count, one slot per
    /// fragment, and at least one fragment still missing.
    pub open spec fn wf(self) -> bool {
        &&& valid_total(self.total)
        &&& self.slots.len() == self.total
        &&& !self.is_complete()
    }

    /// The message after a fragment arrives at `index`: the first payload
    /// received at an index is kept; a repeated or out-of-range index changes
    /// nothing.
    pub open spec fn place(self, index: u16, payload: Seq<u8>) -> PartialMessage {
        if (index as int) < self.slots.len() && self.slots[index as int] is None {
            PartialMessage { total: self.total, slots: self.slots.update(index as int, Some(payload)) }
        } else {
            self
        }
    }
}

/// Every pending message is well formed.
pub open spec fn all_wf(pending: PendingMessages) -> bool {
    forall|k: (u64, u32)| #[trigger] pending.contains_key(k) ==> pending[k].wf()
}

/// One fragment from `client` arriving at the reassembler: the pending
/// messages afterwards, and the full message if this fragment completed it.
///
/// A fragment with an invalid count, or whose count differs from the one its
/// message was first announced with, changes nothing. Otherwise the fragment
/// is placed into its message (which is created empty if it was not pending);
/// a message that becomes complete leaves the pending set and is returned with
/// its payloads joined in index order.
pub open spec fn ingest_step(pending: PendingMessages, client: u64, fragment: FragmentRecord) -> (
    PendingMessages,
    Option<Seq<u8>>,
) {
    if !valid_total(fragment.total_fragments) {
        (pending, None)
    } else {
        let key = (client, fragment.message_id);
        let current = if pending.contains_key(key) {
            pending[key]
        } else {
            PartialMessage::empty(fragment.total_fragments)
        };
        if current.total != fragment.total_fragments {
            (pending, None)
        } else {
            let next = current.place(fragment.fragment_index, fragment.payload);
            if next.is_complete() {
                (pending.remove(key), Some(joined(next.slots)))
            } else {
                (pending.insert(key, next), None)
            }
        }
    }
}

/// A sequence of fragments from `client` arriving in order: the pending
/// messages afterwards, and what each arrival returned.
pub open spec fn ingest_all(pending: PendingMessages, client: u64, fragments: Seq<FragmentRecord>) -> (
    PendingMessages,
    Seq<Option<Seq<u8>>>,
)
    decreases fragments.len(),
{
    if fragments.len() == 0 {
        (pending, Seq::empty())
    } else {
        let (before, outputs) = ingest_all(pending, client, fragments.drop_last());
        let (after, output) = ingest_step(before, client, fragments.last());
        (after, outputs.push(output))
    }
}

/// No slot is counted twice: at most as many slots are filled as there are.
pub(crate) proof fn lemma_filled_bound(slots: Seq<Option<Seq<u8>>>)
    ensures
        filled(slots) <= slots.len(),
    decreases slots.len(),
{
    if slots.len() > 0 {
        lemma_filled_bound(slots.drop_last());
    }
}

/// All slots are filled exactly when the count of filled slots is the length.
pub(crate) proof fn lemma_filled_complete(slots: Seq<Option<Seq<u8>>>)
    ensures
        (filled(slots) == slots.len()) <==> (forall|i: int|
            0 <= i < slots.len() ==> #[trigger] slots[i] is Some),
    decreases slots.len(),
{
    if slots.len() > 0 {
        let rest = slots.drop_last();
        lemma_filled_complete(rest);
        lemma_filled_bound(rest);
        if filled(slots) == slots.len() {
            assert forall|i: int| 0 <= i < slots.len() implies #[trigger] slots[i] is Some by {
                if i < slots.len() - 1 {
                    assert(rest[i] == slots[i]);
                }
            }
        }
        if forall|i: int| 0 <= i < slots.len() ==> #[trigger] slots[i] is Some {
            assert forall|i: int| 0 <= i < rest.len() implies #[trigger] rest[i] is Some by {
                assert(rest[i] == slots[i]);
            }
        }
    }
}

/// Filling an empty slot adds one to the count of filled slots.
pub(crate) proof fn lemma_filled_place(slots: Seq<Option<Seq<u8>>>, i: int, payload: Seq<u8>)
    requires
        0 <= i < slots.len(),
        slots[i] is None,
    ensures
        filled(slots.update(i, Some(payload))) == filled(slots) + 1,
    decreases slots.len(),
{
    let updated = slots.update(i, Some(payload));
    if i == slots.len() - 1 {
        assert(updated.drop_last() =~= slots.drop_last());
    } else {
        assert(updated.drop_last() =~= slots.drop_last().update(i, Some(payload)));
        lemma_filled_place(slots.drop_last(), i, payload);
    }
}

/// A message with no slot filled counts zero.
pub(crate) proof fn lemma_filled_none(n: nat)
    ensures
        filled(Seq::new(n, |i: int| None::<Seq<u8>>)) == 0,
    decreases n,
{
    if n > 0 {
        assert(Seq::new(n, |i: int| None::<Seq<u8>>).drop_last() =~= Seq::new(
            (n - 1) as nat,
            |i: int| None::<Seq<u8>>,
        ));
        lemma_filled_none((n - 1) as nat);
    }
}

/// An empty message of a valid count is well formed.
pub(crate) proof fn lemma_empty_wf(total: u16)
    requires
        valid_total(total),
    ensures
        PartialMessage::empty(total).wf(),
        filled(PartialMessage::empty(total).slots) == 0,
{
    let m = PartialMessage::empty(total);
    assert(m.slots[0] is None);
    lemma_filled_none(total as nat);
}

/// Law: each arrival keeps every pending message well formed.
pub proof fn law_ingest_keeps_pending_well_formed(
    pending: PendingMessages,
    client: u64,
    fragment: FragmentRecord,
)
    requires
        all_wf(pending),
    ensures
        all_wf(ingest_step(pending, client, fragment).0),
{
    let (after, _) = ingest_step(pending, client, fragment);
    if valid_total(fragment.total_fragments) {
        let key = (client, fragment.message_id);
        if !pending.contains_key(key) {
            lemma_empty_wf(fragment.total_fragments);
        }
        assert forall|k: (u64, u32)| #[trigger] after.contains_key(k) implies after[k].wf() by {
            if k != key {
                assert(pending.contains_key(k));
            }
        }
    }
}

/// Law: a fragment whose count is zero or above `MAX_TOTAL_FRAGMENTS` is
/// refused: it yields nothing and changes nothing.
pub proof fn law_invalid_count_is_refused(pending: PendingMessages, client: u64, fragment: FragmentRecord)
    requires
        !valid_total(fragment.total_fragments),
    ensures
        ingest_step(pending, client, fragment) == (pending, None::<Seq<u8>>),
{
}

/// Law: a fragment whose count differs from the one its pending message was
/// announced with is refused: it yields nothing and changes nothing.
pub proof fn law_count_mismatch_is_refused(pending: PendingMessages, client: u64, fragment: FragmentRecord)
    requires
        pending.contains_key((client, fragment.message_id)),
        pending[(client, fragment.message_id)].total != fragment.total_fragments,
    ensures
        ingest_step(pending, client, fragment) == (pending, None::<Seq<u8>>),
{
}

/// Law: a repeated fragment (its index already received) yields nothing and
/// changes nothing; the payload that arrived first is kept.
pub proof fn law_repeated_fragment_is_ignored(pending: PendingMessages, client: u64, fragment: FragmentRecord)
    requires
        all_wf(pending),
        pending.contains_key((client, fragment.message_id)),
        pending[(client, fragment.message_id)].total == fragment.total_fragments,
        (fragment.fragment_index as int) < fragment.total_fragments,
        pending[(client, fragment.message_id)].slots[fragment.fragment_index as int] is Some,
    ensures
        ingest_step(pending, client, fragment) == (pending, None::<Seq<u8>>),
{
    let key = (client, fragment.message_id);
    assert(pending.insert(key, pending[key]) =~= pending);
}

/// Law: an arrival touches only its own message; every other pending message
/// is left as it was.
pub proof fn law_other_messages_untouched(
    pending: PendingMessages,
    client: u64,
    fragment: FragmentRecord,
    other: (u64, u32),
)
    requires
        other != (client, fragment.message_id),
    ensures
        ingest_step(pending, client, fragment).0.contains_key(other) == pending.contains_key(other),
        pending.contains_key(other) ==> ingest_step(pending, client, fragment).0[other]
            == pending[other],
{
}

/// Law: when an arrival returns a message, that message is no longer pending.
pub proof fn law_completed_message_is_released(pending: PendingMessages, client: u64, fragment: FragmentRecord)
    requires
        ingest_step(pending, client, fragment).1 is Some,
    ensures
        !ingest_step(pending, client, fragment).0.contains_key((client, fragment.message_id)),
{
}

/// The fragments of one message, sent in the order `order` (a list of
/// fragment indices) with `payloads[i]` as the payload of fragment `i`.
pub open spec fn fragments_in_order(message_id: u32, payloads: Seq<Seq<u8>>, order: Seq<u16>) -> Seq<
    FragmentRecord,
> {
    Seq::new(
        order.len(),
        |j: int|
            FragmentRecord {
                message_id,
                fragment_index: order[j],
                total_fragments: payloads.len() as u16,
                payload: payloads[order[j] as int],
            },
    )
}

/// The slots of a message after the fragments `order[0..k]` arrived.
pub open spec fn slots_after(payloads: Seq<Seq<u8>>, order: Seq<u16>, k: int) -> Seq<Option<Seq<u8>>> {
    Seq::new(
        payloads.len(),
        |i: int|
            if order.take(k).contains(i as u16) {
                Some(payloads[i])
            } else {
                None
            },
    )
}

proof fn lemma_prefix_state(
    pending: PendingMessages,
    client: u64,
    message_id: u32,
    payloads: Seq<Seq<u8>>,
    order: Seq<u16>,
    k: int,
)
    requires
        1 <= payloads.len() <= MAX_TOTAL_FRAGMENTS,
        !pending.contains_key((client, message_id)),
        order.len() == payloads.len(),
        order.no_duplicates(),
        forall|j: int| 0 <= j < order.len() ==> (#[trigger] order[j] as int) < payloads.len(),
        0 <= k < order.len(),
    ensures
        ({
            let frags = fragments_in_order(message_id, payloads, order);
            let (p, outs) = ingest_all(pending, client, frags.take(k));
            let m = PartialMessage { total: payloads.len() as u16, slots: slots_after(payloads, order, k) };
            &&& p == (if k == 0 {
                pending
            } else {
                pending.insert((client, message_id), m)
            })
            &&& filled(m.slots) == k
            &&& outs.len() == k
            &&& forall|j: int| 0 <= j < k ==> #[trigger] outs[j] is None
        }),
    decreases k,
{
    let frags = fragments_in_order(message_id, payloads, order);
    let n = payloads.len();
    let key = (client, message_id);
    let total = n as u16;
    if k == 0 {
        assert(frags.take(0) =~= Seq::<FragmentRecord>::empty());
        assert(slots_after(payloads, order, 0) =~= Seq::new(n, |i: int| None::<Seq<u8>>)) by {
            assert(order.take(0) =~= Seq::<u16>::empty());
        }
        lemma_filled_none(n);
    } else {
        lemma_prefix_state(pending, client, message_id, payloads, order, k - 1);
        let (p0, outs0) = ingest_all(pending, client, frags.take(k - 1));
        assert(frags.take(k).drop_last() =~= frags.take(k - 1));
        assert(frags.take(k).last() == frags[k - 1]);
        let f = frags[k - 1];
        let idx = order[k - 1];
        let prev = PartialMessage { total, slots: slots_after(payloads, order, k - 1) };
        let current = if p0.contains_key(key) {
            p0[key]
        } else {
            PartialMessage::empty(total)
        };
        if k == 1 {
            assert(slots_after(payloads, order, 0) =~= PartialMessage::empty(total).slots) by {
                assert(order.take(0) =~= Seq::<u16>::empty());
            }
        }
        assert(current == prev);
        assert(!order.take(k - 1).contains(idx)) by {
            if order.take(k - 1).contains(idx) {
                let j = choose|j: int| 0 <= j < k - 1 && #[trigger] order.take(k - 1)[j] == idx;
                assert(order[j] == order[k - 1]);
            }
        }
        assert(prev.slots[idx as int] is None);
        let next = prev.place(idx, payloads[idx as int]);
        assert(order.take(k) =~= order.take(k - 1).push(idx));
        assert(next.slots =~= slots_after(payloads, order, k)) by {
            assert forall|i: int| 0 <= i < n implies next.slots[i] == slots_after(payloads, order, k)[i] by {
                if i == idx as int {
                    assert(order.take(k).contains(idx)) by {
                        assert(order.take(k)[k - 1] == idx);
                    }
                } else {
                    assert((i as u16) != idx);
                    assert(order.take(k).contains(i as u16) == order.take(k - 1).contains(i as u16))
                        by {
                        if order.take(k).contains(i as u16) {
                            let j = choose|j: int| 0 <= j < k && #[trigger] order.take(k)[j] == i as u16;
                            assert(j != k - 1);
                            assert(order.take(k - 1)[j] == i as u16);
                        }
                        if order.take(k - 1).contains(i as u16) {
                            let j = choose|j: int| 0 <= j < k - 1 && #[trigger] order.take(k - 1)[j] == i as u16;
                            assert(order.take(k)[j] == i as u16);
                        }
                    }
                }
            }
        }
        lemma_filled_place(prev.slots, idx as int, payloads[idx as int]);
        lemma_filled_complete(next.slots);
        assert(!next.is_complete());
        if k == 1 {
            assert(pending.insert(key, next) == ingest_step(p0, client, f).0);
        }
        let (p1, outs1) = ingest_all(pending, client, frags.take(k));
        assert(outs1 == outs0.push(None::<Seq<u8>>));
        assert forall|j: int| 0 <= j < k implies #[trigger] outs1[j] is None by {
            if j < k - 1 {
                assert(outs1[j] == outs0[j]);
            }
        }
    }
}

/// Law: the fragments of a message may arrive in any order. Sending each of
/// the `n` fragments of a message that is not pending exactly once, in any
/// order, yields nothing for the first `n - 1` arrivals, the payloads joined
/// in index order at the last one, and leaves the pending messages as they
/// were before.
pub proof fn law_any_arrival_order_reassembles(
    pending: PendingMessages,
    client: u64,
    message_id: u32,
    payloads: Seq<Seq<u8>>,
    order: Seq<u16>,
)
    requires
        1 <= payloads.len() <= MAX_TOTAL_FRAGMENTS,
        !pending.contains_key((client, message_id)),
        order.len() == payloads.len(),
        order.no_duplicates(),
        forall|j: int| 0 <= j < order.len() ==> (#[trigger] order[j] as int) < payloads.len(),
    ensures
        ({
            let (p, outs) = ingest_all(
                pending,
                client,
                fragments_in_order(message_id, payloads, order),
            );
            &&& p == pending
            &&& outs.len() == payloads.len()
            &&& outs[outs.len() - 1] == Some(payloads.flatten())
            &&& forall|j: int| 0 <= j < outs.len() - 1 ==> #[trigger] outs[j] is None
        }),
{
    let n = payloads.len() as int;
    let frags = fragments_in_order(message_id, payloads, order);
    let key = (client, message_id);
    let total = n as u16;
    assert(frags.take(n) =~= frags);
    lemma_prefix_state(pending, client, message_id, payloads, order, n - 1);
    let (p0, outs0) = ingest_all(pending, client, frags.take(n - 1));
    assert(frags.drop_last() =~= frags.take(n - 1));
    let f = frags.last();
    let idx = order[n - 1];
    let prev = PartialMessage { total, slots: slots_after(payloads, order, n - 1) };
    if n == 1 {
        assert(slots_after(payloads, order, 0) =~= PartialMessage::empty(total).slots) by {
            assert(order.take(0) =~= Seq::<u16>::empty());
        }
    }
    assert(!order.take(n - 1).contains(idx)) by {
        if order.take(n - 1).contains(idx) {
            let j = choose|j: int| 0 <= j < n - 1 && #[trigger] order.take(n - 1)[j] == idx;
            assert(order[j] == order[n - 1]);
        }
    }
    let next = prev.place(idx, payloads[idx as int]);
    lemma_filled_place(prev.slots, idx as int, payloads[idx as int]);
    lemma_filled_complete(next.slots);
    assert(next.is_complete());
    assert forall|i: int| 0 <= i < n implies #[trigger] next.slots[i] == Some(payloads[i]) by {
        assert(next.slots[i] is Some);
        if i != idx as int {
            assert(prev.slots[i] == next.slots[i]);
        }
    }
    assert(next.slots.map_values(|slot: Option<Seq<u8>>| slot_bytes(slot)) =~= payloads);
    if n == 1 {
        assert(p0 == pending);
        assert(pending.remove(key) =~= pending);
    } else {
        assert(pending.insert(key, prev).remove(key) =~= pending);
    }
}

/// A run of single steps from `states[0]`, one per fragment, is the
/// run of `ingest_all` over the fragments taken so far.
proof fn lemma_steps_are_ingest_all(
    states: Seq<PendingMessages>,
    outputs: Seq<Option<Seq<u8>>>,
    client: u64,
    fragments: Seq<FragmentRecord>,
    j: int,
)
    requires
        states.len() == fragments.len() + 1,
        outputs.len() == fragments.len(),
        forall|i: int| 0 <= i < fragments.len() ==> (states[i + 1], outputs[i]) == ingest_step(
            #[trigger] states[i],
            client,
            fragments[i],
        ),
        0 <= j <= fragments.len(),
    ensures
        ingest_all(states[0], client, fragments.take(j)) == (states[j], outputs.take(j)),
    decreases j,
{
    if j == 0 {
        assert(fragments.take(0) =~= Seq::<FragmentRecord>::empty());
        assert(outputs.take(0) =~= Seq::<Option<Seq<u8>>>::empty());
    } else {
        lemma_steps_are_ingest_all(states, outputs, client, fragments, j - 1);
        assert(fragments.take(j).drop_last() =~= fragments.take(j - 1));
        assert(fragments.take(j).last() == fragments[j - 1]);
        let step = ingest_step(states[j - 1], client, fragments[j - 1]);
        assert(step == (states[j], outputs[j - 1]));
        assert(outputs.take(j - 1).push(outputs[j - 1]) =~= outputs.take(j));
    }
}

/// Law: a client's calls of `Reassembler::ingest` with the fragments of one
/// new message, in any order, answer `None` until the last one, which gives
/// the whole message (the payloads joined in index order); the pending
/// messages end as they began. `states` are the reassembler's views before
/// and after each call and `outputs` what each call returned, so that each
/// call is the step that `ingest`'s contract states.
pub proof fn law_ingest_calls_in_any_order(
    states: Seq<PendingMessages>,
    outputs: Seq<Option<Seq<u8>>>,
    client: u64,
    message_id: u32,
    payloads: Seq<Seq<u8>>,
    order: Seq<u16>,
)
    requires
        1 <= payloads.len() <= MAX_TOTAL_FRAGMENTS,
        order.len() == payloads.len(),
        order.no_duplicates(),
        forall|j: int| 0 <= j < order.len() ==> (#[trigger] order[j] as int) < payloads.len(),
        !states[0].contains_key((client, message_id)),
        states.len() == payloads.len() + 1,
        outputs.len() == payloads.len(),
        forall|i: int| 0 <= i < payloads.len() ==> (states[i + 1], outputs[i]) == ingest_step(
            #[trigger] states[i],
            client,
            fragments_in_order(message_id, payloads, order)[i],
        ),
    ensures
        states[payloads.len() as int] == states[0],
        outputs[payloads.len() - 1] == Some(payloads.flatten()),
        forall|j: int| 0 <= j < payloads.len() - 1 ==> #[trigger] outputs[j] is None,
{
    let frags = fragments_in_order(message_id, payloads, order);
    let n = payloads.len() as int;
    lemma_steps_are_ingest_all(states, outputs, client, frags, n);
    assert(frags.take(n) =~= frags);
    assert(outputs.take(n) =~= outputs);
    law_any_arrival_order_reassembles(states[0], client, message_id, payloads, order);
}

} // verus!

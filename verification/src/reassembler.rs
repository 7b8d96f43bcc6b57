//! Reassembly of fragmented network messages.

use std::collections::HashMap;
use std::time::{Duration, Instant};

use vstd::prelude::*;

use crate::clock::{
    duration_between, longer_than, now, seconds, span_between, span_exceeds, span_of_seconds,
};
use crate::events::{FragmentRecord, FragmentedEvent};
use crate::reassembly::{
    all_wf, filled, ingest_step, joined, law_ingest_keeps_pending_well_formed, lemma_empty_wf,
    lemma_filled_bound, lemma_filled_complete, lemma_filled_place, slot_bytes, valid_total,
    PartialMessage, PendingMessages,
};
use crate::types::ClientId;
use crate::MAX_TOTAL_FRAGMENTS;

verus! {

broadcast use vstd::std_specs::hash::group_hash_axioms;

/// The number of message ids per client in the key space of the buffers.
spec fn message_id_span() -> int {
    0x1_0000_0000
}

/// The key under which the buffer of message `message_id` from `client` is
/// kept: the client id in the high bits, the message id in the low 32 bits.
spec fn message_code(client: u64, message_id: u32) -> u128 {
    (client * message_id_span() + message_id) as u128
}

proof fn lemma_message_code_injective(a: (u64, u32), b: (u64, u32))
    ensures
        message_code(a.0, a.1) == message_code(b.0, b.1) <==> a == b,
{
    assert(a.0 * message_id_span() + a.1 < 0x1_0000_0000_0000_0000_0000_0000) by (nonlinear_arith)
        requires
            a.0 < 0x1_0000_0000_0000_0000,
            a.1 < 0x1_0000_0000,
    ;
    assert(b.0 * message_id_span() + b.1 < 0x1_0000_0000_0000_0000_0000_0000) by (nonlinear_arith)
        requires
            b.0 < 0x1_0000_0000_0000_0000,
            b.1 < 0x1_0000_0000,
    ;
    if a.0 * message_id_span() + a.1 == b.0 * message_id_span() + b.1 {
        assert(a.0 == b.0) by (nonlinear_arith)
            requires
                a.0 * 0x1_0000_0000 + a.1 == b.0 * 0x1_0000_0000 + b.1,
                a.1 < 0x1_0000_0000,
                b.1 < 0x1_0000_0000,
        ;
    }
}

/// Whether `c` lies in the key space of the buffers: below 2^96, so that it
/// is the code of the pair `decoded(c)`.
spec fn in_key_space(c: u128) -> bool {
    c < 0x1_0000_0000_0000_0000_0000_0000
}

/// The (client id, message id) pair whose code is `c`.
spec fn decoded(c: u128) -> (u64, u32) {
    ((c / 0x1_0000_0000) as u64, (c % 0x1_0000_0000) as u32)
}

/// The pair `decoded(c)` in the form of a listed message.
spec fn listed_key(c: u128) -> (ClientId, u32) {
    (ClientId(decoded(c).0), decoded(c).1)
}

proof fn lemma_code_in_key_space(client: u64, message_id: u32)
    ensures
        in_key_space(message_code(client, message_id)),
        decoded(message_code(client, message_id)) == (client, message_id),
{
    assert(client * message_id_span() + message_id < 0x1_0000_0000_0000_0000_0000_0000)
        by (nonlinear_arith)
        requires
            client < 0x1_0000_0000_0000_0000,
            message_id < 0x1_0000_0000,
    ;
    let c = client * 0x1_0000_0000 + message_id;
    assert(c / 0x1_0000_0000 == client && c % 0x1_0000_0000 == message_id) by (nonlinear_arith)
        requires
            c == client * 0x1_0000_0000 + message_id,
            0 <= message_id < 0x1_0000_0000,
            0 <= client,
    ;
}

proof fn lemma_decoded_code(c: u128)
    requires
        in_key_space(c),
    ensures
        message_code(decoded(c).0, decoded(c).1) == c,
{
    let q = c / 0x1_0000_0000;
    let r = c % 0x1_0000_0000;
    assert(q * 0x1_0000_0000 + r == c && q < 0x1_0000_0000_0000_0000 && r < 0x1_0000_0000)
        by (nonlinear_arith)
        requires
            q == c / 0x1_0000_0000,
            r == c % 0x1_0000_0000,
            0 <= c < 0x1_0000_0000_0000_0000_0000_0000,
    ;
}

fn key_code(client: ClientId, message_id: u32) -> (r: u128)
    ensures
        r == message_code(client.0, message_id),
        in_key_space(r),
{
    proof {
        lemma_code_in_key_space(client.0, message_id);
    }
    (client.0 as u128) * 0x1_0000_0000 + (message_id as u128)
}

/// Buffers fragments for a single larger message from a specific client.
#[derive(Debug, Clone)]
struct FragmentBuffer {
    /// When the first fragment of this message was received.
    start_time: Instant,
    /// Total number of fragments expected.
    total_fragments: u16,
    /// Fragments received so far.
    fragments: Vec<Option<Vec<u8>>>,
    /// Number of fragments currently present in the buffer.
    count: u16,
}

/// The bytes held by a slot of a buffer.
spec fn slot_view(slot: Option<Vec<u8>>) -> Option<Seq<u8>> {
    match slot {
        Some(bytes) => Some(bytes@),
        None => None,
    }
}

impl FragmentBuffer {
    spec fn slots(&self) -> Seq<Option<Seq<u8>>> {
        self.fragments@.map_values(|slot: Option<Vec<u8>>| slot_view(slot))
    }

    spec fn message(&self) -> PartialMessage {
        PartialMessage { total: self.total_fragments, slots: self.slots() }
    }

    spec fn wf(&self) -> bool {
        &&& self.message().wf()
        &&& self.count == filled(self.slots())
    }

    fn new(total_fragments: u16, start_time: Instant) -> (r: Option<Self>)
        ensures
            r is Some <==> valid_total(total_fragments),
            r matches Some(b) ==> b.wf() && b.message() == PartialMessage::empty(total_fragments)
                && b.start_time == start_time,
    {
        if total_fragments == 0 || total_fragments > MAX_TOTAL_FRAGMENTS {
            return None;
        }
        let mut fragments: Vec<Option<Vec<u8>>> = Vec::new();
        let mut i: u16 = 0;
        while i < total_fragments
            invariant
                i <= total_fragments,
                fragments@.len() == i,
                forall|j: int| 0 <= j < i ==> #[trigger] fragments@[j] is None,
            decreases total_fragments - i,
        {
            fragments.push(None);
            i = i + 1;
        }
        let buffer = FragmentBuffer { start_time, total_fragments, fragments, count: 0 };
        proof {
            assert(buffer.slots() =~= PartialMessage::empty(total_fragments).slots);
            lemma_empty_wf(total_fragments);
        }
        Some(buffer)
    }

    fn add(&mut self, index: u16, payload: Vec<u8>) -> (r: Option<Vec<u8>>)
        requires
            old(self).wf(),
        ensures
            ({
                let next = old(self).message().place(index, payload@);
                if next.is_complete() {
                    &&& r matches Some(full) && full@ == joined(next.slots)
                    &&& final(self).slots() == Seq::<Option<Seq<u8>>>::empty()
                    &&& final(self).count == final(self).total_fragments
                    &&& final(self).total_fragments == old(self).total_fragments
                    &&& final(self).start_time == old(self).start_time
                } else {
                    &&& r is None
                    &&& final(self).wf()
                    &&& final(self).message() == next
                    &&& final(self).start_time == old(self).start_time
                }
            }),
    {
        let ghost next = self.message().place(index, payload@);
        let idx = index as usize;
        if idx >= self.fragments.len() {
            return None;
        }
        if self.fragments[idx].is_none() {
            let ghost before = self.slots();
            proof {
                lemma_filled_place(before, idx as int, payload@);
                lemma_filled_bound(before.update(idx as int, Some(payload@)));
            }
            self.fragments.set(idx, Some(payload));
            self.count = self.count + 1;
            assert(self.slots() =~= before.update(idx as int, Some(payload@)));
        } else {
            assert(next == self.message());
        }
        assert(self.message() == next);
        proof {
            lemma_filled_complete(self.slots());
        }
        if self.count == self.total_fragments {
            let mut fragments: Vec<Option<Vec<u8>>> = Vec::new();
            std::mem::swap(&mut fragments, &mut self.fragments);
            let ghost slots = next.slots;
            let ghost parts = slots.map_values(|slot: Option<Seq<u8>>| slot_bytes(slot));
            let mut full: Vec<u8> = Vec::new();
            let mut i: usize = 0;
            while i < fragments.len()
                invariant
                    i <= fragments@.len(),
                    fragments@.map_values(|slot: Option<Vec<u8>>| slot_view(slot)) == slots,
                    parts == slots.map_values(|slot: Option<Seq<u8>>| slot_bytes(slot)),
                    full@ == parts.take(i as int).flatten_alt(),
                decreases fragments.len() - i,
            {
                assert(parts.take(i + 1).drop_last() =~= parts.take(i as int));
                match &fragments[i] {
                    Some(bytes) => {
                        let mut part = bytes.clone();
                        assert(part@ =~= bytes@);
                        full.append(&mut part);
                        assert(slot_view(fragments@[i as int]) == slots[i as int]);
                    },
                    None => {
                        assert(slot_view(fragments@[i as int]) == slots[i as int]);
                    },
                }
                i = i + 1;
            }
            proof {
                assert(parts.take(i as int) =~= parts);
                parts.lemma_flatten_and_flatten_alt_are_equivalent();
                assert(self.slots() =~= Seq::<Option<Seq<u8>>>::empty());
            }
            Some(full)
        } else {
            None
        }
    }
}

/// A stateful reassembler that tracks fragmented messages from multiple clients.
#[derive(Debug)]
pub struct Reassembler {
    /// Buffers of the pending messages, keyed by `message_code`.
    buffers: HashMap<u128, FragmentBuffer>,
    /// How long to keep fragments before discarding.
    timeout: Duration,
}

impl View for Reassembler {
    type V = PendingMessages;

    /// The pending messages, keyed by `(client id, message id)`.
    closed spec fn view(&self) -> PendingMessages {
        pending_view(self.buffers@)
    }
}

/// Whether `buffers` holds a well-formed buffer for message `k`.
spec fn holds_message(buffers: Map<u128, FragmentBuffer>, k: (u64, u32)) -> bool {
    buffers.contains_key(message_code(k.0, k.1)) && buffers[message_code(k.0, k.1)].wf()
}

/// The pending messages that a map of buffers holds.
spec fn pending_view(buffers: Map<u128, FragmentBuffer>) -> PendingMessages {
    Map::new(
        |k: (u64, u32)| holds_message(buffers, k),
        |k: (u64, u32)| buffers[message_code(k.0, k.1)].message(),
    )
}

/// When the first fragment of each pending message arrived.
spec fn started_view(buffers: Map<u128, FragmentBuffer>) -> Map<(u64, u32), Instant> {
    Map::new(
        |k: (u64, u32)| holds_message(buffers, k),
        |k: (u64, u32)| buffers[message_code(k.0, k.1)].start_time,
    )
}

spec fn buffers_wf_map(buffers: Map<u128, FragmentBuffer>) -> bool {
    forall|c: u128| #[trigger] buffers.contains_key(c) ==> buffers[c].wf() && in_key_space(c)
}

/// When the first fragment of each pending message arrived, after a step
/// of `ingest` on `pending` (with those instants in `started`) that read
/// the clock as `reading`: a message that was pending keeps its instant, a
/// message that the step starts gets `reading`.
pub open spec fn started_step(
    started: Map<(u64, u32), Instant>,
    pending: PendingMessages,
    client: u64,
    event: FragmentRecord,
    reading: Instant,
) -> Map<(u64, u32), Instant> {
    let after = ingest_step(pending, client, event).0;
    Map::new(
        |k: (u64, u32)| after.contains_key(k),
        |k: (u64, u32)| if pending.contains_key(k) {
            started[k]
        } else {
            reading
        },
    )
}

/// Law: after a step of `ingest` that read the clock as `reading`, every
/// pending message has a start instant; one that the step started is aged
/// from `reading` itself, not from another message's start, and one that
/// was pending before keeps its own.
pub proof fn law_new_message_is_aged_from_its_own_reading(
    started: Map<(u64, u32), Instant>,
    pending: PendingMessages,
    client: u64,
    event: FragmentRecord,
    reading: Instant,
)
    ensures
        ({
            let after = ingest_step(pending, client, event).0;
            let next = started_step(started, pending, client, event, reading);
            &&& next.dom() == after.dom()
            &&& forall|k: (u64, u32)| #[trigger]
                after.contains_key(k) && !pending.contains_key(k) ==> next[k] == reading
            &&& forall|k: (u64, u32)| #[trigger]
                after.contains_key(k) && pending.contains_key(k) ==> next[k] == started[k]
        }),
{
    let after = ingest_step(pending, client, event).0;
    let next = started_step(started, pending, client, event, reading);
    assert(next.dom() =~= after.dom());
}

/// Whether `ages` lists message `key` with an age longer than `timeout`.
pub open spec fn listed_as_stale(
    ages: Seq<((ClientId, u32), Duration)>,
    key: (u64, u32),
    timeout: Duration,
) -> bool {
    exists|i: int|
        0 <= i < ages.len() && #[trigger] ages[i].0 == (ClientId(key.0), key.1) && span_exceeds(
            ages[i].1,
            timeout,
        )
}

/// Whether `after` keeps exactly the messages of `before` whose age at the
/// instant `reading` (the span since the first fragment, `started[k]`) is
/// not longer than `timeout`.
pub open spec fn kept_while_young(
    before: PendingMessages,
    after: PendingMessages,
    started: Map<(u64, u32), Instant>,
    reading: Instant,
    timeout: Duration,
) -> bool {
    forall|k: (u64, u32)| #[trigger]
        after.contains_key(k) <==> before.contains_key(k) && !span_exceeds(
            span_between(reading, started[k]),
            timeout,
        )
}

/// Whether one of the first `n` entries of `ages` lists message `key` with
/// an age longer than `timeout`.
spec fn stale_within(
    ages: Seq<((ClientId, u32), Duration)>,
    key: (u64, u32),
    timeout: Duration,
    n: int,
) -> bool {
    exists|i: int|
        0 <= i < n && #[trigger] ages[i].0 == (ClientId(key.0), key.1) && span_exceeds(
            ages[i].1,
            timeout,
        )
}

/// Whether the message `(client id, message id)` is one of `listed`.
pub open spec fn is_listed(listed: Seq<(ClientId, u32)>, key: (u64, u32)) -> bool {
    exists|i: int| 0 <= i < listed.len() && #[trigger] listed[i] == (ClientId(key.0), key.1)
}

impl Reassembler {
    #[verifier::type_invariant]
    spec fn buffers_wf(&self) -> bool {
        buffers_wf_map(self.buffers@)
    }

    /// How long a partial message is kept before `prune` may discard it.
    pub closed spec fn timeout(&self) -> Duration {
        self.timeout
    }

    /// When the first fragment of each pending message arrived: the instant
    /// from which `prune` counts the message's age.
    pub closed spec fn started(&self) -> Map<(u64, u32), Instant> {
        started_view(self.buffers@)
    }

    /// Every pending message, and only those, has the instant of its first
    /// fragment.
    pub proof fn lemma_started_domain(&self)
        ensures
            self.started().dom() == self@.dom(),
    {
        assert(self.started().dom() =~= self@.dom());
    }

    /// Law: every message that a reassembler holds pending is well formed
    /// (an allowed fragment count, one slot per fragment, not yet complete).
    pub proof fn law_pending_messages_are_well_formed(&self)
        ensures
            all_wf(self@),
    {
        assert forall|k: (u64, u32)| #[trigger] self@.contains_key(k) implies self@[k].wf() by {
            assert(self.buffers@.contains_key(message_code(k.0, k.1)));
        }
    }

    proof fn lemma_view_insert(old_map: Map<u128, FragmentBuffer>, key: (u64, u32), b: FragmentBuffer)
        requires
            b.wf(),
        ensures
            pending_view(old_map.insert(message_code(key.0, key.1), b)) =~= pending_view(
                old_map,
            ).insert(key, b.message()),
            started_view(old_map.insert(message_code(key.0, key.1), b)) =~= started_view(
                old_map,
            ).insert(key, b.start_time),
    {
        assert forall|k: (u64, u32)| true implies (message_code(k.0, k.1) == message_code(key.0, key.1)
            <==> k == key) by {
            lemma_message_code_injective(k, key);
        }
    }

    proof fn lemma_view_remove(old_map: Map<u128, FragmentBuffer>, key: (u64, u32))
        ensures
            pending_view(old_map.remove(message_code(key.0, key.1))) =~= pending_view(
                old_map,
            ).remove(key),
            started_view(old_map.remove(message_code(key.0, key.1))) =~= started_view(
                old_map,
            ).remove(key),
    {
        assert forall|k: (u64, u32)| true implies (message_code(k.0, k.1) == message_code(key.0, key.1)
            <==> k == key) by {
            lemma_message_code_injective(k, key);
        }
    }

    /// Creates a new reassembler with a default timeout of 5 seconds.
    pub fn new() -> (r: Self)
        ensures
            r@ == Map::<(u64, u32), PartialMessage>::empty(),
            r.timeout() == span_of_seconds(5),
            all_wf(r@),
    {
        let r = Reassembler { buffers: HashMap::new(), timeout: seconds(5) };
        assert(r@ =~= Map::<(u64, u32), PartialMessage>::empty());
        r
    }

    /// Sets a custom timeout for message reassembly.
    pub fn with_timeout(self, timeout: Duration) -> (r: Self)
        ensures
            r@ == self@,
            r.started() == self.started(),
            r.timeout() == timeout,
            all_wf(r@),
    {
        proof {
            use_type_invariant(&self);
        }
        let Reassembler { buffers, timeout: _ } = self;
        let r = Reassembler { buffers, timeout };
        proof {
            r.law_pending_messages_are_well_formed();
        }
        r
    }

    fn ingest_into(
        buffers: &mut HashMap<u128, FragmentBuffer>,
        client_id: ClientId,
        event: FragmentedEvent,
        reading: Instant,
    ) -> (r: Option<Vec<u8>>)
        requires
            buffers_wf_map(old(buffers)@),
        ensures
            ({
                let (after, output) = ingest_step(pending_view(old(buffers)@), client_id.0, event@);
                &&& pending_view(final(buffers)@) == after
                &&& output == match r {
                    Some(full) => Some(full@),
                    None => None::<Seq<u8>>,
                }
            }),
            started_view(final(buffers)@) == started_step(
                started_view(old(buffers)@),
                pending_view(old(buffers)@),
                client_id.0,
                event@,
                reading,
            ),
            buffers_wf_map(final(buffers)@),
    {
        let ghost pending = pending_view(buffers@);
        let ghost started = started_view(buffers@);
        let ghost expected = started_step(started, pending, client_id.0, event@, reading);
        // The count comes from untrusted input: refuse anything the protocol does not allow.
        if event.total_fragments == 0 || event.total_fragments > MAX_TOTAL_FRAGMENTS {
            assert(expected =~= started);
            return None;
        }
        let key = key_code(client_id, event.message_id);
        let ghost mkey = (client_id.0, event.message_id);
        let ghost map_before = buffers@;
        let removed = buffers.remove(&key);
        proof {
            Self::lemma_view_remove(map_before, mkey);
        }
        let mut buffer = match removed {
            Some(b) => b,
            None => match FragmentBuffer::new(event.total_fragments, reading) {
                Some(b) => b,
                None => return None,
            },
        };
        assert(buffer.message() == (if pending.contains_key(mkey) {
            pending[mkey]
        } else {
            PartialMessage::empty(event.total_fragments)
        }));
        // The count must match the one this message was first announced with.
        if buffer.total_fragments != event.total_fragments {
            let ghost map_mid = buffers@;
            buffers.insert(key, buffer);
            proof {
                Self::lemma_view_insert(map_mid, mkey, buffer);
                assert(pending_view(buffers@) =~= pending);
                assert(started_view(buffers@) =~= started);
                assert(expected =~= started);
            }
            return None;
        }
        let FragmentedEvent { message_id: _, fragment_index, total_fragments: _, payload } = event;
        let ghost before_add = buffer;
        let result = buffer.add(fragment_index, payload);
        if result.is_none() {
            let ghost map_mid = buffers@;
            buffers.insert(key, buffer);
            proof {
                Self::lemma_view_insert(map_mid, mkey, buffer);
                assert(pending_view(buffers@) =~= pending.insert(mkey, buffer.message()));
                assert(buffer.start_time == before_add.start_time);
                assert(started_view(buffers@) =~= expected);
            }
        } else {
            assert(started_view(buffers@) =~= expected);
        }
        result
    }

    /// Ingests a fragment that arrived when the clock read `reading`.
    ///
    /// Returns the full reassembled message if this was the last fragment,
    /// otherwise returns `None`. A message that this fragment starts is
    /// aged from `reading`; the messages already pending keep their start.
    pub fn ingest_at(&mut self, client_id: ClientId, event: FragmentedEvent, reading: Instant) -> (r:
        Option<Vec<u8>>)
        ensures
            ({
                let (after, output) = ingest_step(old(self)@, client_id.0, event@);
                &&& final(self)@ == after
                &&& output == match r {
                    Some(full) => Some(full@),
                    None => None::<Seq<u8>>,
                }
            }),
            final(self).started() == started_step(
                old(self).started(),
                old(self)@,
                client_id.0,
                event@,
                reading,
            ),
            final(self).timeout() == old(self).timeout(),
            all_wf(final(self)@),
    {
        proof {
            use_type_invariant(&*self);
            self.law_pending_messages_are_well_formed();
            law_ingest_keeps_pending_well_formed(self@, client_id.0, event@);
        }
        let mut buffers: HashMap<u128, FragmentBuffer> = HashMap::new();
        std::mem::swap(&mut buffers, &mut self.buffers);
        let r = Self::ingest_into(&mut buffers, client_id, event, reading);
        self.buffers = buffers;
        r
    }

    /// Ingests a fragment into the reassembler.
    ///
    /// Returns the full reassembled message if this was the last fragment,
    /// otherwise returns `None`. The clock is read once for the call; a
    /// message that this fragment starts is aged from that reading.
    pub fn ingest(&mut self, client_id: ClientId, event: FragmentedEvent) -> (r: Option<Vec<u8>>)
        ensures
            ({
                let (after, output) = ingest_step(old(self)@, client_id.0, event@);
                &&& final(self)@ == after
                &&& output == match r {
                    Some(full) => Some(full@),
                    None => None::<Seq<u8>>,
                }
            }),
            exists|reading: Instant| #[trigger]
                started_step(old(self).started(), old(self)@, client_id.0, event@, reading)
                    == final(self).started(),
            forall|k: (u64, u32)| #[trigger]
                final(self).started().contains_key(k) && old(self).started().contains_key(k)
                    ==> final(self).started()[k] == old(self).started()[k],
            final(self).timeout() == old(self).timeout(),
            all_wf(final(self)@),
    {
        let reading = now();
        let r = self.ingest_at(client_id, event, reading);
        proof {
            law_new_message_is_aged_from_its_own_reading(
                old(self).started(),
                old(self)@,
                client_id.0,
                event@,
                reading,
            );
        }
        r
    }

    fn discard_from(buffers: &mut HashMap<u128, FragmentBuffer>, expired: &[(ClientId, u32)])
        requires
            buffers_wf_map(old(buffers)@),
        ensures
            forall|k: (u64, u32)| #[trigger]
                pending_view(final(buffers)@).contains_key(k) <==> pending_view(old(buffers)@).contains_key(k) && !is_listed(
                    expired@,
                    k,
                ),
            forall|k: (u64, u32)| #[trigger]
                pending_view(final(buffers)@).contains_key(k) ==> pending_view(final(buffers)@)[k] == pending_view(old(buffers)@)[k],
            forall|k: (u64, u32)| #[trigger]
                started_view(final(buffers)@).contains_key(k) && started_view(old(buffers)@).contains_key(k)
                    ==> started_view(final(buffers)@)[k] == started_view(old(buffers)@)[k],
            buffers_wf_map(final(buffers)@),
    {
        let ghost start = pending_view(buffers@);
        let ghost started = started_view(buffers@);
        let mut i: usize = 0;
        while i < expired.len()
            invariant
                i <= expired@.len(),
                buffers_wf_map(buffers@),
                forall|k: (u64, u32)| #[trigger]
                    pending_view(buffers@).contains_key(k) <==> start.contains_key(k) && !is_listed(
                        expired@.take(i as int),
                        k,
                    ),
                forall|k: (u64, u32)| #[trigger] pending_view(buffers@).contains_key(k) ==> pending_view(buffers@)[k] == start[k],
                forall|k: (u64, u32)| #[trigger] started_view(buffers@).contains_key(k) ==> started_view(buffers@)[k] == started[k],
                forall|k: (u64, u32)| #[trigger] started_view(buffers@).contains_key(k) <==> pending_view(buffers@).contains_key(k),
            decreases expired@.len() - i,
        {
            let (client, message_id) = expired[i];
            let key = key_code(client, message_id);
            let ghost map_before = buffers@;
            buffers.remove(&key);
            proof {
                Self::lemma_view_remove(map_before, (client.0, message_id));
                assert forall|k: (u64, u32)| #[trigger]
                    pending_view(buffers@).contains_key(k) <==> start.contains_key(k) && !is_listed(
                        expired@.take(i + 1),
                        k,
                    ) by {
                    if is_listed(expired@.take(i as int), k) {
                        let j = choose|j: int|
                            0 <= j < i && #[trigger] expired@.take(i as int)[j] == (ClientId(k.0), k.1);
                        assert(expired@.take(i + 1)[j] == (ClientId(k.0), k.1));
                    }
                    if is_listed(expired@.take(i + 1), k) {
                        let j = choose|j: int|
                            0 <= j < i + 1 && #[trigger] expired@.take(i + 1)[j] == (ClientId(k.0), k.1);
                        if j < i {
                            assert(expired@.take(i as int)[j] == (ClientId(k.0), k.1));
                        }
                    }
                    if k == (client.0, message_id) {
                        assert(expired@.take(i + 1)[i as int] == (ClientId(k.0), k.1));
                    }
                }
            }
            i = i + 1;
        }
        assert(expired@.take(i as int) =~= expired@);
    }

    /// Discards the listed messages, complete or not, from the pending set.
    pub fn discard(&mut self, expired: &[(ClientId, u32)])
        ensures
            forall|k: (u64, u32)| #[trigger]
                final(self)@.contains_key(k) <==> old(self)@.contains_key(k) && !is_listed(
                    expired@,
                    k,
                ),
            forall|k: (u64, u32)| #[trigger]
                final(self)@.contains_key(k) ==> final(self)@[k] == old(self)@[k]
                    && final(self).started()[k] == old(self).started()[k],
            final(self).timeout() == old(self).timeout(),
            all_wf(final(self)@),
    {
        proof {
            use_type_invariant(&*self);
        }
        let ghost before = self.buffers@;
        let mut buffers: HashMap<u128, FragmentBuffer> = HashMap::new();
        std::mem::swap(&mut buffers, &mut self.buffers);
        Self::discard_from(&mut buffers, expired);
        self.buffers = buffers;
        proof {
            self.law_pending_messages_are_well_formed();
            assert forall|k: (u64, u32)| #[trigger] self@.contains_key(k) implies self.started()[k]
                == started_view(before)[k] by {
                assert(started_view(self.buffers@).contains_key(k));
                assert(started_view(before).contains_key(k));
            }
        }
    }

    /// Discards the messages that `ages` lists with an age longer than the
    /// timeout; the ages are those the clock gave for the messages. Every
    /// other message stays as it was.
    pub fn expire(&mut self, ages: &[((ClientId, u32), Duration)])
        ensures
            forall|k: (u64, u32)| #[trigger]
                final(self)@.contains_key(k) <==> old(self)@.contains_key(k) && !listed_as_stale(
                    ages@,
                    k,
                    old(self).timeout(),
                ),
            forall|k: (u64, u32)| #[trigger]
                final(self)@.contains_key(k) ==> final(self)@[k] == old(self)@[k]
                    && final(self).started()[k] == old(self).started()[k],
            final(self).timeout() == old(self).timeout(),
            all_wf(final(self)@),
    {
        let mut expired: Vec<(ClientId, u32)> = Vec::new();
        let mut i: usize = 0;
        while i < ages.len()
            invariant
                i <= ages@.len(),
                forall|k: (u64, u32)| #[trigger]
                    is_listed(expired@, k) <==> stale_within(ages@, k, self.timeout, i as int),
            decreases ages@.len() - i,
        {
            let (key, age) = ages[i];
            let stale = longer_than(&age, &self.timeout);
            let ghost before = expired@;
            if stale {
                expired.push(key);
            }
            proof {
                assert forall|k: (u64, u32)| #[trigger]
                    is_listed(expired@, k) <==> stale_within(ages@, k, self.timeout, i + 1) by {
                    let kk = (ClientId(k.0), k.1);
                    if is_listed(before, k) {
                        let j = choose|j: int| 0 <= j < before.len() && #[trigger] before[j] == kk;
                        assert(expired@[j] == kk);
                    }
                    if stale_within(ages@, k, self.timeout, i as int) {
                        let j = choose|j: int|
                            0 <= j < i && #[trigger] ages@[j].0 == kk && span_exceeds(ages@[j].1, self.timeout);
                        assert(stale_within(ages@, k, self.timeout, i + 1));
                    }
                    if is_listed(expired@, k) {
                        let j = choose|j: int| 0 <= j < expired@.len() && #[trigger] expired@[j] == kk;
                        if j < before.len() {
                            assert(before[j] == kk);
                        } else {
                            assert(ages@[i as int].0 == kk);
                        }
                    }
                    if stale_within(ages@, k, self.timeout, i + 1) {
                        let j = choose|j: int|
                            0 <= j < i + 1 && #[trigger] ages@[j].0 == kk && span_exceeds(ages@[j].1, self.timeout);
                        if j < i {
                            assert(stale_within(ages@, k, self.timeout, i as int));
                        } else {
                            assert(expired@[before.len() as int] == kk);
                        }
                    }
                }
            }
            i = i + 1;
        }
        self.discard(expired.as_slice());
    }

    /// Discards messages that have not been completed within the timeout: the
    /// clock is read once, and a message is discarded when the span from its
    /// first fragment to that reading is longer than the timeout.
    ///
    /// The reading depends on the time of the call, so it is stated as some
    /// instant; what is removed for given ages is `expire`'s contract.
    pub fn prune(&mut self)
        ensures
            exists|reading: Instant| #[trigger]
                kept_while_young(old(self)@, final(self)@, old(self).started(), reading, old(self).timeout()),
            forall|k: (u64, u32)| #[trigger]
                final(self)@.contains_key(k) ==> final(self)@[k] == old(self)@[k]
                    && final(self).started()[k] == old(self).started()[k],
            final(self).timeout() == old(self).timeout(),
            all_wf(final(self)@),
    {
        proof {
            use_type_invariant(&*self);
        }
        let ghost codes = vstd::std_specs::iter::IteratorSpec::remaining(&self.buffers.keys()).unref();
        let reading = now();
        let mut ages: Vec<((ClientId, u32), Duration)> = Vec::new();
        for code in it: self.buffers.keys()
            invariant
                buffers_wf_map(self.buffers@),
                it.seq().unref() == codes,
                codes.to_set() == self.buffers@.dom(),
                ages@.len() == it.index(),
                forall|j: int| 0 <= j < it.index() ==> #[trigger] ages@[j].0 == listed_key(codes[j]),
                forall|j: int| 0 <= j < it.index() ==> #[trigger] ages@[j].1 == span_between(
                    reading,
                    self.buffers@[codes[j]].start_time,
                ),
        {
            let ghost idx = it.index();
            assert(codes[idx] == *code);
            assert(self.buffers@.dom().contains(*code)) by {
                assert(codes.to_set().contains(codes[idx]));
            }
            match self.buffers.get(code) {
                Some(buffer) => {
                    let client = ClientId((*code / 0x1_0000_0000) as u64);
                    let message_id = (*code % 0x1_0000_0000) as u32;
                    let age = duration_between(&reading, &buffer.start_time);
                    ages.push(((client, message_id), age));
                },
                None => {
                    assert(false);
                },
            }
        }
        let ghost old_self = *self;
        let ghost listed = ages@;
        proof {
            Self::lemma_ages_cover(codes, listed, old_self.buffers@, reading, old_self.timeout);
        }
        self.expire(ages.as_slice());
        proof {
            assert forall|k: (u64, u32)| #[trigger] self@.contains_key(k) <==> old_self@.contains_key(k)
                && !span_exceeds(span_between(reading, old_self.started()[k]), old_self.timeout) by {
                if old_self@.contains_key(k) {
                    assert(started_view(old_self.buffers@).contains_key(k));
                }
            }
            assert(kept_while_young(old_self@, self@, old_self.started(), reading, old_self.timeout()));
        }
    }

    /// For a list that gives each buffered message exactly one age, the span
    /// from its first fragment to `reading`, being listed as stale is that
    /// span being longer than the timeout.
    proof fn lemma_ages_cover(
        codes: Seq<u128>,
        ages: Seq<((ClientId, u32), Duration)>,
        buffers: Map<u128, FragmentBuffer>,
        reading: Instant,
        timeout: Duration,
    )
        requires
            buffers_wf_map(buffers),
            codes.to_set() == buffers.dom(),
            codes.no_duplicates(),
            ages.len() == codes.len(),
            forall|j: int| 0 <= j < codes.len() ==> #[trigger] ages[j].0 == listed_key(codes[j]),
            forall|j: int| 0 <= j < codes.len() ==> #[trigger] ages[j].1 == span_between(
                reading,
                buffers[codes[j]].start_time,
            ),
        ensures
            forall|k: (u64, u32)| #[trigger]
                pending_view(buffers).contains_key(k) ==> (listed_as_stale(ages, k, timeout)
                    <==> span_exceeds(
                    span_between(reading, buffers[message_code(k.0, k.1)].start_time),
                    timeout,
                )),
    {
        assert forall|k: (u64, u32)| #[trigger]
            pending_view(buffers).contains_key(k) implies (listed_as_stale(ages, k, timeout)
                <==> span_exceeds(
                span_between(reading, buffers[message_code(k.0, k.1)].start_time),
                timeout,
            )) by {
            let c = message_code(k.0, k.1);
            let kk = (ClientId(k.0), k.1);
            lemma_code_in_key_space(k.0, k.1);
            assert(codes.to_set().contains(c));
            let j0 = choose|j: int| 0 <= j < codes.len() && codes[j] == c;
            assert(ages[j0].0 == kk);
            // every entry for `k` is the one at `j0`
            assert forall|j: int| 0 <= j < ages.len() && #[trigger] ages[j].0 == kk implies j == j0 by {
                assert(buffers.dom().contains(codes[j])) by {
                    assert(codes.to_set().contains(codes[j]));
                }
                lemma_decoded_code(codes[j]);
                assert(codes[j] == c);
            }
            assert(ages[j0].1 == span_between(reading, buffers[c].start_time));
        }
    }
}

impl Clone for Reassembler {
    fn clone(&self) -> (r: Self)
        ensures
            r@ == self@,
            r.started() == self.started(),
            r.timeout() == self.timeout(),
    {
        proof {
            use_type_invariant(self);
        }
        Reassembler { buffers: self.buffers.clone(), timeout: self.timeout }
    }
}

impl Default for Reassembler {
    /// An empty reassembler whose timeout is the empty span
    /// (`Duration::default()`, which is zero seconds).
    fn default() -> (r: Self)
        ensures
            r@ == Map::<(u64, u32), PartialMessage>::empty(),
            r.timeout() == span_of_seconds(0),
    {
        let r = Reassembler { buffers: HashMap::new(), timeout: seconds(0) };
        assert(r@ =~= Map::<(u64, u32), PartialMessage>::empty());
        r
    }
}

} // verus!

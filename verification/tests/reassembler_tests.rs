use aetheris_protocol::events::FragmentedEvent;
use aetheris_protocol::reassembler::Reassembler;
use aetheris_protocol::types::ClientId;
use std::time::Duration;

fn fragment(message_id: u32, fragment_index: u16, total_fragments: u16, payload: Vec<u8>) -> FragmentedEvent {
    FragmentedEvent {
        message_id,
        fragment_index,
        total_fragments,
        payload,
    }
}

#[test]
fn test_reassembly_ordered() {
    let mut reassembler = Reassembler::new();
    let cid = ClientId(1);
    let mid = 100;

    let f1 = FragmentedEvent {
        message_id: mid,
        fragment_index: 0,
        total_fragments: 2,
        payload: vec![1, 2],
    };
    let f2 = FragmentedEvent {
        message_id: mid,
        fragment_index: 1,
        total_fragments: 2,
        payload: vec![3, 4],
    };

    assert!(reassembler.ingest(cid, f1).is_none());
    let result = reassembler.ingest(cid, f2).unwrap();
    assert_eq!(result, vec![1, 2, 3, 4]);
}

#[test]
fn test_reassembly_out_of_order() {
    let mut reassembler = Reassembler::new();
    let cid = ClientId(1);
    let mid = 101;

    let f1 = FragmentedEvent {
        message_id: mid,
        fragment_index: 0,
        total_fragments: 3,
        payload: vec![1],
    };
    let f2 = FragmentedEvent {
        message_id: mid,
        fragment_index: 1,
        total_fragments: 3,
        payload: vec![2],
    };
    let f3 = FragmentedEvent {
        message_id: mid,
        fragment_index: 2,
        total_fragments: 3,
        payload: vec![3],
    };

    assert!(reassembler.ingest(cid, f3).is_none());
    assert!(reassembler.ingest(cid, f1).is_none());
    let result = reassembler.ingest(cid, f2).unwrap();
    assert_eq!(result, vec![1, 2, 3]);
}

#[test]
fn single_fragment_message_completes_at_once() {
    let mut r = Reassembler::new();
    assert_eq!(r.ingest(ClientId(3), fragment(9, 0, 1, vec![7, 7])), Some(vec![7, 7]));
    // The message was released: the same id starts a new message.
    assert_eq!(r.ingest(ClientId(3), fragment(9, 0, 1, vec![8])), Some(vec![8]));
}

#[test]
fn invalid_fragment_counts_are_refused() {
    let mut r = Reassembler::new();
    assert_eq!(r.ingest(ClientId(1), fragment(1, 0, 0, vec![1])), None);
    assert_eq!(r.ingest(ClientId(1), fragment(1, 0, 1025, vec![1])), None);
    // 1024 fragments is allowed.
    assert_eq!(r.ingest(ClientId(1), fragment(2, 0, 1024, vec![1])), None);
    // A count of zero did not create a message: a valid single fragment completes.
    assert_eq!(r.ingest(ClientId(1), fragment(1, 0, 1, vec![5])), Some(vec![5]));
}

#[test]
fn mismatched_fragment_count_is_refused() {
    let mut r = Reassembler::new();
    assert_eq!(r.ingest(ClientId(1), fragment(5, 0, 2, vec![1])), None);
    // Same message announced with another count: ignored.
    assert_eq!(r.ingest(ClientId(1), fragment(5, 1, 3, vec![2])), None);
    // The original message is still waiting for its second fragment.
    assert_eq!(r.ingest(ClientId(1), fragment(5, 1, 2, vec![3])), Some(vec![1, 3]));
}

#[test]
fn repeated_fragment_keeps_first_payload() {
    let mut r = Reassembler::new();
    assert_eq!(r.ingest(ClientId(1), fragment(6, 0, 2, vec![1])), None);
    assert_eq!(r.ingest(ClientId(1), fragment(6, 0, 2, vec![9, 9])), None);
    assert_eq!(r.ingest(ClientId(1), fragment(6, 1, 2, vec![2])), Some(vec![1, 2]));
}

#[test]
fn out_of_range_index_is_ignored() {
    let mut r = Reassembler::new();
    assert_eq!(r.ingest(ClientId(1), fragment(7, 2, 2, vec![1])), None);
    assert_eq!(r.ingest(ClientId(1), fragment(7, 0, 2, vec![1])), None);
    assert_eq!(r.ingest(ClientId(1), fragment(7, 1, 2, vec![2])), Some(vec![1, 2]));
}

#[test]
fn messages_of_different_clients_are_separate() {
    let mut r = Reassembler::new();
    assert_eq!(r.ingest(ClientId(1), fragment(8, 0, 2, vec![1])), None);
    assert_eq!(r.ingest(ClientId(2), fragment(8, 1, 2, vec![20])), None);
    assert_eq!(r.ingest(ClientId(1), fragment(8, 1, 2, vec![10])), Some(vec![1, 10]));
    assert_eq!(r.ingest(ClientId(2), fragment(8, 0, 2, vec![2])), Some(vec![2, 20]));
}

#[test]
fn discard_drops_only_listed_messages() {
    let mut r = Reassembler::new();
    assert_eq!(r.ingest(ClientId(1), fragment(1, 0, 2, vec![1])), None);
    assert_eq!(r.ingest(ClientId(1), fragment(2, 0, 2, vec![3])), None);
    r.discard(&[(ClientId(1), 1)]);
    // Message 1 starts over: its first fragment is gone.
    assert_eq!(r.ingest(ClientId(1), fragment(1, 1, 2, vec![2])), None);
    // Message 2 kept its first fragment.
    assert_eq!(r.ingest(ClientId(1), fragment(2, 1, 2, vec![4])), Some(vec![3, 4]));
}

#[test]
fn prune_with_long_timeout_keeps_fresh_messages() {
    let mut r = Reassembler::new().with_timeout(std::time::Duration::from_secs(3600));
    assert_eq!(r.ingest(ClientId(1), fragment(1, 0, 2, vec![1])), None);
    r.prune();
    assert_eq!(r.ingest(ClientId(1), fragment(1, 1, 2, vec![2])), Some(vec![1, 2]));
}

#[test]
fn clone_carries_pending_messages() {
    let mut r = Reassembler::new();
    assert_eq!(r.ingest(ClientId(4), fragment(1, 0, 2, vec![1])), None);
    let mut copy = r.clone();
    assert_eq!(copy.ingest(ClientId(4), fragment(1, 1, 2, vec![2])), Some(vec![1, 2]));
    assert_eq!(r.ingest(ClientId(4), fragment(1, 1, 2, vec![3])), Some(vec![1, 3]));
}

fn wait_a_little() {
    let start = std::time::Instant::now();
    while start.elapsed() < std::time::Duration::from_millis(2) {}
}

#[test]
fn prune_discards_expired_messages() {
    // The default reassembler keeps nothing: its timeout is zero.
    let mut r = Reassembler::default();
    assert_eq!(r.ingest(ClientId(1), fragment(1, 0, 2, vec![1])), None);
    wait_a_little();
    r.prune();
    assert_eq!(r.ingest(ClientId(1), fragment(1, 1, 2, vec![2])), None);

    // `new` keeps partial messages for five seconds.
    let mut r = Reassembler::new();
    assert_eq!(r.ingest(ClientId(1), fragment(1, 0, 2, vec![1])), None);
    wait_a_little();
    r.prune();
    assert_eq!(r.ingest(ClientId(1), fragment(1, 1, 2, vec![2])), Some(vec![1, 2]));
}

#[test]
fn test_cleanup() {
    let mut reassembler = Reassembler::new().with_timeout(Duration::from_millis(10));
    let cid = ClientId(1);
    let mid = 102;
    assert_eq!(reassembler.ingest(cid, fragment(mid, 0, 2, vec![1])), None);
    let start = std::time::Instant::now();
    while start.elapsed() < Duration::from_millis(20) {}
    reassembler.prune();
    // The stale partial message is gone: its second fragment starts it anew.
    assert_eq!(reassembler.ingest(cid, fragment(mid, 1, 2, vec![2])), None);
}

#[test]
fn expire_discards_exactly_the_messages_listed_as_too_old() {
    let mut r = Reassembler::new().with_timeout(Duration::from_secs(5));
    assert_eq!(r.ingest(ClientId(1), fragment(1, 0, 2, vec![1])), None);
    assert_eq!(r.ingest(ClientId(1), fragment(2, 0, 2, vec![3])), None);
    assert_eq!(r.ingest(ClientId(2), fragment(1, 0, 2, vec![5])), None);
    r.expire(&[
        ((ClientId(1), 1), Duration::from_secs(6)),
        ((ClientId(1), 2), Duration::from_secs(5)),
        ((ClientId(2), 1), Duration::from_secs(1)),
        ((ClientId(9), 9), Duration::from_secs(60)),
    ]);
    // Older than the timeout: gone, so its second fragment starts it anew.
    assert_eq!(r.ingest(ClientId(1), fragment(1, 1, 2, vec![2])), None);
    // Exactly the timeout is not older than it: kept.
    assert_eq!(r.ingest(ClientId(1), fragment(2, 1, 2, vec![4])), Some(vec![3, 4]));
    assert_eq!(r.ingest(ClientId(2), fragment(1, 1, 2, vec![6])), Some(vec![5, 6]));
}

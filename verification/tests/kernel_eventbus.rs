use ide_kernel::eventbus::event_type;
use ide_kernel::eventbus::{Durability, EventBus, InMemoryDurableLog, SubscriptionId};
use ide_kernel::json::Json;

fn txn_payload(id: &str) -> Json {
    Json::object(vec![("txn_id".to_string(), Json::text(id.to_string()))])
}

#[test]
fn publish_assigns_monotonic_sequence() {
    let mut bus = EventBus::new(InMemoryDurableLog::new());
    let e1 = bus
        .publish("test.event", Durability::Transient, "C-1", "T-1", Json::empty_object())
        .unwrap();
    let e2 = bus
        .publish("test.event", Durability::Transient, "C-1", "T-1", Json::empty_object())
        .unwrap();
    assert!(e2.sequence > e1.sequence);
    assert_eq!(e1.sequence, 1);
    assert_eq!(e2.sequence, 2);
    assert_eq!(bus.current_sequence(), 2);
}

#[test]
fn durable_events_are_persisted() {
    let mut bus = EventBus::new(InMemoryDurableLog::new());
    bus.publish(
        event_type::TRANSACTION_COMMITTED,
        Durability::Durable,
        "C-1",
        "T-1",
        txn_payload("T-001"),
    )
    .unwrap();
    bus.publish(
        event_type::TRANSACTION_COMMITTED,
        Durability::Durable,
        "C-1",
        "T-2",
        txn_payload("T-002"),
    )
    .unwrap();
    let replayed = bus.replay(1, None).unwrap();
    assert_eq!(replayed.len(), 2);
    assert_eq!(replayed[0].payload.get("txn_id").and_then(|v| v.as_str()), Some("T-001"));
}

#[test]
fn transient_events_are_not_persisted() {
    let mut bus = EventBus::new(InMemoryDurableLog::new());
    bus.publish("cursor.moved", Durability::Transient, "C-1", "T-1", Json::empty_object())
        .unwrap();
    let replayed = bus.replay(1, None).unwrap();
    assert!(replayed.is_empty());
}

#[test]
fn subscriber_receives_published_events() {
    let mut bus = EventBus::new(InMemoryDurableLog::new());
    let sub = SubscriptionId::new();
    bus.subscribe(sub);
    bus.publish("x", Durability::Transient, "C", "T", Json::empty_object()).unwrap();
    let mut count = 0;
    for _event in bus.take_pending() {
        // one delivery to each subscription
        count += bus.subscriber_count();
    }
    assert_eq!(count, 1);
    assert!(bus.take_pending().is_empty());
}

#[test]
fn unsubscribe_removes_subscriber() {
    let mut bus = EventBus::new(InMemoryDurableLog::new());
    let id = bus.subscribe(SubscriptionId::new());
    assert!(bus.unsubscribe(id));
    assert_eq!(bus.subscriber_count(), 0);
    assert!(!bus.unsubscribe(id));
}

#[test]
fn replay_respects_the_range() {
    let mut bus = EventBus::new(InMemoryDurableLog::new());
    for i in 0..5 {
        let d = if i == 2 { Durability::Transient } else { Durability::Durable };
        bus.publish("e", d, "C", "T", Json::uint(i)).unwrap();
    }
    // sequences 1..=5, of which 3 is transient
    let all = bus.replay(1, None).unwrap();
    let seqs: Vec<u64> = all.iter().map(|e| e.sequence).collect();
    assert_eq!(seqs, vec![1, 2, 4, 5]);
    let mid = bus.replay(2, Some(4)).unwrap();
    let seqs: Vec<u64> = mid.iter().map(|e| e.sequence).collect();
    assert_eq!(seqs, vec![2, 4]);
    assert!(bus.replay(6, None).unwrap().is_empty());
    assert!(bus.replay(4, Some(3)).unwrap().is_empty());
}

#[test]
fn envelope_carries_what_was_published() {
    let mut bus = EventBus::new(InMemoryDurableLog::new());
    let e = bus
        .publish("kind", Durability::Durable, "corr", "trace", txn_payload("T-9"))
        .unwrap();
    assert_eq!(e.event_type, "kind");
    assert_eq!(e.correlation_id, "corr");
    assert_eq!(e.trace_id, "trace");
    assert_eq!(e.durability, Durability::Durable);
    assert_eq!(e.payload, txn_payload("T-9"));
    let pending = bus.take_pending();
    assert_eq!(pending.len(), 1);
    assert_eq!(pending[0].event_id, e.event_id);
}

#[test]
fn fresh_ids_differ() {
    assert_ne!(SubscriptionId::new(), SubscriptionId::new());
}

#[test]
fn fresh_identifiers_are_random_uuids() {
    let bits = [
        ide_kernel::eventbus::EventId::new().0,
        ide_kernel::eventbus::SubscriptionId::new().0,
        ide_kernel::session::SessionId::new().0,
        ide_kernel::cmd_bus::CommandId::new().0,
    ];
    for b in bits {
        let u = uuid::Uuid::from_u128(b);
        assert_eq!(u.get_version_num(), 4);
        assert_eq!(u.get_variant(), uuid::Variant::RFC4122);
    }
}

#[test]
fn replay_of_in_memory_log_succeeds_on_empty_range() {
    let bus = EventBus::new(InMemoryDurableLog::new());
    let events = bus.replay(5, Some(3)).unwrap();
    assert!(events.is_empty());
}

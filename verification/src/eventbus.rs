//! The event bus: builds event envelopes with a monotonically increasing
//! sequence number, persists durable events in a log, queues every event for
//! delivery to the subscribers, and replays persisted events by sequence range.

pub mod event_type;

use vstd::prelude::*;
use crate::error::{CoreError, CoreResult};
use crate::json::{Json, JsonModel};
use crate::platform::{fresh_uuid_bits, is_random_uuid, now_utc, UtcTime};
use vstd::string::StringExecFns;

verus! {

/// Whether an event is persisted.
#[derive(Debug, Clone, Copy, PartialEq, Eq, Structural)]
pub enum Durability {
    /// Persisted in the durable log (for example a committed transaction).
    Durable,
    /// Delivered only (for example a cursor move).
    Transient,
}

/// The unique identifier of an event: the 128 bits of a random UUID.
#[derive(Debug, Clone, Copy, PartialEq, Eq, Hash, Structural)]
pub struct EventId(pub u128);

impl EventId {
    /// A fresh random identifier: the bits of a random (version 4) UUID.
    pub fn new() -> (r: Self)
        ensures
            is_random_uuid(r.0),
    {
        EventId(fresh_uuid_bits())
    }
}

/// The position of an event on the bus; replay ranges are given in it.
pub type Sequence = u64;

/// The common header and payload of an event.
#[derive(Debug)]
pub struct EventEnvelope {
    pub event_id: EventId,
    pub event_type: String,
    pub sequence: Sequence,
    pub occurred_at: UtcTime,
    pub durability: Durability,
    pub correlation_id: String,
    pub trace_id: String,
    pub payload: Json,
}

/// The content of an envelope.
pub struct EnvelopeView {
    pub event_id: u128,
    pub event_type: Seq<char>,
    pub sequence: u64,
    pub occurred_at: UtcTime,
    pub durability: Durability,
    pub correlation_id: Seq<char>,
    pub trace_id: Seq<char>,
    pub payload: JsonModel,
}

impl View for EventEnvelope {
    type V = EnvelopeView;

    open spec fn view(&self) -> EnvelopeView {
        EnvelopeView {
            event_id: self.event_id.0,
            event_type: self.event_type@,
            sequence: self.sequence,
            occurred_at: self.occurred_at,
            durability: self.durability,
            correlation_id: self.correlation_id@,
            trace_id: self.trace_id@,
            payload: self.payload@,
        }
    }
}

impl Clone for EventEnvelope {
    fn clone(&self) -> (r: Self)
        ensures
            r@ == self@,
    {
        EventEnvelope {
            event_id: self.event_id,
            event_type: self.event_type.clone(),
            sequence: self.sequence,
            occurred_at: self.occurred_at,
            durability: self.durability,
            correlation_id: self.correlation_id.clone(),
            trace_id: self.trace_id.clone(),
            payload: self.payload.clone(),
        }
    }
}

/// The contents of a sequence of envelopes.
pub open spec fn envelope_views(s: Seq<EventEnvelope>) -> Seq<EnvelopeView> {
    s.map_values(|e: EventEnvelope| e@)
}

/// Whether sequence number `seq` lies in the replay range from `from` up to
/// `to` (both included; no upper end when `to` is `None`).
pub open spec fn in_window(from: u64, to: Option<u64>, seq: u64) -> bool {
    from <= seq && seq <= match to {
        Some(t) => t,
        None => u64::MAX,
    }
}

/// The records of a log that a replay over a range returns, in log order.
pub open spec fn replay_window(records: Seq<EnvelopeView>, from: u64, to: Option<u64>) -> Seq<
    EnvelopeView,
> {
    records.filter(|e: EnvelopeView| in_window(from, to, e.sequence))
}

/// The identifier of a subscription.
#[derive(Debug, Clone, Copy, PartialEq, Eq, Hash, Structural)]
pub struct SubscriptionId(pub u128);

impl SubscriptionId {
    /// A fresh random identifier: the bits of a random (version 4) UUID.
    pub fn new() -> (r: Self)
        ensures
            is_random_uuid(r.0),
    {
        SubscriptionId(fresh_uuid_bits())
    }
}

/// Where durable events are persisted.
pub trait DurableLog: Sized {
    /// The events persisted so far, in the order they were appended.
    spec fn records(&self) -> Seq<EnvelopeView>;

    /// Whether every append is sure to succeed.
    spec fn accepts_appends(&self) -> bool;

    /// Whether every replay is sure to succeed.
    spec fn serves_replays(&self) -> bool;

    /// Persists an event at the end of the log.
    fn append(&mut self, envelope: &EventEnvelope) -> (r: CoreResult<()>)
        ensures
            old(self).accepts_appends() ==> r is Ok,
            r is Ok ==> final(self).records() == old(self).records().push(envelope@),
            r is Ok ==> final(self).accepts_appends() == old(self).accepts_appends(),
            final(self).serves_replays() == old(self).serves_replays(),
    ;

    /// The persisted events whose sequence lies in the range, in log order.
    fn replay(&self, from: Sequence, to: Option<Sequence>) -> (r: CoreResult<Vec<EventEnvelope>>)
        ensures
            self.serves_replays() ==> r is Ok,
            r matches Ok(v) ==> envelope_views(v@) == replay_window(self.records(), from, to),
    ;
}

/// A durable log kept in memory.
#[derive(Debug)]
pub struct InMemoryDurableLog {
    inner: Vec<EventEnvelope>,
}

impl InMemoryDurableLog {
    /// An empty log.
    pub fn new() -> (r: Self)
        ensures
            r.records() == Seq::<EnvelopeView>::empty(),
    {
        let r = InMemoryDurableLog { inner: Vec::new() };
        assert(envelope_views(r.inner@) =~= Seq::<EnvelopeView>::empty());
        r
    }
}

impl DurableLog for InMemoryDurableLog {
    closed spec fn records(&self) -> Seq<EnvelopeView> {
        envelope_views(self.inner@)
    }

    open spec fn accepts_appends(&self) -> bool {
        true
    }

    open spec fn serves_replays(&self) -> bool {
        true
    }

    /// Always succeeds.
    fn append(&mut self, envelope: &EventEnvelope) -> (r: CoreResult<()>)
        ensures
            r is Ok,
    {
        let e = envelope.clone();
        self.inner.push(e);
        assert(envelope_views(self.inner@) =~= envelope_views(old(self).inner@).push(envelope@));
        Ok(())
    }

    /// Always succeeds.
    fn replay(&self, from: Sequence, to: Option<Sequence>) -> (r: CoreResult<Vec<EventEnvelope>>)
        ensures
            r is Ok,
    {
        let upper: u64 = match to {
            Some(t) => t,
            None => u64::MAX,
        };
        let mut out: Vec<EventEnvelope> = Vec::new();
        let mut i: usize = 0;
        let ghost pred = |e: EnvelopeView| in_window(from, to, e.sequence);
        while i < self.inner.len()
            invariant
                i <= self.inner.len(),
                upper == match to {
                    Some(t) => t,
                    None => u64::MAX,
                },
                pred == (|e: EnvelopeView| in_window(from, to, e.sequence)),
                envelope_views(out@) == envelope_views(self.inner@).take(i as int).filter(pred),
            decreases self.inner.len() - i,
        {
            let ghost all = envelope_views(self.inner@);
            assert(all.take(i + 1).drop_last() =~= all.take(i as int));
            assert(all.take(i + 1).last() == self.inner@[i as int]@);
            proof {
                reveal(Seq::filter);
            }
            let e = &self.inner[i];
            let ghost before = out@;
            if from <= e.sequence && e.sequence <= upper {
                let c = e.clone();
                out.push(c);
                assert(envelope_views(out@) =~= envelope_views(before).push(e@));
            }
            i = i + 1;
        }
        assert(envelope_views(self.inner@).take(i as int) =~= envelope_views(self.inner@));
        Ok(out)
    }
}

/// The subscription identifiers a set holds.
pub uninterp spec fn subscription_ids(s: dashmap::DashSet<u128>) -> Set<u128>;

/// Calls `dashmap::DashSet::new`: the new set is empty.
#[verifier::external_body]
fn subscription_set_new() -> (r: dashmap::DashSet<u128>)
    ensures
        subscription_ids(r) == Set::<u128>::empty(),
{
    dashmap::DashSet::new()
}

/// Calls `dashmap::DashSet::insert`: the key is added; the result tells
/// whether it was absent before.
#[verifier::external_body]
fn subscription_set_insert(s: &mut dashmap::DashSet<u128>, key: u128) -> (r: bool)
    ensures
        subscription_ids(*final(s)) == subscription_ids(*old(s)).insert(key),
        r == !subscription_ids(*old(s)).contains(key),
{
    s.insert(key)
}

/// Calls `dashmap::DashSet::remove`: the key is taken out; the result holds
/// it when it was present.
#[verifier::external_body]
fn subscription_set_remove(s: &mut dashmap::DashSet<u128>, key: u128) -> (r: Option<u128>)
    ensures
        subscription_ids(*final(s)) == subscription_ids(*old(s)).remove(key),
        r == (if subscription_ids(*old(s)).contains(key) {
            Some(key)
        } else {
            None
        }),
{
    s.remove(&key)
}

/// Calls `dashmap::DashSet::len`: the number of keys in the set.
#[verifier::external_body]
fn subscription_set_len(s: &dashmap::DashSet<u128>) -> (r: usize)
    ensures
        r == subscription_ids(*s).len(),
{
    s.len()
}

/// A failure of the durable log as the bus reports it: an internal error,
/// which keeps the log's own internal error and otherwise carries the
/// message of the log's error.
fn as_internal(e: CoreError) -> (r: CoreError)
    ensures
        r is Internal,
        e is Internal ==> r == e,
        !(e is Internal) && !(e is Io) ==> r->Internal_0@ == crate::error::error_message(e),
{
    match e {
        CoreError::Internal(_) => e,
        _ => CoreError::Internal(e.to_string()),
    }
}

/// What an event is to carry: everything but its identifier, sequence
/// number and time, which the bus assigns.
pub struct EventSpec {
    pub event_type: Seq<char>,
    pub durability: Durability,
    pub correlation_id: Seq<char>,
    pub trace_id: Seq<char>,
    pub payload: JsonModel,
}

impl EventSpec {
    /// Whether an envelope carries what this describes.
    pub open spec fn matches(self, e: EnvelopeView) -> bool {
        &&& e.event_type == self.event_type
        &&& e.durability == self.durability
        &&& e.correlation_id == self.correlation_id
        &&& e.trace_id == self.trace_id
        &&& e.payload == self.payload
    }
}

/// The event bus.
///
/// Every published event gets the next sequence number. Durable events are
/// appended to the durable log. Every event is also queued for delivery to
/// the subscribers; whoever runs the bus takes the queue with
/// [`EventBus::take_pending`] and hands each event to each subscriber.
pub struct EventBus<L: DurableLog> {
    sequence: u64,
    subscribers: dashmap::DashSet<u128>,
    durable_log: L,
    pending: Vec<EventEnvelope>,
}

impl<L: DurableLog> EventBus<L> {
    /// The sequence number of the last published event; 0 before any.
    pub closed spec fn last_sequence(&self) -> u64 {
        self.sequence
    }

    /// The subscriptions registered.
    pub closed spec fn subscriptions(&self) -> Set<u128> {
        subscription_ids(self.subscribers)
    }

    /// The events the durable log holds.
    pub closed spec fn records(&self) -> Seq<EnvelopeView> {
        self.durable_log.records()
    }

    /// Whether the durable log is sure to accept every append.
    pub closed spec fn accepts_appends(&self) -> bool {
        self.durable_log.accepts_appends()
    }

    /// Whether the durable log is sure to serve every replay.
    pub closed spec fn serves_replays(&self) -> bool {
        self.durable_log.serves_replays()
    }

    /// The events published and not yet taken for delivery.
    pub closed spec fn pending(&self) -> Seq<EnvelopeView> {
        envelope_views(self.pending@)
    }

    /// A bus with no subscriber, no pending delivery and sequence 0, over the
    /// given log.
    pub fn new(durable_log: L) -> (r: Self)
        ensures
            r.last_sequence() == 0,
            r.subscriptions() == Set::<u128>::empty(),
            r.records() == durable_log.records(),
            r.accepts_appends() == durable_log.accepts_appends(),
            r.serves_replays() == durable_log.serves_replays(),
            r.pending() == Seq::<EnvelopeView>::empty(),
    {
        let r = EventBus {
            sequence: 0,
            subscribers: subscription_set_new(),
            durable_log,
            pending: Vec::new(),
        };
        assert(envelope_views(r.pending@) =~= Seq::<EnvelopeView>::empty());
        r
    }

    /// Registers a subscription and returns its identifier.
    pub fn subscribe(&mut self, id: SubscriptionId) -> (r: SubscriptionId)
        ensures
            r == id,
            final(self).subscriptions() == old(self).subscriptions().insert(id.0),
            final(self).last_sequence() == old(self).last_sequence(),
            final(self).records() == old(self).records(),
            final(self).serves_replays() == old(self).serves_replays(),
            final(self).pending() == old(self).pending(),
    {
        subscription_set_insert(&mut self.subscribers, id.0);
        id
    }

    /// Removes a subscription; `true` when it was registered.
    pub fn unsubscribe(&mut self, id: SubscriptionId) -> (r: bool)
        ensures
            r == old(self).subscriptions().contains(id.0),
            final(self).subscriptions() == old(self).subscriptions().remove(id.0),
            final(self).last_sequence() == old(self).last_sequence(),
            final(self).records() == old(self).records(),
            final(self).serves_replays() == old(self).serves_replays(),
            final(self).pending() == old(self).pending(),
    {
        subscription_set_remove(&mut self.subscribers, id.0).is_some()
    }

    /// The number of subscriptions.
    pub fn subscriber_count(&self) -> (r: usize)
        ensures
            r == self.subscriptions().len(),
    {
        subscription_set_len(&self.subscribers)
    }

    /// The sequence number of the last published event; 0 before any.
    pub fn current_sequence(&self) -> (r: Sequence)
        ensures
            r == self.last_sequence(),
    {
        self.sequence
    }

    /// Publishes an event: gives it the next sequence number, persists it
    /// when it is durable, and queues it for delivery.
    ///
    /// The only failure is the durable log refusing the event, reported as
    /// an internal error; the sequence number is used up all the same.
    pub fn publish(
        &mut self,
        event_type: &str,
        durability: Durability,
        correlation_id: &str,
        trace_id: &str,
        payload: Json,
    ) -> (r: CoreResult<EventEnvelope>)
        requires
            old(self).last_sequence() < u64::MAX,
        ensures
            publish_attempted(
                *old(self),
                *final(self),
                EventSpec {
                    event_type: event_type@,
                    durability,
                    correlation_id: correlation_id@,
                    trace_id: trace_id@,
                    payload: payload@,
                },
            ),
            match r {
                Ok(e) => published(
                    *old(self),
                    *final(self),
                    EventSpec {
                        event_type: event_type@,
                        durability,
                        correlation_id: correlation_id@,
                        trace_id: trace_id@,
                        payload: payload@,
                    },
                ) && e@ == final(self).pending().last(),
                Err(e) => e is Internal && durability == Durability::Durable
                    && !old(self).accepts_appends() && final(self).pending() == old(self).pending(),
            },
    {
        self.sequence = self.sequence + 1;
        let envelope = EventEnvelope {
            event_id: EventId::new(),
            event_type: String::from_str(event_type),
            sequence: self.sequence,
            occurred_at: now_utc(),
            durability,
            correlation_id: String::from_str(correlation_id),
            trace_id: String::from_str(trace_id),
            payload,
        };
        match durability {
            Durability::Durable => {
                let appended = self.durable_log.append(&envelope);
                if let Err(e) = appended {
                    return Err(as_internal(e));
                }
            },
            Durability::Transient => {},
        }
        let queued = envelope.clone();
        let ghost before = self.pending@;
        self.pending.push(queued);
        assert(envelope_views(self.pending@) =~= envelope_views(before).push(envelope@));
        assert(self.pending().drop_last() =~= old(self).pending());
        assert(self.pending().last() == envelope@);
        Ok(envelope)
    }

    /// The persisted events whose sequence lies between `from` and `to`
    /// (both included; no upper end when `to` is `None`), in log order. It
    /// fails only where the durable log fails the replay, with an internal
    /// error.
    pub fn replay(&self, from: Sequence, to: Option<Sequence>) -> (r: CoreResult<Vec<EventEnvelope>>)
        ensures
            self.serves_replays() ==> r is Ok,
            r matches Err(e) ==> e is Internal,
            r matches Ok(v) ==> envelope_views(v@) == replay_window(self.records(), from, to),
    {
        match self.durable_log.replay(from, to) {
            Ok(v) => Ok(v),
            Err(e) => Err(as_internal(e)),
        }
    }

    /// Takes the events queued for delivery, oldest first, and empties the
    /// queue.
    pub fn take_pending(&mut self) -> (r: Vec<EventEnvelope>)
        ensures
            envelope_views(r@) == old(self).pending(),
            final(self).pending() == Seq::<EnvelopeView>::empty(),
            final(self).last_sequence() == old(self).last_sequence(),
            final(self).subscriptions() == old(self).subscriptions(),
            final(self).records() == old(self).records(),
            final(self).serves_replays() == old(self).serves_replays(),
    {
        let mut taken: Vec<EventEnvelope> = Vec::new();
        std::mem::swap(&mut taken, &mut self.pending);
        assert(envelope_views(self.pending@) =~= Seq::<EnvelopeView>::empty());
        taken
    }
}

/// `after` is `before` with one more event published as `spec` describes: it
/// got the next sequence number and a fresh random identifier, it is queued
/// for delivery, and it is in the
/// durable log exactly when it is durable.
pub open spec fn published<L: DurableLog>(before: EventBus<L>, after: EventBus<L>, spec: EventSpec) -> bool {
    let e = after.pending().last();
    &&& after.last_sequence() == before.last_sequence() + 1
    &&& after.subscriptions() == before.subscriptions()
    &&& after.accepts_appends() == before.accepts_appends()
    &&& after.serves_replays() == before.serves_replays()
    &&& after.pending().len() == before.pending().len() + 1
    &&& after.pending().drop_last() == before.pending()
    &&& e.sequence == after.last_sequence()
    &&& is_random_uuid(e.event_id)
    &&& spec.matches(e)
    &&& spec.durability == Durability::Durable ==> after.records() == before.records().push(e)
    &&& spec.durability == Durability::Transient ==> after.records() == before.records()
}

/// `after` is `before` after an attempt to publish an event as `spec`
/// describes: either it was published, or the durable log refused it, in
/// which case the sequence number is used up and nothing is queued. When the
/// log accepts every append, or the event is transient, it was published.
pub open spec fn publish_attempted<L: DurableLog>(
    before: EventBus<L>,
    after: EventBus<L>,
    spec: EventSpec,
) -> bool {
    &&& (before.accepts_appends() || spec.durability == Durability::Transient) ==> published(
        before,
        after,
        spec,
    )
    &&& published(before, after, spec) || {
        &&& spec.durability == Durability::Durable
        &&& after.last_sequence() == before.last_sequence() + 1
        &&& after.subscriptions() == before.subscriptions()
        &&& after.serves_replays() == before.serves_replays()
        &&& after.pending() == before.pending()
    }
}

/// Two events published one after the other get increasing sequence
/// numbers, one apart; the later one is the bus's current sequence number,
/// and on a fresh bus the first event gets sequence number 1.
pub proof fn lemma_sequences_increase<L: DurableLog>(
    b0: EventBus<L>,
    b1: EventBus<L>,
    b2: EventBus<L>,
    s1: EventSpec,
    s2: EventSpec,
)
    requires
        published(b0, b1, s1),
        published(b1, b2, s2),
    ensures
        b1.pending().last().sequence < b2.pending().last().sequence,
        b2.pending().last().sequence == b1.pending().last().sequence + 1,
        b2.last_sequence() == b0.last_sequence() + 2,
        b2.pending().last().sequence == b2.last_sequence(),
        b0.last_sequence() == 0 ==> b1.pending().last().sequence == 1,
{
}

/// A published durable event is what a replay over a range holding its
/// sequence number finds after what it found before.
pub proof fn lemma_replay_finds_durable_event<L: DurableLog>(
    before: EventBus<L>,
    after: EventBus<L>,
    spec: EventSpec,
    from: u64,
    to: Option<u64>,
)
    requires
        published(before, after, spec),
        spec.durability == Durability::Durable,
        in_window(from, to, after.last_sequence()),
    ensures
        replay_window(after.records(), from, to) == replay_window(before.records(), from, to).push(
            after.pending().last(),
        ),
{
    reveal(Seq::filter);
    let e = after.pending().last();
    assert(after.records().drop_last() =~= before.records());
    assert(after.records().last() == e);
}

/// A replay over a range not holding a published durable event's sequence
/// number finds what it found before.
pub proof fn lemma_replay_outside_window<L: DurableLog>(
    before: EventBus<L>,
    after: EventBus<L>,
    spec: EventSpec,
    from: u64,
    to: Option<u64>,
)
    requires
        published(before, after, spec),
        !in_window(from, to, after.last_sequence()),
    ensures
        replay_window(after.records(), from, to) == replay_window(before.records(), from, to),
{
    reveal(Seq::filter);
    if spec.durability == Durability::Durable {
        assert(after.records().drop_last() =~= before.records());
    }
}

/// Publishing a transient event changes no replay.
pub proof fn lemma_replay_ignores_transient<L: DurableLog>(
    before: EventBus<L>,
    after: EventBus<L>,
    spec: EventSpec,
    from: u64,
    to: Option<u64>,
)
    requires
        published(before, after, spec),
        spec.durability == Durability::Transient,
    ensures
        replay_window(after.records(), from, to) == replay_window(before.records(), from, to),
{
}

} // verus!

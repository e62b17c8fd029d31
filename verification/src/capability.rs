//! The capability registry: providers announce the capabilities they
//! implement (such as `text.search` or `ai.chat`) with a priority, and a
//! capability is routed to its provider of highest priority.

use vstd::prelude::*;
use crate::error::{CoreError, CoreResult};
use crate::eventbus::event_type::{CAPABILITY_REGISTERED, CAPABILITY_UNREGISTERED};
use crate::eventbus::{published, publish_attempted, DurableLog, Durability, EventBus, EventSpec};
use crate::json::{Json, JsonModel, JsonNumber};
use std::sync::Arc;
use vstd::string::StringExecFns;

verus! {

/// The name of a capability, such as `text.search`.
pub type CapabilityId = String;

/// The priority of a provider; the higher one wins.
#[derive(Debug, Clone, Copy, PartialEq, Eq, PartialOrd, Ord, Structural)]
pub struct Priority(pub u32);

impl Default for Priority {
    /// Priority 100.
    fn default() -> (r: Self)
        ensures
            r == Priority(100),
    {
        Priority(100)
    }
}

/// How far a capability reaches into the workspace.
#[derive(Debug, Clone, Copy, PartialEq, Eq, Structural)]
pub enum SideEffectLevel {
    /// Reads only (for example `buffer.read`).
    ReadOnly,
    /// Writes a buffer or a file of the workspace (for example `file.patch`).
    WorkspaceMutation,
    /// Changes that span a transaction (for example `txn.commit`).
    Transactional,
}

/// What a provider says of a capability it implements.
#[derive(Debug)]
pub struct CapabilityManifest {
    pub capability_id: CapabilityId,
    pub description: String,
    pub version: String,
    pub side_effect_level: SideEffectLevel,
}

impl Clone for CapabilityManifest {
    fn clone(&self) -> (r: Self)
        ensures
            r == *self,
    {
        CapabilityManifest {
            capability_id: self.capability_id.clone(),
            description: self.description.clone(),
            version: self.version.clone(),
            side_effect_level: self.side_effect_level,
        }
    }
}

/// The provider behind a registration, as the registry knows it: a handle
/// that whoever runs the kernel uses to find the provider object, and the
/// provider's name.
#[derive(Debug)]
pub struct ProviderHandle {
    pub id: u64,
    pub name: String,
}

impl Clone for ProviderHandle {
    fn clone(&self) -> (r: Self)
        ensures
            r == *self,
    {
        ProviderHandle { id: self.id, name: self.name.clone() }
    }
}

/// One registration of a provider for a capability.
#[derive(Debug)]
pub struct ProviderEntry {
    pub provider: ProviderHandle,
    pub manifest: CapabilityManifest,
    pub priority: Priority,
}

impl Clone for ProviderEntry {
    fn clone(&self) -> (r: Self)
        ensures
            r == *self,
    {
        ProviderEntry {
            provider: self.provider.clone(),
            manifest: self.manifest.clone(),
            priority: self.priority,
        }
    }
}

/// Registrations ordered from the highest priority down.
pub open spec fn priority_sorted(s: Seq<ProviderEntry>) -> bool {
    forall|i: int, j: int| 0 <= i < j < s.len() ==> s[i].priority.0 >= s[j].priority.0
}

/// How many registrations at the front of `s` have priority `p` or higher.
pub open spec fn insertion_point(s: Seq<ProviderEntry>, p: u32) -> nat
    decreases s.len(),
{
    if s.len() > 0 && s[0].priority.0 >= p {
        1 + insertion_point(s.drop_first(), p)
    } else {
        0
    }
}

/// `s` with `e` added after every registration of priority `e.priority` or
/// higher: where a stable sort by descending priority puts a registration
/// added last.
pub open spec fn insert_by_priority(s: Seq<ProviderEntry>, e: ProviderEntry) -> Seq<ProviderEntry> {
    let k = insertion_point(s, e.priority.0) as int;
    s.take(k) + seq![e] + s.skip(k)
}

/// The registrations of `s` whose provider is not named `name`, in order.
pub open spec fn without_provider(s: Seq<ProviderEntry>, name: Seq<char>) -> Seq<ProviderEntry> {
    s.filter(not_named(name))
}

/// Whether a registration's provider is not named `name`.
pub open spec fn not_named(name: Seq<char>) -> spec_fn(ProviderEntry) -> bool {
    |e: ProviderEntry| e.provider.name@ != name
}

/// The registrations of each capability, by the capability's name.
pub uninterp spec fn provider_table(m: ProviderTable) -> Map<Seq<char>, Seq<ProviderEntry>>;

/// The table the registry keeps its registrations in.
pub type ProviderTable = dashmap::DashMap<String, Vec<ProviderEntry>>;

/// Calls `dashmap::DashMap::new`: the new table is empty.
#[verifier::external_body]
fn provider_table_new() -> (r: ProviderTable)
    ensures
        provider_table(r).is_empty(),
{
    dashmap::DashMap::new()
}

/// Calls `dashmap::DashMap::get` and copies the registrations found with
/// `Vec::clone`, which copies each with the library's verified
/// `ProviderEntry::clone`.
#[verifier::external_body]
fn provider_table_get(m: &ProviderTable, key: &str) -> (r: Option<Vec<ProviderEntry>>)
    ensures
        match r {
            Some(v) => provider_table(*m).contains_key(key@) && v@ == provider_table(*m)[key@],
            None => !provider_table(*m).contains_key(key@),
        },
{
    match m.get(key) {
        Some(entry) => Some(Vec::clone(&entry)),
        None => None,
    }
}

/// Calls `dashmap::DashMap::insert`: `value` is stored under `key`,
/// replacing what was stored there.
#[verifier::external_body]
fn provider_table_insert(m: &mut ProviderTable, key: String, value: Vec<ProviderEntry>) -> (r:
    Option<Vec<ProviderEntry>>)
    ensures
        provider_table(*final(m)) == provider_table(*old(m)).insert(key@, value@),
        match r {
            Some(v) => provider_table(*old(m)).contains_key(key@) && v@ == provider_table(
                *old(m),
            )[key@],
            None => !provider_table(*old(m)).contains_key(key@),
        },
{
    m.insert(key, value)
}

/// Calls `dashmap::DashMap::iter` and copies every entry out, in the order
/// the iteration walks the shards (which the contract leaves open): each key
/// of the table once, with its registrations.
#[verifier::external_body]
fn provider_table_entries(m: &ProviderTable) -> (r: Vec<(String, Vec<ProviderEntry>)>)
    ensures
        forall|i: int|
            0 <= i < r@.len() ==> provider_table(*m).contains_key(#[trigger] r@[i].0@)
                && r@[i].1@ == provider_table(*m)[r@[i].0@],
        forall|i: int, j: int| 0 <= i < j < r@.len() ==> r@[i].0@ != r@[j].0@,
        forall|k: Seq<char>|
            #[trigger] provider_table(*m).contains_key(k) ==> exists|i: int|
                0 <= i < r@.len() && r@[i].0@ == k,
{
    let mut out = Vec::new();
    for entry in m.iter() {
        out.push((entry.key().clone(), Vec::clone(entry.value())));
    }
    out
}

/// Whether `e` reports that capability `name` has no provider.
pub open spec fn is_capability_not_found(e: CoreError, name: Seq<char>) -> bool {
    e matches CoreError::CapabilityNotFound(m) && m@ == name
}

/// The event announcing a registration.
pub open spec fn capability_registered_event(manifest: CapabilityManifest, priority: Priority) -> EventSpec {
    EventSpec {
        event_type: CAPABILITY_REGISTERED@,
        durability: Durability::Durable,
        correlation_id: manifest.capability_id@,
        trace_id: Seq::empty(),
        payload: JsonModel::Object(
            seq![
                ("capability_id"@, JsonModel::String(manifest.capability_id@)),
                ("version"@, JsonModel::String(manifest.version@)),
                ("priority"@, JsonModel::Number(JsonNumber::PosInt(priority.0 as u64))),
            ],
        ),
    }
}

/// The event announcing that a provider's registrations were removed.
pub open spec fn capability_unregistered_event(capability_id: Seq<char>, provider: Seq<char>) -> EventSpec {
    EventSpec {
        event_type: CAPABILITY_UNREGISTERED@,
        durability: Durability::Durable,
        correlation_id: capability_id,
        trace_id: Seq::empty(),
        payload: JsonModel::Object(
            seq![
                ("capability_id"@, JsonModel::String(capability_id)),
                ("provider"@, JsonModel::String(provider)),
            ],
        ),
    }
}

/// Filtering keeps the relative order of what it keeps: two kept elements
/// come from two elements of the original in the same order.
pub proof fn lemma_filter_keeps_order(s: Seq<ProviderEntry>, pred: spec_fn(ProviderEntry) -> bool, a: int, b: int)
    requires
        priority_sorted(s),
        0 <= a < b < s.filter(pred).len(),
    ensures
        s.filter(pred)[a].priority.0 >= s.filter(pred)[b].priority.0,
    decreases s.len(),
{
    reveal(Seq::filter);
    let rest = s.drop_last();
    assert(priority_sorted(rest));
    rest.lemma_filter_len(pred);
    if pred(s.last()) {
        if b < s.filter(pred).len() - 1 {
            lemma_filter_keeps_order(rest, pred, a, b);
        } else {
            lemma_filter_member(rest, pred, a);
            let i = choose|i: int| 0 <= i < rest.len() && rest[i] == rest.filter(pred)[a];
            assert(s[i] == rest[i]);
            assert(s.filter(pred)[b] == s.last());
        }
    } else {
        lemma_filter_keeps_order(rest, pred, a, b);
    }
}

/// Every element a filter keeps is an element of the original.
pub proof fn lemma_filter_member(s: Seq<ProviderEntry>, pred: spec_fn(ProviderEntry) -> bool, a: int)
    requires
        0 <= a < s.filter(pred).len(),
    ensures
        exists|i: int| 0 <= i < s.len() && s[i] == s.filter(pred)[a],
    decreases s.len(),
{
    reveal(Seq::filter);
    let rest = s.drop_last();
    rest.lemma_filter_len(pred);
    if pred(s.last()) && a == s.filter(pred).len() - 1 {
        assert(s[s.len() - 1] == s.filter(pred)[a]);
    } else {
        lemma_filter_member(rest, pred, a);
        let i = choose|i: int| 0 <= i < rest.len() && rest[i] == rest.filter(pred)[a];
        assert(s[i] == s.filter(pred)[a]);
    }
}

/// The registry of capability providers.
pub struct CapabilityRegistry {
    providers: ProviderTable,
}

impl CapabilityRegistry {
    /// The registrations of each capability, highest priority first.
    pub closed spec fn entries(&self) -> Map<Seq<char>, Seq<ProviderEntry>> {
        provider_table(self.providers)
    }

    /// Every capability's registrations are ordered by priority and are all
    /// for that capability.
    pub open spec fn wf(&self) -> bool {
        forall|k: Seq<char>|
            #[trigger] self.entries().contains_key(k) ==> {
                &&& priority_sorted(self.entries()[k])
                &&& forall|i: int|
                    0 <= i < self.entries()[k].len() ==> #[trigger] self.entries()[k][i].manifest.capability_id@
                        == k
            }
    }

    /// The registration a capability is routed to: its first, of highest
    /// priority; `None` when it has none.
    pub open spec fn routed(&self, capability_id: Seq<char>) -> Option<ProviderEntry> {
        if self.entries().contains_key(capability_id) && self.entries()[capability_id].len() > 0 {
            Some(self.entries()[capability_id][0])
        } else {
            None
        }
    }

    /// A registry with no registration.
    pub fn new() -> (r: Self)
        ensures
            r.wf(),
            r.entries().is_empty(),
    {
        CapabilityRegistry { providers: provider_table_new() }
    }

    /// The position at which a registration of priority `p` goes in a
    /// priority-ordered list: after every registration of priority `p` or
    /// higher.
    fn insertion_index(list: &Vec<ProviderEntry>, p: u32) -> (r: usize)
        requires
            priority_sorted(list@),
        ensures
            r == insertion_point(list@, p),
            r <= list@.len(),
            forall|i: int| 0 <= i < r ==> list@[i].priority.0 >= p,
            forall|i: int| r <= i < list@.len() ==> list@[i].priority.0 < p,
    {
        let mut i: usize = 0;
        assert(list@.skip(0) =~= list@);
        while i < list.len() && list[i].priority.0 >= p
            invariant
                i <= list@.len(),
                priority_sorted(list@),
                forall|j: int| 0 <= j < i ==> list@[j].priority.0 >= p,
                insertion_point(list@, p) == i + insertion_point(list@.skip(i as int), p),
            decreases list@.len() - i,
        {
            assert(list@.skip(i as int).drop_first() =~= list@.skip(i + 1));
            i = i + 1;
        }
        if i < list.len() {
            assert(list@.skip(i as int)[0] == list@[i as int]);
        }
        i
    }

    /// Registers `provider` for the capability its manifest names, after
    /// every registration of the same or higher priority, and announces it
    /// with a durable `capability.registered` event carrying the capability,
    /// its version and the priority.
    ///
    /// The registration stays even when the durable log refuses the event;
    /// the refusal is then the result.
    pub fn register<L: DurableLog>(
        &mut self,
        bus: &mut EventBus<L>,
        manifest: CapabilityManifest,
        provider: ProviderHandle,
        priority: Priority,
    ) -> (r: CoreResult<()>)
        requires
            old(self).wf(),
            old(bus).last_sequence() < u64::MAX,
        ensures
            final(self).wf(),
            final(self).entries() == old(self).entries().insert(
                manifest.capability_id@,
                insert_by_priority(
                    if old(self).entries().contains_key(manifest.capability_id@) {
                        old(self).entries()[manifest.capability_id@]
                    } else {
                        Seq::empty()
                    },
                    ProviderEntry { provider, manifest, priority },
                ),
            ),
            publish_attempted(*old(bus), *final(bus), capability_registered_event(manifest, priority)),
            r is Ok <==> published(*old(bus), *final(bus), capability_registered_event(manifest, priority)),
    {
        let ghost k = manifest.capability_id@;
        let ghost before: Seq<ProviderEntry> = if self.entries().contains_key(k) {
            self.entries()[k]
        } else {
            Seq::empty()
        };
        let key = manifest.capability_id.clone();
        let mut list = match provider_table_get(&self.providers, key.as_str()) {
            Some(v) => v,
            None => Vec::new(),
        };
        assert(list@ == before);
        let pos = Self::insertion_index(&list, priority.0);
        let entry = ProviderEntry { provider, manifest: manifest.clone(), priority };
        let ghost e = entry;
        list.insert(pos, entry);
        assert(list@ =~= insert_by_priority(before, e));
        proof {
            assert forall|i: int, j: int| 0 <= i < j < list@.len() implies list@[i].priority.0
                >= list@[j].priority.0 by {
                if j < pos {
                } else if j == pos {
                } else if i < pos {
                } else if i == pos {
                    assert(list@[j] == before[j - 1]);
                } else {
                    assert(list@[i] == before[i - 1]);
                    assert(list@[j] == before[j - 1]);
                }
            }
            assert forall|i: int| 0 <= i < list@.len() implies #[trigger] list@[i].manifest.capability_id@ == k by {
                if i < pos {
                    assert(list@[i] == before[i]);
                } else if i > pos {
                    assert(list@[i] == before[i - 1]);
                }
            }
        }
        provider_table_insert(&mut self.providers, key, list);
        let f1 = (String::from_str("capability_id"), Json::text(manifest.capability_id.clone()));
        let f2 = (String::from_str("version"), Json::text(manifest.version.clone()));
        let f3 = (String::from_str("priority"), Json::uint(priority.0 as u64));
        proof {
            crate::json::lemma_member_models_three(f1, f2, f3);
        }
        let mut fields: Vec<(String, Json)> = Vec::new();
        fields.push(f1);
        fields.push(f2);
        fields.push(f3);
        assert(fields@ =~= seq![f1, f2, f3]);
        let outcome = bus.publish(
            CAPABILITY_REGISTERED,
            Durability::Durable,
            manifest.capability_id.as_str(),
            "",
            Json::object(fields),
        );
        proof {
            reveal_strlit("");
        }
        let ghost spec = capability_registered_event(manifest, priority);
        assert(JsonModel::Object(crate::json::member_models(fields@)) == spec.payload);
        assert(""@ == spec.trace_id);
        match outcome {
            Ok(_) => Ok(()),
            Err(err) => Err(err),
        }
    }

    /// Removes the registrations of the provider named `provider_name` for
    /// a capability. When any was removed, announces it with a durable
    /// `capability.unregistered` event. The capability stays known, with the
    /// registrations left (possibly none).
    pub fn unregister<L: DurableLog>(
        &mut self,
        bus: &mut EventBus<L>,
        capability_id: &str,
        provider_name: &str,
    ) -> (r: CoreResult<()>)
        requires
            old(self).wf(),
            old(bus).last_sequence() < u64::MAX,
        ensures
            final(self).wf(),
            !old(self).entries().contains_key(capability_id@) ==> {
                &&& r matches Err(e) && is_capability_not_found(e, capability_id@)
                &&& final(self).entries() == old(self).entries()
                &&& *final(bus) == *old(bus)
            },
            old(self).entries().contains_key(capability_id@) ==> {
                let kept = without_provider(old(self).entries()[capability_id@], provider_name@);
                &&& final(self).entries() == old(self).entries().insert(capability_id@, kept)
                &&& kept.len() < old(self).entries()[capability_id@].len() ==> {
                    &&& publish_attempted(
                        *old(bus),
                        *final(bus),
                        capability_unregistered_event(capability_id@, provider_name@),
                    )
                    &&& r is Ok <==> published(
                        *old(bus),
                        *final(bus),
                        capability_unregistered_event(capability_id@, provider_name@),
                    )
                }
                &&& kept.len() == old(self).entries()[capability_id@].len() ==> {
                    &&& r is Ok
                    &&& *final(bus) == *old(bus)
                }
            },
    {
        let list = match provider_table_get(&self.providers, capability_id) {
            Some(v) => v,
            None => {
                let mut m = String::from_str(capability_id);
                return Err(CoreError::CapabilityNotFound(m));
            },
        };
        let ghost k = capability_id@;
        let ghost before = list@;
        let ghost pred = not_named(provider_name@);
        let mut kept: Vec<ProviderEntry> = Vec::new();
        let mut i: usize = 0;
        while i < list.len()
            invariant
                i <= list@.len(),
                before == list@,
                pred == not_named(provider_name@),
                kept@ == before.take(i as int).filter(pred),
            decreases list@.len() - i,
        {
            assert(before.take(i + 1).drop_last() =~= before.take(i as int));
            assert(before.take(i + 1).last() == before[i as int]);
            proof {
                reveal(Seq::filter);
            }
            if !crate::text::str_equal(list[i].provider.name.as_str(), provider_name) {
                kept.push(list[i].clone());
            }
            i = i + 1;
        }
        assert(before.take(i as int) =~= before);
        let ghost kept_seq = kept@;
        proof {
            before.lemma_filter_len(pred);
            assert forall|a: int, b: int| 0 <= a < b < kept_seq.len() implies kept_seq[a].priority.0
                >= kept_seq[b].priority.0 by {
                lemma_filter_keeps_order(before, pred, a, b);
            }
            assert forall|a: int| 0 <= a < kept_seq.len() implies #[trigger] kept_seq[a].manifest.capability_id@
                == k by {
                lemma_filter_member(before, pred, a);
            }
        }
        let removed = kept.len() < list.len();
        provider_table_insert(&mut self.providers, String::from_str(capability_id), kept);
        if removed {
            let f1 = (String::from_str("capability_id"), Json::text(String::from_str(capability_id)));
            let f2 = (String::from_str("provider"), Json::text(String::from_str(provider_name)));
            proof {
                crate::json::lemma_member_models_small(f1, f2);
            }
            let mut fields: Vec<(String, Json)> = Vec::new();
            fields.push(f1);
            fields.push(f2);
            assert(fields@ =~= seq![f1, f2]);
            let outcome = bus.publish(
                CAPABILITY_UNREGISTERED,
                Durability::Durable,
                capability_id,
                "",
                Json::object(fields),
            );
            proof {
                reveal_strlit("");
            }
            let ghost spec = capability_unregistered_event(capability_id@, provider_name@);
            assert(JsonModel::Object(crate::json::member_models(fields@)) == spec.payload);
            assert(""@ == spec.trace_id);
            match outcome {
                Ok(_) => Ok(()),
                Err(err) => Err(err),
            }
        } else {
            Ok(())
        }
    }

    /// The registration of highest priority for a capability, the earliest
    /// among equals.
    pub fn route(&self, capability_id: &str) -> (r: CoreResult<Arc<ProviderEntry>>)
        ensures
            match self.routed(capability_id@) {
                Some(e) => r matches Ok(a) && *a == e,
                None => r matches Err(err) && is_capability_not_found(err, capability_id@),
            },
    {
        match provider_table_get(&self.providers, capability_id) {
            Some(list) => {
                if list.len() > 0 {
                    Ok(Arc::new(list[0].clone()))
                } else {
                    Err(CoreError::CapabilityNotFound(String::from_str(capability_id)))
                }
            },
            None => Err(CoreError::CapabilityNotFound(String::from_str(capability_id))),
        }
    }

    /// The manifest of the registration a capability is routed to.
    pub fn manifest(&self, capability_id: &str) -> (r: Option<CapabilityManifest>)
        ensures
            r == match self.routed(capability_id@) {
                Some(e) => Some(e.manifest),
                None => None::<CapabilityManifest>,
            },
    {
        match provider_table_get(&self.providers, capability_id) {
            Some(list) => {
                if list.len() > 0 {
                    Some(list[0].manifest.clone())
                } else {
                    None
                }
            },
            None => None,
        }
    }

    /// One manifest per capability that has a registration: that of the
    /// registration it is routed to. The order is left open.
    pub fn list(&self) -> (r: Vec<CapabilityManifest>)
        requires
            self.wf(),
        ensures
            forall|i: int|
                0 <= i < r@.len() ==> self.routed(#[trigger] r@[i].capability_id@) == Some(
                    self.entries()[r@[i].capability_id@][0],
                ) && r@[i] == self.entries()[r@[i].capability_id@][0].manifest,
            forall|i: int, j: int|
                0 <= i < j < r@.len() ==> r@[i].capability_id@ != r@[j].capability_id@,
            forall|k: Seq<char>|
                #[trigger] self.routed(k) is Some ==> exists|i: int|
                    0 <= i < r@.len() && r@[i].capability_id@ == k,
    {
        let all = provider_table_entries(&self.providers);
        let mut out: Vec<CapabilityManifest> = Vec::new();
        let ghost mut origin: Seq<int> = Seq::empty();
        let mut i: usize = 0;
        while i < all.len()
            invariant
                i <= all@.len(),
                self.wf(),
                forall|a: int|
                    0 <= a < all@.len() ==> self.entries().contains_key(#[trigger] all@[a].0@)
                        && all@[a].1@ == self.entries()[all@[a].0@],
                forall|a: int, b: int| 0 <= a < b < all@.len() ==> all@[a].0@ != all@[b].0@,
                origin.len() == out@.len(),
                forall|a: int| 0 <= a < out@.len() ==> 0 <= #[trigger] origin[a] < i,
                forall|a: int, b: int| 0 <= a < b < out@.len() ==> origin[a] < origin[b],
                forall|a: int|
                    0 <= a < out@.len() ==> {
                        let k = all@[origin[a]].0@;
                        &&& self.routed(k) is Some
                        &&& #[trigger] out@[a] == self.entries()[k][0].manifest
                        &&& out@[a].capability_id@ == k
                    },
                forall|c: int|
                    0 <= c < i && self.routed(all@[c].0@) is Some ==> exists|a: int|
                        0 <= a < out@.len() && origin[a] == c,
            decreases all@.len() - i,
        {
            let ghost old_origin = origin;
            let ghost old_len = out@.len();
            if all[i].1.len() > 0 {
                let m = all[i].1[0].manifest.clone();
                proof {
                    let k = all@[i as int].0@;
                    assert(self.entries()[k][0].manifest.capability_id@ == k);
                }
                out.push(m);
                proof {
                    origin = origin.push(i as int);
                }
            }
            proof {
                assert forall|c: int|
                    0 <= c < i + 1 && self.routed(all@[c].0@) is Some implies exists|a: int|
                        0 <= a < out@.len() && origin[a] == c by {
                    if c < i {
                        let a = choose|a: int| 0 <= a < old_len && old_origin[a] == c;
                        assert(origin[a] == c);
                    } else {
                        assert(origin[out@.len() - 1] == c);
                    }
                }
            }
            i = i + 1;
        }
        proof {
            assert forall|k: Seq<char>| #[trigger] self.routed(k) is Some implies exists|a: int|
                0 <= a < out@.len() && out@[a].capability_id@ == k by {
                let c = choose|c: int| 0 <= c < all@.len() && all@[c].0@ == k;
                let a = choose|a: int| 0 <= a < out@.len() && origin[a] == c;
                assert(out@[a].capability_id@ == k);
            }
        }
        out
    }
}

/// The registration a capability is routed to has the highest priority of
/// all its registrations.
pub proof fn lemma_route_picks_highest_priority(reg: CapabilityRegistry, k: Seq<char>, i: int)
    requires
        reg.wf(),
        reg.routed(k) is Some,
        0 <= i < reg.entries()[k].len(),
    ensures
        reg.entries()[k][i].priority.0 <= reg.routed(k)->0.priority.0,
{
    if i > 0 {
        assert(priority_sorted(reg.entries()[k]));
    }
}

/// The insertion point lies within the sequence.
pub proof fn lemma_insertion_point_bound(s: Seq<ProviderEntry>, p: u32)
    ensures
        insertion_point(s, p) <= s.len(),
    decreases s.len(),
{
    if s.len() > 0 {
        lemma_insertion_point_bound(s.drop_first(), p);
    }
}

/// After a registration, a capability is routed to the new registration
/// exactly when its priority is higher than that of every earlier one;
/// otherwise to the one it was routed to before.
pub proof fn lemma_register_routing(s: Seq<ProviderEntry>, e: ProviderEntry)
    requires
        priority_sorted(s),
    ensures
        insert_by_priority(s, e)[0] == (if s.len() == 0 || s[0].priority.0 < e.priority.0 {
            e
        } else {
            s[0]
        }),
{
    let k = insertion_point(s, e.priority.0);
    lemma_insertion_point_bound(s, e.priority.0);
    if s.len() > 0 && s[0].priority.0 >= e.priority.0 {
        assert(k >= 1);
        assert(insert_by_priority(s, e)[0] == s.take(k as int)[0]);
    } else {
        assert(k == 0);
        assert(insert_by_priority(s, e)[0] == seq![e][0]);
    }
}

/// No registration of the removed provider is left.
pub proof fn lemma_unregister_removes_all(s: Seq<ProviderEntry>, name: Seq<char>, i: int)
    requires
        0 <= i < without_provider(s, name).len(),
    ensures
        without_provider(s, name)[i].provider.name@ != name,
{
    s.lemma_filter_pred(not_named(name), i);
}

/// Every registration at the front of `s` up to its insertion point has
/// priority `p` or higher; the one at the insertion point, if any, has less.
proof fn lemma_insertion_point_split(s: Seq<ProviderEntry>, p: u32)
    ensures
        insertion_point(s, p) <= s.len(),
        forall|i: int| 0 <= i < insertion_point(s, p) ==> #[trigger] s[i].priority.0 >= p,
        insertion_point(s, p) < s.len() ==> s[insertion_point(s, p) as int].priority.0 < p,
    decreases s.len(),
{
    if s.len() > 0 && s[0].priority.0 >= p {
        let t = s.drop_first();
        lemma_insertion_point_split(t, p);
        assert forall|i: int| 0 <= i < insertion_point(s, p) implies #[trigger] s[i].priority.0 >= p by {
            if i > 0 {
                assert(s[i] == t[i - 1]);
            }
        }
        if insertion_point(s, p) < s.len() {
            assert(s[insertion_point(s, p) as int] == t[insertion_point(t, p) as int]);
        }
    }
}

/// Registering a provider keeps every earlier registration of the
/// capability: the new list holds the old ones and the new one (one more
/// than before, the same registrations counted with their repeats), the old
/// ones in their old order, and it stays ordered by falling priority, with
/// the new registration after every earlier one of the same priority.
pub proof fn lemma_register_keeps_registrations(s: Seq<ProviderEntry>, e: ProviderEntry)
    ensures
        insert_by_priority(s, e).len() == s.len() + 1,
        insert_by_priority(s, e).to_multiset() == s.to_multiset().insert(e),
        exists|k: int|
            0 <= k <= s.len() && insert_by_priority(s, e)[k] == e && #[trigger] insert_by_priority(
                s,
                e,
            ).remove(k) == s,
        priority_sorted(s) ==> priority_sorted(insert_by_priority(s, e)),
        forall|i: int|
            0 <= i < insert_by_priority(s, e).len() && #[trigger] insert_by_priority(s, e)[i]
                != e ==> s.contains(insert_by_priority(s, e)[i]),
{
    let k = insertion_point(s, e.priority.0) as int;
    lemma_insertion_point_split(s, e.priority.0);
    let t = insert_by_priority(s, e);
    assert(t =~= s.insert(k, e));
    vstd::seq_lib::to_multiset_insert(s, k, e);
    assert(t.remove(k) =~= s);
    assert(t[k] == e);
    if priority_sorted(s) {
        assert forall|i: int, j: int| 0 <= i < j < t.len() implies t[i].priority.0 >= t[j].priority.0 by {
            if j < k {
                assert(t[i] == s[i] && t[j] == s[j]);
            } else if j == k {
                assert(t[i] == s[i]);
            } else if i < k {
                assert(t[i] == s[i] && t[j] == s[j - 1]);
            } else if i == k {
                assert(t[j] == s[j - 1]);
                assert(s[k].priority.0 >= s[j - 1].priority.0 || j - 1 == k);
            } else {
                assert(t[i] == s[i - 1] && t[j] == s[j - 1]);
            }
        }
    }
    assert forall|i: int| 0 <= i < t.len() && #[trigger] t[i] != e implies s.contains(t[i]) by {
        if i < k {
            assert(t[i] == s[i]);
        } else {
            assert(i != k);
            assert(t[i] == s[i - 1]);
        }
    }
}

} // verus!

//! Sessions: who acts (a human, an agent, CI...), what they may call, their
//! resource budget and the buffers they opened recently; and the session
//! manager that creates, finds and closes them and checks their permissions.

use vstd::prelude::*;
use crate::error::{CoreError, CoreResult};
use crate::eventbus::event_type::{SESSION_CLOSED, SESSION_CREATED};
use crate::eventbus::{
    published, publish_attempted, DurableLog, Durability, EventBus, EventSpec,
};
use crate::json::{Json, JsonModel};
use crate::platform::{fresh_uuid_bits, is_random_uuid, now_utc, uuid_string, uuid_text, UtcTime};
use crate::text::str_equal;
use vstd::string::StringExecFns;

verus! {

/// The identifier of a session: the 128 bits of a random UUID.
#[derive(Debug, Clone, Copy, PartialEq, Eq, Hash, Structural)]
pub struct SessionId(pub u128);

impl SessionId {
    /// A fresh random identifier: the bits of a random (version 4) UUID.
    pub fn new() -> (r: Self)
        ensures
            is_random_uuid(r.0),
    {
        SessionId(fresh_uuid_bits())
    }
}

/// Who acts in a session.
#[derive(Debug, Clone, Copy, PartialEq, Eq, Structural)]
pub enum ActorKind {
    Human,
    LangGraph,
    Agent,
    Ci,
    Plugin,
    Automation,
}

/// The name of an actor kind, as events report it.
pub open spec fn actor_name(a: ActorKind) -> Seq<char> {
    match a {
        ActorKind::Human => "Human"@,
        ActorKind::LangGraph => "LangGraph"@,
        ActorKind::Agent => "Agent"@,
        ActorKind::Ci => "Ci"@,
        ActorKind::Plugin => "Plugin"@,
        ActorKind::Automation => "Automation"@,
    }
}

impl ActorKind {
    /// The name of the actor kind.
    pub fn name(&self) -> (r: &'static str)
        ensures
            r@ == actor_name(*self),
    {
        match self {
            ActorKind::Human => "Human",
            ActorKind::LangGraph => "LangGraph",
            ActorKind::Agent => "Agent",
            ActorKind::Ci => "Ci",
            ActorKind::Plugin => "Plugin",
            ActorKind::Automation => "Automation",
        }
    }
}

/// What a session may do.
#[derive(Debug)]
pub struct PermissionSet {
    /// The capabilities it may call (for example `text.search`).
    pub capabilities: Vec<String>,
    /// Whether it may run commands that change the workspace.
    pub allow_workspace_mutation: bool,
    /// Whether it may call remote AI providers.
    pub allow_remote_ai: bool,
}

/// The content of a permission set.
pub struct PermissionView {
    pub capabilities: Seq<Seq<char>>,
    pub allow_workspace_mutation: bool,
    pub allow_remote_ai: bool,
}

/// The texts of a sequence of strings.
pub open spec fn texts(s: Seq<String>) -> Seq<Seq<char>> {
    s.map_values(|x: String| x@)
}

impl View for PermissionSet {
    type V = PermissionView;

    open spec fn view(&self) -> PermissionView {
        PermissionView {
            capabilities: texts(self.capabilities@),
            allow_workspace_mutation: self.allow_workspace_mutation,
            allow_remote_ai: self.allow_remote_ai,
        }
    }
}

/// Copies a vector of strings.
pub fn copy_strings(v: &Vec<String>) -> (r: Vec<String>)
    ensures
        texts(r@) == texts(v@),
{
    let mut out: Vec<String> = Vec::new();
    let mut i: usize = 0;
    while i < v.len()
        invariant
            i <= v.len(),
            texts(out@) == texts(v@).take(i as int),
        decreases v.len() - i,
    {
        let ghost before = out@;
        out.push(v[i].clone());
        assert(texts(out@) =~= texts(before).push(v@[i as int]@));
        assert(texts(v@).take(i + 1) =~= texts(v@).take(i as int).push(v@[i as int]@));
        i = i + 1;
    }
    assert(texts(v@).take(v@.len() as int) =~= texts(v@));
    out
}

impl Clone for PermissionSet {
    fn clone(&self) -> (r: Self)
        ensures
            r@ == self@,
    {
        PermissionSet {
            capabilities: copy_strings(&self.capabilities),
            allow_workspace_mutation: self.allow_workspace_mutation,
            allow_remote_ai: self.allow_remote_ai,
        }
    }
}

/// The capabilities of the human editor's permission set.
pub open spec fn human_editor_capabilities() -> Seq<Seq<char>> {
    seq![
        "buffer.read"@,
        "buffer.write"@,
        "text.search"@,
        "file.patch"@,
        "txn.commit"@,
        "context.build"@,
        "ai.chat"@,
        "ai.edit"@,
        "ai.inline"@,
        "echo"@,
    ]
}

/// The capabilities of the default agent's permission set.
pub open spec fn agent_default_capabilities() -> Seq<Seq<char>> {
    seq![
        "buffer.read"@,
        "text.search"@,
        "symbol.search"@,
        "context.build"@,
        "ai.chat"@,
        "ai.edit"@,
        "txn.begin"@,
        "txn.commit"@,
    ]
}

/// The capabilities the presets allow, by name: the human editor may call
/// `buffer.read`, `buffer.write`, `text.search`, `file.patch`, `txn.commit`,
/// `context.build`, `ai.chat`, `ai.edit`, `ai.inline` and `echo`, and nothing
/// else; the default agent may call `buffer.read`, `text.search`,
/// `symbol.search`, `context.build`, `ai.chat`, `ai.edit`, `txn.begin` and
/// `txn.commit`, and nothing else.
pub proof fn lemma_preset_capabilities(name: Seq<char>)
    ensures
        human_editor_capabilities().contains(name) <==> (name == "buffer.read"@
            || name == "buffer.write"@
            || name == "text.search"@
            || name == "file.patch"@
            || name == "txn.commit"@
            || name == "context.build"@
            || name == "ai.chat"@
            || name == "ai.edit"@
            || name == "ai.inline"@
            || name == "echo"@),
        agent_default_capabilities().contains(name) <==> (name == "buffer.read"@
            || name == "text.search"@
            || name == "symbol.search"@
            || name == "context.build"@
            || name == "ai.chat"@
            || name == "ai.edit"@
            || name == "txn.begin"@
            || name == "txn.commit"@),
{
        if name == "buffer.read"@ {
            assert(human_editor_capabilities()[0] == name);
        }
        if name == "buffer.write"@ {
            assert(human_editor_capabilities()[1] == name);
        }
        if name == "text.search"@ {
            assert(human_editor_capabilities()[2] == name);
        }
        if name == "file.patch"@ {
            assert(human_editor_capabilities()[3] == name);
        }
        if name == "txn.commit"@ {
            assert(human_editor_capabilities()[4] == name);
        }
        if name == "context.build"@ {
            assert(human_editor_capabilities()[5] == name);
        }
        if name == "ai.chat"@ {
            assert(human_editor_capabilities()[6] == name);
        }
        if name == "ai.edit"@ {
            assert(human_editor_capabilities()[7] == name);
        }
        if name == "ai.inline"@ {
            assert(human_editor_capabilities()[8] == name);
        }
        if name == "echo"@ {
            assert(human_editor_capabilities()[9] == name);
        }
        if name == "buffer.read"@ {
            assert(agent_default_capabilities()[0] == name);
        }
        if name == "text.search"@ {
            assert(agent_default_capabilities()[1] == name);
        }
        if name == "symbol.search"@ {
            assert(agent_default_capabilities()[2] == name);
        }
        if name == "context.build"@ {
            assert(agent_default_capabilities()[3] == name);
        }
        if name == "ai.chat"@ {
            assert(agent_default_capabilities()[4] == name);
        }
        if name == "ai.edit"@ {
            assert(agent_default_capabilities()[5] == name);
        }
        if name == "txn.begin"@ {
            assert(agent_default_capabilities()[6] == name);
        }
        if name == "txn.commit"@ {
            assert(agent_default_capabilities()[7] == name);
        }
}

/// Builds a vector of strings from texts.
fn strings_of(items: &[&str]) -> (r: Vec<String>)
    ensures
        r@.len() == items@.len(),
        forall|i: int| 0 <= i < items@.len() ==> #[trigger] r@[i]@ == items@[i]@,
{
    let mut out: Vec<String> = Vec::new();
    let mut i: usize = 0;
    while i < items.len()
        invariant
            i <= items@.len(),
            out@.len() == i,
            forall|j: int| 0 <= j < i ==> #[trigger] out@[j]@ == items@[j]@,
        decreases items@.len() - i,
    {
        out.push(String::from_str(items[i]));
        i = i + 1;
    }
    out
}

impl PermissionSet {
    /// The permissions of a human at the editor: reading and writing
    /// buffers, search, patches, commits, context, the AI capabilities and
    /// `echo`; workspace changes allowed; remote AI not.
    pub fn human_editor() -> (r: Self)
        ensures
            r@ == (PermissionView {
                capabilities: human_editor_capabilities(),
                allow_workspace_mutation: true,
                allow_remote_ai: false,
            }),
    {
        let items: [&str; 10] = [
            "buffer.read",
            "buffer.write",
            "text.search",
            "file.patch",
            "txn.commit",
            "context.build",
            "ai.chat",
            "ai.edit",
            "ai.inline",
            "echo",
        ];
        let capabilities = strings_of(&items);
        assert(texts(capabilities@) =~= human_editor_capabilities());
        PermissionSet { capabilities, allow_workspace_mutation: true, allow_remote_ai: false }
    }

    /// The restricted default permissions of an agent: reading buffers,
    /// search, context, chat and edit, and transactions; workspace changes
    /// allowed; remote AI not.
    pub fn agent_default() -> (r: Self)
        ensures
            r@ == (PermissionView {
                capabilities: agent_default_capabilities(),
                allow_workspace_mutation: true,
                allow_remote_ai: false,
            }),
    {
        let items: [&str; 8] = [
            "buffer.read",
            "text.search",
            "symbol.search",
            "context.build",
            "ai.chat",
            "ai.edit",
            "txn.begin",
            "txn.commit",
        ];
        let capabilities = strings_of(&items);
        assert(texts(capabilities@) =~= agent_default_capabilities());
        PermissionSet { capabilities, allow_workspace_mutation: true, allow_remote_ai: false }
    }

    /// The permissions a new session of an actor kind gets by default: the
    /// human editor's for a human, the default agent's for anyone else.
    pub fn for_actor(actor: ActorKind) -> (r: Self)
        ensures
            actor == ActorKind::Human ==> r@.capabilities == human_editor_capabilities(),
            actor != ActorKind::Human ==> r@.capabilities == agent_default_capabilities(),
            r@.allow_workspace_mutation,
            !r@.allow_remote_ai,
    {
        match actor {
            ActorKind::Human => PermissionSet::human_editor(),
            _ => PermissionSet::agent_default(),
        }
    }

    /// Whether `name` is among the capabilities.
    pub fn allows(&self, name: &str) -> (r: bool)
        ensures
            r == self@.capabilities.contains(name@),
    {
        let mut i: usize = 0;
        while i < self.capabilities.len()
            invariant
                i <= self.capabilities.len(),
                forall|j: int| 0 <= j < i ==> self.capabilities@[j]@ != name@,
            decreases self.capabilities.len() - i,
        {
            if str_equal(self.capabilities[i].as_str(), name) {
                assert(self@.capabilities[i as int] == name@);
                return true;
            }
            i = i + 1;
        }
        proof {
            if self@.capabilities.contains(name@) {
                let k = choose|k: int| 0 <= k < self@.capabilities.len() && self@.capabilities[k] == name@;
                assert(self.capabilities@[k]@ == name@);
            }
        }
        false
    }
}

/// The resource budget of a session.
#[derive(Debug, Clone, Copy, PartialEq, Eq, Structural)]
pub struct ResourceBudget {
    pub max_tokens_per_minute: u32,
    pub max_commands_per_session: u32,
    pub max_concurrent_commands: u32,
}

impl Default for ResourceBudget {
    /// 100 000 tokens a minute, 10 000 commands, 8 at a time.
    fn default() -> (r: Self)
        ensures
            r.max_tokens_per_minute == 100_000,
            r.max_commands_per_session == 10_000,
            r.max_concurrent_commands == 8,
    {
        ResourceBudget {
            max_tokens_per_minute: 100_000,
            max_commands_per_session: 10_000,
            max_concurrent_commands: 8,
        }
    }
}

/// How many recently opened buffers a session remembers.
pub const RECENT_BUFFER_LIMIT: usize = 32;

/// Whether a text is other than `path`.
pub open spec fn other_than(path: Seq<char>) -> spec_fn(Seq<char>) -> bool {
    |x: Seq<char>| x != path
}

/// The recent-buffer history after opening `path`: `path` first, then the
/// earlier entries other than `path` in their order, at most
/// [`RECENT_BUFFER_LIMIT`] in all.
pub open spec fn recent_after_touch(history: Seq<Seq<char>>, path: Seq<char>) -> Seq<Seq<char>> {
    let moved = seq![path] + history.filter(other_than(path));
    if moved.len() > RECENT_BUFFER_LIMIT {
        moved.take(RECENT_BUFFER_LIMIT as int)
    } else {
        moved
    }
}

/// A session.
#[derive(Debug)]
pub struct Session {
    pub id: SessionId,
    pub actor: ActorKind,
    pub permissions: PermissionSet,
    pub budget: ResourceBudget,
    pub created_at: UtcTime,
    pub last_active_at: UtcTime,
    /// File paths, most recent first.
    pub recent_buffers: Vec<String>,
    pub commands_executed: u32,
}

/// The content of a session.
pub struct SessionView {
    pub id: u128,
    pub actor: ActorKind,
    pub permissions: PermissionView,
    pub budget: ResourceBudget,
    pub created_at: UtcTime,
    pub last_active_at: UtcTime,
    pub recent_buffers: Seq<Seq<char>>,
    pub commands_executed: u32,
}

impl View for Session {
    type V = SessionView;

    open spec fn view(&self) -> SessionView {
        SessionView {
            id: self.id.0,
            actor: self.actor,
            permissions: self.permissions@,
            budget: self.budget,
            created_at: self.created_at,
            last_active_at: self.last_active_at,
            recent_buffers: texts(self.recent_buffers@),
            commands_executed: self.commands_executed,
        }
    }
}

impl Clone for Session {
    fn clone(&self) -> (r: Self)
        ensures
            r@ == self@,
    {
        Session {
            id: self.id,
            actor: self.actor,
            permissions: self.permissions.clone(),
            budget: self.budget,
            created_at: self.created_at,
            last_active_at: self.last_active_at,
            recent_buffers: copy_strings(&self.recent_buffers),
            commands_executed: self.commands_executed,
        }
    }
}

impl Session {
    /// Records that `path` was opened: it moves to the front of the history,
    /// which keeps no duplicate and at most [`RECENT_BUFFER_LIMIT`] entries.
    pub fn touch_buffer(&mut self, path: String)
        ensures
            final(self)@ == (SessionView {
                recent_buffers: recent_after_touch(old(self)@.recent_buffers, path@),
                ..old(self)@
            }),
    {
        let ghost history = texts(self.recent_buffers@);
        let ghost pred = other_than(path@);
        let mut moved: Vec<String> = Vec::new();
        moved.push(path.clone());
        let mut i: usize = 0;
        while i < self.recent_buffers.len()
            invariant
                i <= self.recent_buffers.len(),
                history == texts(self.recent_buffers@),
                pred == other_than(path@),
                texts(moved@) == seq![path@] + history.take(i as int).filter(pred),
            decreases self.recent_buffers.len() - i,
        {
            assert(history.take(i + 1).drop_last() =~= history.take(i as int));
            assert(history.take(i + 1).last() == self.recent_buffers@[i as int]@);
            proof {
                reveal(Seq::filter);
            }
            let ghost before = moved@;
            if self.recent_buffers[i] != path {
                moved.push(self.recent_buffers[i].clone());
                assert(texts(moved@) =~= texts(before).push(self.recent_buffers@[i as int]@));
            }
            i = i + 1;
        }
        assert(history.take(i as int) =~= history);
        if moved.len() > RECENT_BUFFER_LIMIT {
            moved.truncate(RECENT_BUFFER_LIMIT);
            assert(texts(moved@) =~= (seq![path@] + history.filter(pred)).take(
                RECENT_BUFFER_LIMIT as int,
            ));
        }
        self.recent_buffers = moved;
    }

    /// The recently opened buffers, most recent first.
    pub fn recent_buffers(&self) -> (r: Vec<String>)
        ensures
            texts(r@) == self@.recent_buffers,
    {
        copy_strings(&self.recent_buffers)
    }

    /// Marks the session active now.
    pub fn touch(&mut self)
        ensures
            final(self)@ == (SessionView { last_active_at: final(self)@.last_active_at, ..old(self)@ }),
    {
        self.last_active_at = now_utc();
    }
}

/// The table the session manager keeps its sessions in.
pub type SessionTable = dashmap::DashMap<u128, Session>;

/// The sessions a table holds, by the bits of their identifiers.
pub uninterp spec fn session_table(m: SessionTable) -> Map<u128, Session>;

/// Calls `dashmap::DashMap::new`: the new table is empty.
#[verifier::external_body]
fn session_table_new() -> (r: SessionTable)
    ensures
        session_table(r).is_empty(),
{
    dashmap::DashMap::new()
}

/// Calls `dashmap::DashMap::insert`: `value` is stored under `key`, replacing
/// and handing back what was stored there.
#[verifier::external_body]
fn session_table_insert(m: &mut SessionTable, key: u128, value: Session) -> (r:
    Option<Session>)
    ensures
        session_table(*final(m)) == session_table(*old(m)).insert(key, value),
        r == (if session_table(*old(m)).contains_key(key) {
            Some(session_table(*old(m))[key])
        } else {
            None
        }),
{
    m.insert(key, value)
}

/// Calls `dashmap::DashMap::get` and copies the session found, with the
/// library's verified `Session::clone`.
#[verifier::external_body]
fn session_table_get(m: &SessionTable, key: u128) -> (r: Option<Session>)
    ensures
        match r {
            Some(s) => session_table(*m).contains_key(key) && s@ == session_table(*m)[key]@,
            None => !session_table(*m).contains_key(key),
        },
{
    match m.get(&key) {
        Some(entry) => Some(Session::clone(&entry)),
        None => None,
    }
}

/// Calls `dashmap::DashMap::remove`: the entry under `key` is taken out and
/// handed back.
#[verifier::external_body]
fn session_table_remove(m: &mut SessionTable, key: u128) -> (r: Option<
    (u128, Session),
>)
    ensures
        session_table(*final(m)) == session_table(*old(m)).remove(key),
        r == (if session_table(*old(m)).contains_key(key) {
            Some((key, session_table(*old(m))[key]))
        } else {
            None
        }),
{
    m.remove(&key)
}

/// Calls `dashmap::DashMap::len`: the number of entries.
#[verifier::external_body]
fn session_table_len(m: &SessionTable) -> (r: usize)
    ensures
        r == session_table(*m).len(),
{
    m.len()
}

/// Whether `e` reports that no session has identifier `id`.
pub open spec fn is_session_not_found(e: CoreError, id: u128) -> bool {
    e matches CoreError::SessionNotFound(m) && m@ == uuid_text(id)
}

/// The message of a refused capability call.
pub open spec fn capability_denied_text(id: u128, name: Seq<char>) -> Seq<char> {
    "session "@ + uuid_text(id) + " cannot call capability '"@ + name + "'"@
}

/// The message of a refused workspace change.
pub open spec fn mutation_denied_text(id: u128) -> Seq<char> {
    "session "@ + uuid_text(id) + " cannot mutate workspace"@
}

/// A new session of `actor` with these permissions and budget, with no
/// history and no command run.
pub open spec fn is_fresh_session(
    s: SessionView,
    actor: ActorKind,
    permissions: PermissionView,
    budget: ResourceBudget,
) -> bool {
    &&& s.actor == actor
    &&& s.permissions == permissions
    &&& s.budget == budget
    &&& s.recent_buffers == Seq::<Seq<char>>::empty()
    &&& s.commands_executed == 0
}

/// The event announcing a new session.
pub open spec fn session_created_event(id: u128, actor: ActorKind) -> EventSpec {
    EventSpec {
        event_type: SESSION_CREATED@,
        durability: Durability::Durable,
        correlation_id: uuid_text(id),
        trace_id: Seq::empty(),
        payload: JsonModel::Object(
            seq![
                ("session_id"@, JsonModel::String(uuid_text(id))),
                ("actor"@, JsonModel::String(actor_name(actor))),
            ],
        ),
    }
}

/// The event announcing a closed session.
pub open spec fn session_closed_event(id: u128) -> EventSpec {
    EventSpec {
        event_type: SESSION_CLOSED@,
        durability: Durability::Durable,
        correlation_id: uuid_text(id),
        trace_id: Seq::empty(),
        payload: JsonModel::Object(seq![("session_id"@, JsonModel::String(uuid_text(id)))]),
    }
}

/// Keeps the sessions in memory; creates, finds and closes them and checks
/// their permissions.
pub struct SessionManager {
    sessions: SessionTable,
}

impl SessionManager {
    /// The sessions held, by the bits of their identifiers.
    pub closed spec fn sessions(&self) -> Map<u128, Session> {
        session_table(self.sessions)
    }

    /// A manager holding no session.
    pub fn new() -> (r: Self)
        ensures
            r.sessions().is_empty(),
    {
        SessionManager { sessions: session_table_new() }
    }

    /// Creates a session with a fresh identifier, stores it, and announces it
    /// with a durable `session.created` event carrying the session id and the
    /// actor.
    ///
    /// The session is stored even when the durable log refuses the event; the
    /// refusal is then the result.
    ///
    /// What is returned is a copy of the stored session: changes made to the
    /// copy stay in it. The stored session changes through the manager, as
    /// with [`SessionManager::touch_buffer`].
    pub fn create<L: DurableLog>(
        &mut self,
        bus: &mut EventBus<L>,
        actor: ActorKind,
        permissions: PermissionSet,
        budget: ResourceBudget,
    ) -> (r: CoreResult<Session>)
        requires
            old(bus).last_sequence() < u64::MAX,
        ensures
            exists|k: u128|
                {
                    &&& #[trigger] final(self).sessions().contains_key(k)
                    &&& is_random_uuid(k)
                    &&& final(self).sessions() == old(self).sessions().insert(k, final(self).sessions()[k])
                    &&& is_fresh_session(final(self).sessions()[k]@, actor, permissions@, budget)
                    &&& final(self).sessions()[k]@.id == k
                    &&& publish_attempted(*old(bus), *final(bus), session_created_event(k, actor))
                    &&& match r {
                        Ok(s) => {
                            &&& s@ == final(self).sessions()[k]@
                            &&& published(*old(bus), *final(bus), session_created_event(k, actor))
                        },
                        Err(e) => e is Internal && !old(bus).accepts_appends(),
                    }
                },
    {
        let id = SessionId::new();
        let now = now_utc();
        let session = Session {
            id,
            actor,
            permissions,
            budget,
            created_at: now,
            last_active_at: now_utc(),
            recent_buffers: Vec::new(),
            commands_executed: 0,
        };
        assert(texts(session.recent_buffers@) =~= Seq::<Seq<char>>::empty());
        let stored = session.clone();
        session_table_insert(&mut self.sessions, id.0, stored);
        let mut fields: Vec<(String, Json)> = Vec::new();
        let f1 = (String::from_str("session_id"), Json::text(uuid_string(id.0)));
        let f2 = (String::from_str("actor"), Json::text(String::from_str(actor.name())));
        proof {
            crate::json::lemma_member_models_small(f1, f2);
        }
        fields.push(f1);
        fields.push(f2);
        assert(fields@ =~= seq![f1, f2]);
        let corr = uuid_string(id.0);
        let published_event = bus.publish(
            SESSION_CREATED,
            Durability::Durable,
            corr.as_str(),
            "",
            Json::object(fields),
        );
        proof {
            reveal_strlit("");
        }
        let ghost spec = session_created_event(id.0, actor);
        assert(JsonModel::Object(crate::json::member_models(fields@)) == spec.payload);
        assert(""@ == spec.trace_id);
        assert(self.sessions().contains_key(id.0));
        assert(self.sessions()[id.0]@ == session@);
        assert(self.sessions() == old(self).sessions().insert(id.0, self.sessions()[id.0]));
        match published_event {
            Ok(_) => Ok(session),
            Err(e) => Err(e),
        }
    }

    /// The session with identifier `id`.
    pub fn get(&self, id: &SessionId) -> (r: CoreResult<Session>)
        ensures
            match r {
                Ok(s) => self.sessions().contains_key(id.0) && s@ == self.sessions()[id.0]@,
                Err(e) => !self.sessions().contains_key(id.0) && is_session_not_found(e, id.0),
            },
    {
        match session_table_get(&self.sessions, id.0) {
            Some(s) => Ok(s),
            None => Err(CoreError::SessionNotFound(uuid_string(id.0))),
        }
    }

    /// Removes the session with identifier `id` and announces it with a
    /// durable `session.closed` event.
    pub fn delete<L: DurableLog>(&mut self, bus: &mut EventBus<L>, id: &SessionId) -> (r: CoreResult<
        (),
    >)
        requires
            old(bus).last_sequence() < u64::MAX,
        ensures
            final(self).sessions() == old(self).sessions().remove(id.0),
            !old(self).sessions().contains_key(id.0) ==> {
                &&& r matches Err(e) && is_session_not_found(e, id.0)
                &&& *final(bus) == *old(bus)
            },
            old(self).sessions().contains_key(id.0) ==> {
                &&& publish_attempted(*old(bus), *final(bus), session_closed_event(id.0))
                &&& r is Ok <==> published(*old(bus), *final(bus), session_closed_event(id.0))
            },
    {
        match session_table_remove(&mut self.sessions, id.0) {
            None => Err(CoreError::SessionNotFound(uuid_string(id.0))),
            Some(_) => {
                let mut fields: Vec<(String, Json)> = Vec::new();
                let f1 = (String::from_str("session_id"), Json::text(uuid_string(id.0)));
                proof {
                    crate::json::lemma_member_models_small(f1, f1);
                }
                fields.push(f1);
                assert(fields@ =~= seq![f1]);
                let corr = uuid_string(id.0);
                let published_event = bus.publish(
                    SESSION_CLOSED,
                    Durability::Durable,
                    corr.as_str(),
                    "",
                    Json::object(fields),
                );
                proof {
                    reveal_strlit("");
                }
                let ghost spec = session_closed_event(id.0);
                assert(JsonModel::Object(crate::json::member_models(fields@)) == spec.payload);
                assert(""@ == spec.trace_id);
                match published_event {
                    Ok(_) => Ok(()),
                    Err(e) => Err(e),
                }
            },
        }
    }

    /// Records that session `id` opened `path` (see [`Session::touch_buffer`])
    /// in the session the manager holds.
    pub fn touch_buffer(&mut self, id: &SessionId, path: String) -> (r: CoreResult<()>)
        ensures
            !old(self).sessions().contains_key(id.0) ==> {
                &&& r matches Err(e) && is_session_not_found(e, id.0)
                &&& final(self).sessions() == old(self).sessions()
            },
            old(self).sessions().contains_key(id.0) ==> {
                &&& r is Ok
                &&& final(self).sessions().dom() == old(self).sessions().dom()
                &&& forall|k: u128|
                    k != id.0 && #[trigger] old(self).sessions().contains_key(k)
                        ==> final(self).sessions()[k] == old(self).sessions()[k]
                &&& final(self).sessions()[id.0]@ == (SessionView {
                    recent_buffers: recent_after_touch(
                        old(self).sessions()[id.0]@.recent_buffers,
                        path@,
                    ),
                    ..old(self).sessions()[id.0]@
                })
            },
    {
        let mut session = self.get(id)?;
        session.touch_buffer(path);
        session_table_insert(&mut self.sessions, id.0, session);
        assert(self.sessions().dom() =~= old(self).sessions().dom());
        Ok(())
    }

    /// The number of sessions.
    pub fn count(&self) -> (r: usize)
        ensures
            r == self.sessions().len(),
    {
        session_table_len(&self.sessions)
    }

    /// Succeeds when session `id` exists and may call capability `name`;
    /// otherwise says which of the two failed.
    pub fn check_capability(&self, session_id: &SessionId, name: &str) -> (r: CoreResult<()>)
        ensures
            !self.sessions().contains_key(session_id.0) ==> (r matches Err(e)
                && is_session_not_found(e, session_id.0)),
            self.sessions().contains_key(session_id.0) ==> {
                if self.sessions()[session_id.0]@.permissions.capabilities.contains(name@) {
                    r is Ok
                } else {
                    r matches Err(CoreError::AuthzDenied(m)) && m@ == capability_denied_text(
                        session_id.0,
                        name@,
                    )
                }
            },
    {
        let session = self.get(session_id)?;
        if session.permissions.allows(name) {
            Ok(())
        } else {
            let mut m = String::from_str("session ");
            let idt = uuid_string(session_id.0);
            m.append(idt.as_str());
            m.append(" cannot call capability '");
            m.append(name);
            m.append("'");
            Err(CoreError::AuthzDenied(m))
        }
    }

    /// Succeeds when session `id` exists and may change the workspace;
    /// otherwise says which of the two failed.
    pub fn check_workspace_mutation(&self, session_id: &SessionId) -> (r: CoreResult<()>)
        ensures
            !self.sessions().contains_key(session_id.0) ==> (r matches Err(e)
                && is_session_not_found(e, session_id.0)),
            self.sessions().contains_key(session_id.0) ==> {
                if self.sessions()[session_id.0]@.permissions.allow_workspace_mutation {
                    r is Ok
                } else {
                    r matches Err(CoreError::CommandPermissionDenied(m)) && m@
                        == mutation_denied_text(session_id.0)
                }
            },
    {
        let session = self.get(session_id)?;
        if session.permissions.allow_workspace_mutation {
            Ok(())
        } else {
            let mut m = String::from_str("session ");
            let idt = uuid_string(session_id.0);
            m.append(idt.as_str());
            m.append(" cannot mutate workspace");
            Err(CoreError::CommandPermissionDenied(m))
        }
    }
}

/// Every element a filter keeps is an element of the original that the
/// predicate holds of.
pub proof fn lemma_filter_kept(h: Seq<Seq<char>>, pred: spec_fn(Seq<char>) -> bool, k: int)
    requires
        0 <= k < h.filter(pred).len(),
    ensures
        h.contains(h.filter(pred)[k]),
        pred(h.filter(pred)[k]),
    decreases h.len(),
{
    reveal(Seq::filter);
    h.lemma_filter_pred(pred, k);
    let init = h.drop_last();
    init.lemma_filter_len(pred);
    if k < init.filter(pred).len() {
        lemma_filter_kept(init, pred, k);
        let j = choose|j: int| 0 <= j < init.len() && init[j] == init.filter(pred)[k];
        assert(h[j] == init[j]);
    } else {
        assert(h[h.len() - 1] == h.filter(pred)[k]);
    }
}

/// What a filter keeps of a sequence without duplicates has none either.
pub proof fn lemma_filter_no_duplicates(h: Seq<Seq<char>>, pred: spec_fn(Seq<char>) -> bool)
    requires
        h.no_duplicates(),
    ensures
        h.filter(pred).no_duplicates(),
    decreases h.len(),
{
    reveal(Seq::filter);
    if h.len() > 0 {
        let init = h.drop_last();
        assert(init.no_duplicates());
        lemma_filter_no_duplicates(init, pred);
        if pred(h.last()) {
            let f = init.filter(pred);
            assert forall|a: int, b: int| 0 <= a < b < f.push(h.last()).len() implies f.push(
                h.last(),
            )[a] != f.push(h.last())[b] by {
                if b == f.len() {
                    lemma_filter_kept(init, pred, a);
                    let j = choose|j: int| 0 <= j < init.len() && init[j] == f[a];
                    assert(h[j] == init[j]);
                    assert(h[h.len() - 1] == h.last());
                }
            }
        }
    }
}

/// Opening a buffer puts it first, keeps at most [`RECENT_BUFFER_LIMIT`]
/// entries, leaves no other entry naming it, and, when the history had no
/// duplicate, leaves none.
pub proof fn lemma_recent_after_touch(history: Seq<Seq<char>>, path: Seq<char>)
    ensures
        recent_after_touch(history, path).len() >= 1,
        recent_after_touch(history, path)[0] == path,
        recent_after_touch(history, path).len() <= RECENT_BUFFER_LIMIT,
        forall|i: int|
            1 <= i < recent_after_touch(history, path).len() ==> #[trigger] recent_after_touch(
                history,
                path,
            )[i] != path,
        history.no_duplicates() ==> recent_after_touch(history, path).no_duplicates(),
{
    let pred = other_than(path);
    let f = history.filter(pred);
    let moved = seq![path] + f;
    let r = recent_after_touch(history, path);
    assert(r.len() <= moved.len());
    assert(forall|i: int| 0 <= i < r.len() ==> r[i] == moved[i]);
    assert forall|i: int| 1 <= i < r.len() implies #[trigger] r[i] != path by {
        lemma_filter_kept(history, pred, i - 1);
        assert(moved[i] == f[i - 1]);
    }
    if history.no_duplicates() {
        lemma_filter_no_duplicates(history, pred);
        assert forall|a: int, b: int| 0 <= a < b < r.len() implies r[a] != r[b] by {
            if a == 0 {
                lemma_filter_kept(history, pred, b - 1);
                assert(moved[b] == f[b - 1]);
            } else {
                assert(moved[a] == f[a - 1]);
                assert(moved[b] == f[b - 1]);
            }
        }
    }
}

/// What [`SessionManager::create`] stores under a fresh identifier is what
/// [`SessionManager::get`] finds there; after [`SessionManager::delete`] of
/// that identifier nothing is found there and the other sessions are as
/// before the creation.
pub proof fn lemma_create_get_delete(before: Map<u128, Session>, k: u128, v: Session)
    requires
        !before.contains_key(k),
    ensures
        before.insert(k, v).contains_key(k),
        before.insert(k, v)[k] == v,
        !before.insert(k, v).remove(k).contains_key(k),
        before.insert(k, v).remove(k) == before,
{
    assert(before.insert(k, v).remove(k) =~= before);
}

} // verus!

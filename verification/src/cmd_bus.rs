//! The command bus: takes a command, resolves its session, checks the
//! session's permissions, routes the command to the provider of its
//! capability, and reports the outcome with events.
//!
//! Running the provider is outside work, so a command runs in two steps:
//! [`CommandBus::begin`] decides everything up to the provider call and says
//! which provider to run, and [`CommandBus::finish`] takes what the provider
//! answered and produces the result.

use vstd::prelude::*;
use crate::capability::{CapabilityRegistry, ProviderEntry, SideEffectLevel};
use crate::error::{error_code_text, error_message, error_message_lead, CoreError, CoreResult};
use crate::eventbus::event_type::{COMMAND_COMPLETED, COMMAND_FAILED, COMMAND_STARTED};
use crate::eventbus::{published, publish_attempted, DurableLog, Durability, EventBus, EventSpec};
use crate::json::{Json, JsonModel, JsonNumber};
use crate::platform::{elapsed_millis, fresh_uuid_bits, instant_now, is_random_uuid, uuid_string, uuid_text};
use crate::session::{
    capability_denied_text, is_session_not_found, mutation_denied_text, texts, SessionId,
    SessionManager,
};
use std::sync::Arc;
use vstd::string::StringExecFns;
use vstd::string::to_string_from_display_ensures;

verus! {

/// The identifier of a command: the 128 bits of a random UUID.
#[derive(Debug, Clone, Copy, PartialEq, Eq, Hash, Structural)]
pub struct CommandId(pub u128);

impl CommandId {
    /// A fresh random identifier: the bits of a random (version 4) UUID.
    pub fn new() -> (r: Self)
        ensures
            is_random_uuid(r.0),
    {
        CommandId(fresh_uuid_bits())
    }
}

/// A command: a capability to call, in a session, with arguments.
#[derive(Debug)]
pub struct Command {
    pub id: CommandId,
    pub name: String,
    pub session_id: SessionId,
    pub arguments: Json,
    pub timeout: Option<std::time::Duration>,
}

/// The content of a command.
pub struct CommandView {
    pub id: u128,
    pub name: Seq<char>,
    pub session_id: u128,
    pub arguments: JsonModel,
    pub timeout: Option<std::time::Duration>,
}

impl View for Command {
    type V = CommandView;

    open spec fn view(&self) -> CommandView {
        CommandView {
            id: self.id.0,
            name: self.name@,
            session_id: self.session_id.0,
            arguments: self.arguments@,
            timeout: self.timeout,
        }
    }
}

/// Builds a command step by step.
pub struct CommandBuilder {
    name: String,
    session_id: SessionId,
    arguments: Json,
    timeout: Option<std::time::Duration>,
}

impl CommandBuilder {
    /// The capability named so far.
    pub closed spec fn spec_name(&self) -> Seq<char> {
        self.name@
    }

    /// The session given so far.
    pub closed spec fn spec_session(&self) -> u128 {
        self.session_id.0
    }

    /// The arguments given so far.
    pub closed spec fn spec_arguments(&self) -> JsonModel {
        self.arguments@
    }

    /// The timeout given so far.
    pub closed spec fn spec_timeout(&self) -> Option<std::time::Duration> {
        self.timeout
    }

    /// A command calling capability `name` in session `session_id`, with an
    /// empty object as arguments and no timeout.
    pub fn new(name: &str, session_id: SessionId) -> (r: Self)
        ensures
            r.spec_name() == name@,
            r.spec_session() == session_id.0,
            r.spec_arguments() == JsonModel::Object(Seq::empty()),
            r.spec_timeout() is None,
    {
        CommandBuilder {
            name: String::from_str(name),
            session_id,
            arguments: Json::empty_object(),
            timeout: None,
        }
    }

    /// Sets the arguments.
    pub fn args(self, args: Json) -> (r: Self)
        ensures
            r.spec_name() == self.spec_name(),
            r.spec_session() == self.spec_session(),
            r.spec_arguments() == args@,
            r.spec_timeout() == self.spec_timeout(),
    {
        CommandBuilder { arguments: args, ..self }
    }

    /// Sets the timeout.
    pub fn timeout(self, d: std::time::Duration) -> (r: Self)
        ensures
            r.spec_name() == self.spec_name(),
            r.spec_session() == self.spec_session(),
            r.spec_arguments() == self.spec_arguments(),
            r.spec_timeout() == Some(d),
    {
        CommandBuilder { timeout: Some(d), ..self }
    }

    /// The command, with a fresh random identifier.
    pub fn build(self) -> (r: Command)
        ensures
            is_random_uuid(r@.id),
            r@.name == self.spec_name(),
            r@.session_id == self.spec_session(),
            r@.arguments == self.spec_arguments(),
            r@.timeout == self.spec_timeout(),
    {
        Command {
            id: CommandId::new(),
            name: self.name,
            session_id: self.session_id,
            arguments: self.arguments,
            timeout: self.timeout,
        }
    }
}

/// The outcome of a command.
#[derive(Debug, Clone, Copy, PartialEq, Eq, Structural)]
pub enum CommandStatus {
    /// The provider answered successfully.
    Success,
    Failed,
    PermissionDenied,
    Timeout,
}

/// The result of running a command.
#[derive(Debug)]
pub struct CommandResult {
    pub command_id: CommandId,
    pub status: CommandStatus,
    pub data: Option<Json>,
    pub diagnostics: Vec<String>,
    pub error: Option<String>,
    pub duration_ms: u64,
}

/// The content of a command result.
pub struct CommandResultView {
    pub command_id: u128,
    pub status: CommandStatus,
    pub data: Option<JsonModel>,
    pub diagnostics: Seq<Seq<char>>,
    pub error: Option<Seq<char>>,
    pub duration_ms: u64,
}

impl View for CommandResult {
    type V = CommandResultView;

    open spec fn view(&self) -> CommandResultView {
        CommandResultView {
            command_id: self.command_id.0,
            status: self.status,
            data: match self.data {
                Some(d) => Some(d@),
                None => None,
            },
            diagnostics: texts(self.diagnostics@),
            error: match self.error {
                Some(e) => Some(e@),
                None => None,
            },
            duration_ms: self.duration_ms,
        }
    }
}

/// A command being run.
#[derive(Debug)]
pub struct InflightEntry {
    pub command_id: CommandId,
    pub session_id: SessionId,
    pub started_at: std::time::Instant,
}

/// The table of commands being run, by the bits of their identifiers.
pub type InflightTable = dashmap::DashMap<u128, InflightEntry>;

/// The commands a table holds.
pub uninterp spec fn inflight_table(m: InflightTable) -> Map<u128, InflightEntry>;

/// Calls `dashmap::DashMap::new`: the new table is empty.
#[verifier::external_body]
fn inflight_table_new() -> (r: InflightTable)
    ensures
        inflight_table(r).is_empty(),
{
    dashmap::DashMap::new()
}

/// Calls `dashmap::DashMap::insert`: `value` is stored under `key`,
/// replacing and handing back what was stored there.
#[verifier::external_body]
fn inflight_table_insert(m: &mut InflightTable, key: u128, value: InflightEntry) -> (r: Option<
    InflightEntry,
>)
    ensures
        inflight_table(*final(m)) == inflight_table(*old(m)).insert(key, value),
        r == (if inflight_table(*old(m)).contains_key(key) {
            Some(inflight_table(*old(m))[key])
        } else {
            None
        }),
{
    m.insert(key, value)
}

/// Calls `dashmap::DashMap::remove`: the entry under `key` is taken out and
/// handed back.
#[verifier::external_body]
fn inflight_table_remove(m: &mut InflightTable, key: u128) -> (r: Option<(u128, InflightEntry)>)
    ensures
        inflight_table(*final(m)) == inflight_table(*old(m)).remove(key),
        r == (if inflight_table(*old(m)).contains_key(key) {
            Some((key, inflight_table(*old(m))[key]))
        } else {
            None
        }),
{
    m.remove(&key)
}

/// Calls `dashmap::DashMap::len`: the number of entries.
#[verifier::external_body]
fn inflight_table_len(m: &InflightTable) -> (r: usize)
    ensures
        r == inflight_table(*m).len(),
{
    m.len()
}

/// What [`CommandBus::begin`] decided.
pub enum Dispatch {
    /// The command is over without reaching a provider.
    Finished(CommandResult),
    /// The command is to run on this provider; then hand its answer to
    /// [`CommandBus::finish`] with `started`.
    Run { provider: Arc<ProviderEntry>, started: std::time::Instant },
}

/// A result that ends a command with `status` and message `msg`, without
/// data.
pub open spec fn ended_with(r: CommandResultView, id: u128, status: CommandStatus, msg: Seq<char>) -> bool {
    &&& r.command_id == id
    &&& r.status == status
    &&& r.data is None
    &&& r.diagnostics == seq![msg]
    &&& r.error == Some(msg)
}

/// The payload member naming a command.
pub open spec fn command_member(id: u128) -> (Seq<char>, JsonModel) {
    ("command_id"@, JsonModel::String(uuid_text(id)))
}

/// The event reporting a command refused for want of permission.
pub open spec fn permission_failed_event(id: u128, session: u128) -> EventSpec {
    EventSpec {
        event_type: COMMAND_FAILED@,
        durability: Durability::Durable,
        correlation_id: uuid_text(session),
        trace_id: Seq::empty(),
        payload: JsonModel::Object(seq![command_member(id), ("reason"@, JsonModel::String("permission"@))]),
    }
}

/// The event reporting a command handed to its provider.
pub open spec fn started_event(id: u128, session: u128, name: Seq<char>) -> EventSpec {
    EventSpec {
        event_type: COMMAND_STARTED@,
        durability: Durability::Durable,
        correlation_id: uuid_text(session),
        trace_id: Seq::empty(),
        payload: JsonModel::Object(seq![command_member(id), ("name"@, JsonModel::String(name))]),
    }
}

/// The event reporting a command completed after `duration_ms`.
pub open spec fn completed_event(id: u128, session: u128, duration_ms: u64) -> EventSpec {
    EventSpec {
        event_type: COMMAND_COMPLETED@,
        durability: Durability::Durable,
        correlation_id: uuid_text(session),
        trace_id: Seq::empty(),
        payload: JsonModel::Object(
            seq![command_member(id), ("duration_ms"@, JsonModel::Number(JsonNumber::PosInt(duration_ms)))],
        ),
    }
}

/// The event reporting a command whose provider failed with error code `code`.
pub open spec fn provider_failed_event(id: u128, session: u128, code: Seq<char>) -> EventSpec {
    EventSpec {
        event_type: COMMAND_FAILED@,
        durability: Durability::Durable,
        correlation_id: uuid_text(session),
        trace_id: Seq::empty(),
        payload: JsonModel::Object(seq![command_member(id), ("code"@, JsonModel::String(code))]),
    }
}

/// Whether a capability changes the workspace: its routed manifest declares a
/// workspace mutation or a transaction.
pub open spec fn mutates_workspace(registry: CapabilityRegistry, name: Seq<char>) -> bool {
    match registry.routed(name) {
        Some(e) => e.manifest.side_effect_level == SideEffectLevel::WorkspaceMutation
            || e.manifest.side_effect_level == SideEffectLevel::Transactional,
        None => false,
    }
}

/// A capability routed to a provider that writes to the workspace or runs a
/// transaction changes the workspace, and so a command calling it needs the
/// session's permission to do so (see [`CommandBus::begin`]); one routed to
/// a read-only provider, or to none, does not.
pub proof fn lemma_side_effects_need_mutation_permission(
    registry: CapabilityRegistry,
    name: Seq<char>,
)
    ensures
        registry.routed(name) matches Some(e) && e.manifest.side_effect_level
            == SideEffectLevel::Transactional ==> mutates_workspace(registry, name),
        registry.routed(name) matches Some(e) && e.manifest.side_effect_level
            == SideEffectLevel::WorkspaceMutation ==> mutates_workspace(registry, name),
        registry.routed(name) matches Some(e) && e.manifest.side_effect_level
            == SideEffectLevel::ReadOnly ==> !mutates_workspace(registry, name),
        registry.routed(name) is None ==> !mutates_workspace(registry, name),
{
}

/// What finishing command `cmd` with the provider's answer `outcome` gives:
/// result `r`, with one event published on the way from `before` to `after`.
/// An answer gives `Success` and the data, with a `command.completed` event
/// carrying the duration; an error gives `Timeout` for a timeout and `Failed`
/// otherwise, with the error's message, and a `command.failed` event carrying
/// the error's code.
pub open spec fn finished<L: DurableLog>(
    before: EventBus<L>,
    after: EventBus<L>,
    cmd: CommandView,
    outcome: CoreResult<Json>,
    r: CommandResultView,
) -> bool {
    &&& r.command_id == cmd.id
    &&& match outcome {
        Ok(data) => {
            &&& r.status == CommandStatus::Success
            &&& r.data == Some(data@)
            &&& r.diagnostics == Seq::<Seq<char>>::empty()
            &&& r.error is None
            &&& publish_attempted(before, after, completed_event(cmd.id, cmd.session_id, r.duration_ms))
        },
        Err(e) => {
            &&& r.status == (if e is Timeout {
                CommandStatus::Timeout
            } else {
                CommandStatus::Failed
            })
            &&& r.data is None
            &&& !(e is Io) ==> r.diagnostics == seq![error_message(e)] && r.error == Some(
                error_message(e),
            )
            &&& e is Io ==> exists|t: String|
                to_string_from_display_ensures::<std::io::Error>(&e->Io_0, t) && r.diagnostics
                    == seq![error_message_lead(e) + t@] && r.error == Some(error_message_lead(e) + t@)
            &&& publish_attempted(
                before,
                after,
                provider_failed_event(cmd.id, cmd.session_id, error_code_text(e)),
            )
        },
    }
}

/// The command bus: tracks the commands being run.
pub struct CommandBus {
    inflight: InflightTable,
}

/// Builds a one-member-plus-command-id payload.
fn command_payload(id: u128, key: &str, value: Json) -> (r: Json)
    ensures
        r@ == JsonModel::Object(seq![command_member(id), (key@, value@)]),
{
    let f1 = (String::from_str("command_id"), Json::text(uuid_string(id)));
    let f2 = (String::from_str(key), value);
    proof {
        crate::json::lemma_member_models_small(f1, f2);
    }
    let mut fields: Vec<(String, Json)> = Vec::new();
    fields.push(f1);
    fields.push(f2);
    assert(fields@ =~= seq![f1, f2]);
    Json::object(fields)
}

/// A result that ends a command with `status` and the message of `err`.
fn ended_result(id: CommandId, started: &std::time::Instant, status: CommandStatus, err: &CoreError) -> (r:
    CommandResult)
    requires
        !(*err is Io),
    ensures
        ended_with(r@, id.0, status, error_message(*err)),
{
    let msg = err.to_string();
    let mut diagnostics: Vec<String> = Vec::new();
    diagnostics.push(msg.clone());
    assert(texts(diagnostics@) =~= seq![msg@]);
    CommandResult {
        command_id: id,
        status,
        data: None,
        diagnostics,
        error: Some(msg),
        duration_ms: elapsed_millis(started),
    }
}

/// How the commands in flight relate before and after a command `id` was
/// run to its end: every other command is as it was, and `id` itself is no
/// longer in flight, unless nothing changed at all (the command never
/// started because its session does not exist).
pub open spec fn inflight_after_run(
    before: Map<u128, InflightEntry>,
    after: Map<u128, InflightEntry>,
    id: u128,
) -> bool {
    &&& after.remove(id) == before.remove(id)
    &&& after.contains_key(id) ==> after == before
}

/// Running a command to its end leaves the number of commands in flight as
/// it was, whenever that command was not already in flight before; and it
/// never adds one.
pub proof fn lemma_run_keeps_inflight_count(
    before: Map<u128, InflightEntry>,
    after: Map<u128, InflightEntry>,
    id: u128,
)
    requires
        before.dom().finite(),
        inflight_after_run(before, after, id),
    ensures
        after.dom().finite(),
        !before.contains_key(id) ==> after.len() == before.len(),
        after.len() <= before.len(),
{
    if after.contains_key(id) {
    } else {
        assert(after =~= before.remove(id)) by {
            assert(after.remove(id) =~= after);
        }
        if !before.contains_key(id) {
            assert(before.remove(id) =~= before);
        }
    }
}

impl CommandBus {
    /// The commands being run, by the bits of their identifiers.
    pub closed spec fn inflight(&self) -> Map<u128, InflightEntry> {
        inflight_table(self.inflight)
    }

    /// A bus running no command.
    pub fn new() -> (r: Self)
        ensures
            r.inflight().is_empty(),
    {
        CommandBus { inflight: inflight_table_new() }
    }

    /// The number of commands being run.
    pub fn inflight_count(&self) -> (r: usize)
        ensures
            r == self.inflight().len(),
    {
        inflight_table_len(&self.inflight)
    }

    /// Starts running a command.
    ///
    /// Its session must exist (otherwise the error is the result and nothing
    /// is recorded); the command is then recorded as running, and the
    /// session must be allowed the capability the command names
    /// (otherwise the command ends with `PermissionDenied` and a durable
    /// `command.failed` event with reason `permission`); when the capability
    /// changes the workspace, the session must be allowed to do so (otherwise
    /// it ends with `PermissionDenied`); the capability must have a provider
    /// (otherwise it ends with `Failed`). A command that ended is no longer
    /// recorded as running. Otherwise a durable `command.started` event is
    /// published and the provider the capability is routed to is to run.
    pub fn begin<L: DurableLog>(
        &mut self,
        sessions: &SessionManager,
        registry: &CapabilityRegistry,
        bus: &mut EventBus<L>,
        cmd: &Command,
    ) -> (r: CoreResult<Dispatch>)
        requires
            registry.wf(),
            old(bus).last_sequence() < u64::MAX,
        ensures
            sessions.sessions().contains_key(cmd.session_id.0)
                && sessions.sessions()[cmd.session_id.0]@.permissions.capabilities.contains(cmd.name@)
                && !sessions.sessions()[cmd.session_id.0]@.permissions.allow_workspace_mutation
                && registry.routed(cmd.name@) is Some
                && registry.routed(cmd.name@)->0.manifest.side_effect_level
                != SideEffectLevel::ReadOnly ==> (r matches Ok(Dispatch::Finished(res))
                && res@.status == CommandStatus::PermissionDenied),
            ({
                let id = cmd.id.0;
                let sid = cmd.session_id.0;
                let name = cmd.name@;
                let recorded = final(self).inflight().contains_key(id) && final(self).inflight()
                    == old(self).inflight().insert(id, final(self).inflight()[id])
                    && final(self).inflight()[id].command_id == cmd.id
                    && final(self).inflight()[id].session_id == cmd.session_id;
                let ended = final(self).inflight() == old(self).inflight().remove(id);
                if !sessions.sessions().contains_key(sid) {
                    &&& r matches Err(e) && is_session_not_found(e, sid)
                    &&& final(self).inflight() == old(self).inflight()
                    &&& *final(bus) == *old(bus)
                } else if !sessions.sessions()[sid]@.permissions.capabilities.contains(name) {
                    &&& r matches Ok(Dispatch::Finished(res)) && ended_with(
                        res@,
                        id,
                        CommandStatus::PermissionDenied,
                        "ERR-BIZ:002 authz denied: "@ + capability_denied_text(sid, name),
                    )
                    &&& publish_attempted(*old(bus), *final(bus), permission_failed_event(id, sid))
                    &&& ended
                } else if mutates_workspace(*registry, name)
                    && !sessions.sessions()[sid]@.permissions.allow_workspace_mutation {
                    &&& r matches Ok(Dispatch::Finished(res)) && ended_with(
                        res@,
                        id,
                        CommandStatus::PermissionDenied,
                        "ERR-BIZ:006 permission denied for command: "@ + mutation_denied_text(sid),
                    )
                    &&& *final(bus) == *old(bus)
                    &&& ended
                } else if registry.routed(name) is None {
                    &&& r matches Ok(Dispatch::Finished(res)) && ended_with(
                        res@,
                        id,
                        CommandStatus::Failed,
                        "ERR-BIZ:004 capability not found: "@ + name,
                    )
                    &&& *final(bus) == *old(bus)
                    &&& ended
                } else {
                    &&& r matches Ok(Dispatch::Run { provider, started }) && registry.routed(name)
                        == Some(*provider)
                    &&& publish_attempted(*old(bus), *final(bus), started_event(id, sid, name))
                    &&& recorded
                }
            }),
    {
        let _session = sessions.get(&cmd.session_id)?;
        let started = instant_now();
        inflight_table_insert(
            &mut self.inflight,
            cmd.id.0,
            InflightEntry { command_id: cmd.id, session_id: cmd.session_id, started_at: started },
        );
        let capability_id = cmd.name.as_str();
        if let Err(e) = sessions.check_capability(&cmd.session_id, capability_id) {
            let result = ended_result(cmd.id, &started, CommandStatus::PermissionDenied, &e);
            let payload = command_payload(cmd.id.0, "reason", Json::text(String::from_str("permission")));
            let corr = uuid_string(cmd.session_id.0);
            let ghost sp = permission_failed_event(cmd.id.0, cmd.session_id.0);
            assert(payload@ == sp.payload);
            assert(corr@ == sp.correlation_id);
            assert(COMMAND_FAILED@ == sp.event_type);
            let _ = bus.publish(COMMAND_FAILED, Durability::Durable, corr.as_str(), "", payload);
            proof {
                reveal_strlit("");
            }
            assert(""@ == sp.trace_id);
            inflight_table_remove(&mut self.inflight, cmd.id.0);
            assert(self.inflight() == old(self).inflight().remove(cmd.id.0));
            assert(ended_with(
                result@,
                cmd.id.0,
                CommandStatus::PermissionDenied,
                "ERR-BIZ:002 authz denied: "@ + capability_denied_text(cmd.session_id.0, cmd.name@),
            ));
            assert(publish_attempted(*old(bus), *bus, permission_failed_event(cmd.id.0, cmd.session_id.0)));
            return Ok(Dispatch::Finished(result));
        }
        if let Some(manifest) = registry.manifest(capability_id) {
            if manifest.side_effect_level == SideEffectLevel::WorkspaceMutation
                || manifest.side_effect_level == SideEffectLevel::Transactional {
                if let Err(e) = sessions.check_workspace_mutation(&cmd.session_id) {
                    let result = ended_result(cmd.id, &started, CommandStatus::PermissionDenied, &e);
                    inflight_table_remove(&mut self.inflight, cmd.id.0);
                    assert(self.inflight() == old(self).inflight().remove(cmd.id.0));
                    return Ok(Dispatch::Finished(result));
                }
            }
        }
        match registry.route(capability_id) {
            Err(e) => {
                let result = ended_result(cmd.id, &started, CommandStatus::Failed, &e);
                inflight_table_remove(&mut self.inflight, cmd.id.0);
                assert(self.inflight() == old(self).inflight().remove(cmd.id.0));
                Ok(Dispatch::Finished(result))
            },
            Ok(provider) => {
                let payload = command_payload(cmd.id.0, "name", Json::text(cmd.name.clone()));
                let corr = uuid_string(cmd.session_id.0);
                let ghost sp = started_event(cmd.id.0, cmd.session_id.0, cmd.name@);
                assert(payload@ == sp.payload);
                let _ = bus.publish(COMMAND_STARTED, Durability::Durable, corr.as_str(), "", payload);
                proof {
                    reveal_strlit("");
                }
                assert(""@ == sp.trace_id);
                Ok(Dispatch::Run { provider, started })
            },
        }
    }

    /// Ends a command whose provider answered `outcome`: the command is no
    /// longer recorded as running. An answer ends it with `Success` and the
    /// data, announced by a durable `command.completed` event carrying the
    /// duration; an error ends it with `Timeout` for a timeout and `Failed`
    /// otherwise, with the error's message, announced by a durable
    /// `command.failed` event carrying the error's code.
    pub fn finish<L: DurableLog>(
        &mut self,
        bus: &mut EventBus<L>,
        cmd: &Command,
        started: &std::time::Instant,
        outcome: CoreResult<Json>,
    ) -> (r: CommandResult)
        requires
            old(bus).last_sequence() < u64::MAX,
        ensures
            final(self).inflight() == old(self).inflight().remove(cmd.id.0),
            finished(*old(bus), *final(bus), cmd@, outcome, r@),
    {
        let duration_ms = elapsed_millis(started);
        let corr = uuid_string(cmd.session_id.0);
        let result = match outcome {
            Ok(data) => {
                let payload = command_payload(cmd.id.0, "duration_ms", Json::uint(duration_ms));
                let ghost sp = completed_event(cmd.id.0, cmd.session_id.0, duration_ms);
                assert(payload@ == sp.payload);
                let _ = bus.publish(COMMAND_COMPLETED, Durability::Durable, corr.as_str(), "", payload);
                proof {
                    reveal_strlit("");
                }
                assert(""@ == sp.trace_id);
                let diagnostics: Vec<String> = Vec::new();
                assert(texts(diagnostics@) =~= Seq::<Seq<char>>::empty());
                CommandResult {
                    command_id: cmd.id,
                    status: CommandStatus::Success,
                    data: Some(data),
                    diagnostics,
                    error: None,
                    duration_ms,
                }
            },
            Err(err) => {
                let status = if let CoreError::Timeout(_) = err {
                    CommandStatus::Timeout
                } else {
                    CommandStatus::Failed
                };
                let code = err.code();
                let payload = command_payload(cmd.id.0, "code", Json::text(code.to_string()));
                let ghost sp = provider_failed_event(cmd.id.0, cmd.session_id.0, error_code_text(err));
                assert(payload@ == sp.payload);
                let _ = bus.publish(COMMAND_FAILED, Durability::Durable, corr.as_str(), "", payload);
                proof {
                    reveal_strlit("");
                }
                assert(""@ == sp.trace_id);
                let msg = err.to_string();
                let mut diagnostics: Vec<String> = Vec::new();
                diagnostics.push(msg.clone());
                assert(texts(diagnostics@) =~= seq![msg@]);
                CommandResult {
                    command_id: cmd.id,
                    status,
                    data: None,
                    diagnostics,
                    error: Some(msg),
                    duration_ms,
                }
            },
        };
        proof {
            reveal_strlit("");
        }
        inflight_table_remove(&mut self.inflight, cmd.id.0);
        result
    }

    /// Runs a command to its end, with `run` making the call of the provider
    /// that the command is routed to (see [`CommandBus::begin`] and
    /// [`CommandBus::finish`]): whoever runs the kernel supplies it.
    pub fn execute<L: DurableLog, F>(
        &mut self,
        sessions: &SessionManager,
        registry: &CapabilityRegistry,
        bus: &mut EventBus<L>,
        cmd: &Command,
        run: F,
    ) -> (r: CoreResult<CommandResult>) where
        F: Fn(&ProviderEntry, &Json) -> CoreResult<Json>,

        requires
            registry.wf(),
            old(bus).last_sequence() < u64::MAX - 1,
            forall|p: &ProviderEntry, a: &Json| run.requires((p, a)),
        ensures
            sessions.sessions().contains_key(cmd.session_id.0)
                && sessions.sessions()[cmd.session_id.0]@.permissions.capabilities.contains(cmd.name@)
                && !sessions.sessions()[cmd.session_id.0]@.permissions.allow_workspace_mutation
                && registry.routed(cmd.name@) is Some
                && registry.routed(cmd.name@)->0.manifest.side_effect_level
                != SideEffectLevel::ReadOnly ==> (r matches Ok(res) && res@.status
                == CommandStatus::PermissionDenied),
            inflight_after_run(old(self).inflight(), final(self).inflight(), cmd.id.0),
            !old(self).inflight().contains_key(cmd.id.0) ==> final(self).inflight() == old(
                self,
            ).inflight(),
            ({
                let sessions = sessions.sessions();
                let registry = *registry;
                let id = cmd.id.0;
                let sid = cmd.session_id.0;
                let name = cmd.name@;
                let ended = final(self).inflight() == old(self).inflight().remove(id);
                if !sessions.contains_key(sid) {
                    &&& r matches Err(e) && is_session_not_found(e, sid)
                    &&& final(self).inflight() == old(self).inflight()
                    &&& *final(bus) == *old(bus)
                } else if !sessions[sid]@.permissions.capabilities.contains(name) {
                    &&& r matches Ok(res) && ended_with(
                        res@,
                        id,
                        CommandStatus::PermissionDenied,
                        "ERR-BIZ:002 authz denied: "@ + capability_denied_text(sid, name),
                    )
                    &&& publish_attempted(
                        *old(bus),
                        *final(bus),
                        permission_failed_event(id, sid),
                    )
                    &&& ended
                } else if mutates_workspace(registry, name)
                    && !sessions[sid]@.permissions.allow_workspace_mutation {
                    &&& r matches Ok(res) && ended_with(
                        res@,
                        id,
                        CommandStatus::PermissionDenied,
                        "ERR-BIZ:006 permission denied for command: "@ + mutation_denied_text(sid),
                    )
                    &&& *final(bus) == *old(bus)
                    &&& ended
                } else if registry.routed(name) is None {
                    &&& r matches Ok(res) && ended_with(
                        res@,
                        id,
                        CommandStatus::Failed,
                        "ERR-BIZ:004 capability not found: "@ + name,
                    )
                    &&& *final(bus) == *old(bus)
                    &&& ended
                } else {
                    &&& ended
                    &&& exists|mid: EventBus<L>, outcome: CoreResult<Json>|
                        {
                            &&& #[trigger] run.ensures(
                                (&registry.routed(name)->0, &cmd.arguments),
                                outcome,
                            )
                            &&& #[trigger] publish_attempted(
                                *old(bus),
                                mid,
                                started_event(id, sid, name),
                            )
                            &&& r matches Ok(res) && finished(
                                mid,
                                *final(bus),
                                cmd@,
                                outcome,
                                res@,
                            )
                        }
                }
            }),
    {
        let dispatch = self.begin(sessions, registry, bus, cmd)?;
        assert(!old(self).inflight().contains_key(cmd.id.0) ==> old(self).inflight().remove(
            cmd.id.0,
        ) =~= old(self).inflight());
        assert(old(self).inflight().remove(cmd.id.0).remove(cmd.id.0) =~= old(self).inflight().remove(
            cmd.id.0,
        ));
        match dispatch {
            Dispatch::Finished(res) => Ok(res),
            Dispatch::Run { provider, started } => {
                let ghost mid = *bus;
                let outcome = run(&*provider, &cmd.arguments);
                let ghost out = outcome;
                let res = self.finish(bus, cmd, &started, outcome);
                assert(run.ensures((&*provider, &cmd.arguments), out));
                assert(registry.routed(cmd.name@)->0 == *provider);
                assert(publish_attempted(
                    *old(bus),
                    mid,
                    started_event(cmd.id.0, cmd.session_id.0, cmd.name@),
                ));
                assert(self.inflight() =~= old(self).inflight().remove(
                    cmd.id.0,
                ));
                Ok(res)
            },
        }
    }
}

} // verus!

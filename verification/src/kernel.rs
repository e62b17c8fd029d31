//! The microkernel: one handle on the event bus, the session manager, the
//! capability registry and the command bus.

use vstd::prelude::*;
use crate::capability::{
    capability_registered_event, insert_by_priority, CapabilityManifest, CapabilityRegistry,
    Priority, ProviderEntry, ProviderHandle, SideEffectLevel,
};
use crate::cmd_bus::CommandBus;
use crate::error::CoreResult;
use crate::eventbus::{published, publish_attempted, DurableLog, EventBus, InMemoryDurableLog};
use crate::json::Json;
use crate::session::SessionManager;
use vstd::string::StringExecFns;

verus! {

/// The handle under which the built-in echo provider is registered.
pub const ECHO_PROVIDER_ID: u64 = 0;

/// What the built-in echo provider answers: its arguments.
pub fn echo_execute(args: Json) -> (r: CoreResult<Json>)
    ensures
        r matches Ok(v) && v@ == args@,
{
    Ok(args)
}

/// The manifest of the built-in echo capability.
pub open spec fn is_echo_manifest(m: CapabilityManifest) -> bool {
    &&& m.capability_id@ == "echo"@
    &&& m.description@ == "echo arguments back"@
    &&& m.version@ == "1.0"@
    &&& m.side_effect_level == SideEffectLevel::ReadOnly
}

/// The kernel.
pub struct Microkernel<L: DurableLog> {
    pub event_bus: EventBus<L>,
    pub session_manager: SessionManager,
    pub capability_registry: CapabilityRegistry,
    pub command_bus: CommandBus,
}

impl Microkernel<InMemoryDurableLog> {
    /// A kernel whose durable events are kept in memory.
    pub fn new() -> (r: Self)
        ensures
            r.wf(),
            r.event_bus.last_sequence() == 0,
            r.event_bus.records().len() == 0,
            r.session_manager.sessions().is_empty(),
            r.capability_registry.entries().is_empty(),
            r.command_bus.inflight().is_empty(),
    {
        Self::with_durable_log(InMemoryDurableLog::new())
    }
}

impl<L: DurableLog> Microkernel<L> {
    /// The parts fit together: the registry is well formed.
    pub open spec fn wf(&self) -> bool {
        self.capability_registry.wf()
    }

    /// A kernel over the given durable log, with no session, no registration
    /// and no command running.
    pub fn with_durable_log(log: L) -> (r: Self)
        ensures
            r.wf(),
            r.event_bus.last_sequence() == 0,
            r.event_bus.records() == log.records(),
            r.event_bus.pending().len() == 0,
            r.session_manager.sessions().is_empty(),
            r.capability_registry.entries().is_empty(),
            r.command_bus.inflight().is_empty(),
    {
        Microkernel {
            event_bus: EventBus::new(log),
            session_manager: SessionManager::new(),
            capability_registry: CapabilityRegistry::new(),
            command_bus: CommandBus::new(),
        }
    }

    /// Registers the built-in `echo` capability: a read-only capability whose
    /// provider (handle [`ECHO_PROVIDER_ID`], named `echo`) answers its
    /// arguments, at the default priority.
    pub fn register_echo_capability(&mut self) -> (r: CoreResult<()>)
        requires
            old(self).wf(),
            old(self).event_bus.last_sequence() < u64::MAX,
        ensures
            final(self).wf(),
            final(self).session_manager == old(self).session_manager,
            final(self).command_bus == old(self).command_bus,
            exists|m: CapabilityManifest, h: ProviderHandle|
                {
                    &&& is_echo_manifest(m)
                    &&& h.id == ECHO_PROVIDER_ID
                    &&& h.name@ == "echo"@
                    &&& final(self).capability_registry.entries() == old(
                        self,
                    ).capability_registry.entries().insert(
                        "echo"@,
                        insert_by_priority(
                            if old(self).capability_registry.entries().contains_key("echo"@) {
                                old(self).capability_registry.entries()["echo"@]
                            } else {
                                Seq::empty()
                            },
                            ProviderEntry { provider: h, manifest: m, priority: Priority(100) },
                        ),
                    )
                    &&& publish_attempted(
                        old(self).event_bus,
                        final(self).event_bus,
                        capability_registered_event(m, Priority(100)),
                    )
                    &&& r is Ok <==> published(
                        old(self).event_bus,
                        final(self).event_bus,
                        capability_registered_event(m, Priority(100)),
                    )
                },
    {
        let manifest = CapabilityManifest {
            capability_id: String::from_str("echo"),
            description: String::from_str("echo arguments back"),
            version: String::from_str("1.0"),
            side_effect_level: SideEffectLevel::ReadOnly,
        };
        let handle = ProviderHandle { id: ECHO_PROVIDER_ID, name: String::from_str("echo") };
        let ghost m = manifest;
        let ghost h = handle;
        let r = self.capability_registry.register(
            &mut self.event_bus,
            manifest,
            handle,
            Priority::default(),
        );
        assert(is_echo_manifest(m));
        r
    }
}

} // verus!

use ide_kernel::capability::ProviderEntry;
use ide_kernel::cmd_bus::{CommandBuilder, CommandStatus};
use ide_kernel::error::{CoreError, CoreResult};
use ide_kernel::eventbus::event_type;
use ide_kernel::json::Json;
use ide_kernel::kernel::{echo_execute, Microkernel, ECHO_PROVIDER_ID};
use ide_kernel::session::{ActorKind, PermissionSet, ResourceBudget};

fn run(entry: &ProviderEntry, args: &Json) -> CoreResult<Json> {
    if entry.provider.id == ECHO_PROVIDER_ID {
        echo_execute(args.clone())
    } else {
        Err(CoreError::Internal("unknown provider".to_string()))
    }
}

#[test]
fn microkernel_end_to_end_echo() {
    let mut kernel = Microkernel::new();
    kernel.register_echo_capability().unwrap();
    let session = kernel
        .session_manager
        .create(
            &mut kernel.event_bus,
            ActorKind::Human,
            PermissionSet::human_editor(),
            ResourceBudget::default(),
        )
        .unwrap();
    let cmd = CommandBuilder::new("echo", session.id)
        .args(Json::object(vec![("text".to_string(), Json::text("hello".to_string()))]))
        .build();
    let result = kernel.command_bus.execute(&kernel.session_manager, &kernel.capability_registry, &mut kernel.event_bus, &cmd, run).unwrap();
    assert_eq!(result.data.unwrap().get("text").and_then(|v| v.as_str()), Some("hello"));
}

#[test]
fn microkernel_event_flow_emits_started_and_completed() {
    let mut kernel = Microkernel::new();
    kernel.register_echo_capability().unwrap();
    let session = kernel
        .session_manager
        .create(
            &mut kernel.event_bus,
            ActorKind::Human,
            PermissionSet::human_editor(),
            ResourceBudget::default(),
        )
        .unwrap();
    let cmd = CommandBuilder::new("echo", session.id).build();
    kernel.command_bus.execute(&kernel.session_manager, &kernel.capability_registry, &mut kernel.event_bus, &cmd, run).unwrap();
    let replayed = kernel.event_bus.replay(1, None).unwrap();
    let types: Vec<&str> = replayed.iter().map(|e| e.event_type.as_str()).collect();
    assert!(types.contains(&event_type::COMMAND_STARTED));
    assert!(types.contains(&event_type::COMMAND_COMPLETED));
}

#[test]
fn echo_capability_is_read_only_and_listed() {
    let mut kernel = Microkernel::new();
    kernel.register_echo_capability().unwrap();
    let list = kernel.capability_registry.list();
    assert_eq!(list.len(), 1);
    assert_eq!(list[0].capability_id, "echo");
    assert_eq!(list[0].description, "echo arguments back");
    assert_eq!(list[0].version, "1.0");
    let entry = kernel.capability_registry.route("echo").unwrap();
    assert_eq!(entry.provider.id, ECHO_PROVIDER_ID);
    assert_eq!(entry.provider.name, "echo");
}

#[test]
fn agent_cannot_echo() {
    let mut kernel = Microkernel::new();
    kernel.register_echo_capability().unwrap();
    let session = kernel
        .session_manager
        .create(
            &mut kernel.event_bus,
            ActorKind::Agent,
            PermissionSet::for_actor(ActorKind::Agent),
            ResourceBudget::default(),
        )
        .unwrap();
    let cmd = CommandBuilder::new("echo", session.id).build();
    let result = kernel.command_bus.execute(&kernel.session_manager, &kernel.capability_registry, &mut kernel.event_bus, &cmd, run).unwrap();
    assert_eq!(result.status, CommandStatus::PermissionDenied);
    assert_eq!(kernel.command_bus.inflight_count(), 0);
}

use ide_kernel::capability::{CapabilityManifest, Priority, ProviderEntry, ProviderHandle, SideEffectLevel};
use ide_kernel::cmd_bus::{CommandBuilder, CommandStatus, Dispatch};
use ide_kernel::error::{CoreError, CoreResult};
use ide_kernel::eventbus::{event_type, InMemoryDurableLog};
use ide_kernel::json::Json;
use ide_kernel::kernel::Microkernel;
use ide_kernel::session::{ActorKind, PermissionSet, ResourceBudget, SessionId};

const HELLO: u64 = 7;

fn hello(_entry: &ProviderEntry, args: &Json) -> CoreResult<Json> {
    let name = args.get("name").and_then(|v| v.as_str()).unwrap_or("world");
    Ok(Json::object(vec![(
        "greeting".to_string(),
        Json::text(format!("hello, {name}!")),
    )]))
}

fn register(kernel: &mut Microkernel<InMemoryDurableLog>, id: &str, level: SideEffectLevel) {
    kernel
        .capability_registry
        .register(
            &mut kernel.event_bus,
            CapabilityManifest {
                capability_id: id.to_string(),
                description: "say hello".to_string(),
                version: "1.0".to_string(),
                side_effect_level: level,
            },
            ProviderHandle { id: HELLO, name: "buffer.read".to_string() },
            Priority::default(),
        )
        .unwrap();
}

fn setup() -> (Microkernel<InMemoryDurableLog>, SessionId) {
    let mut kernel = Microkernel::new();
    register(&mut kernel, "buffer.read", SideEffectLevel::ReadOnly);
    let s = kernel
        .session_manager
        .create(
            &mut kernel.event_bus,
            ActorKind::Human,
            PermissionSet::human_editor(),
            ResourceBudget::default(),
        )
        .unwrap();
    (kernel, s.id)
}

#[test]
fn execute_happy_path() {
    let (mut kernel, sid) = setup();
    let cmd = CommandBuilder::new("buffer.read", sid)
        .args(Json::object(vec![("name".to_string(), Json::text("minimax".to_string()))]))
        .build();
    let result = kernel.command_bus.execute(&kernel.session_manager, &kernel.capability_registry, &mut kernel.event_bus, &cmd, hello).unwrap();
    assert_eq!(result.status, CommandStatus::Success);
    assert_eq!(
        result.data.unwrap().get("greeting").and_then(|v| v.as_str()),
        Some("hello, minimax!")
    );
    assert_eq!(kernel.command_bus.inflight_count(), 0);
}

#[test]
fn execute_unknown_capability_returns_failed() {
    let (mut kernel, sid) = setup();
    // "text.search" is in human_editor's allow-list but not registered, so it fails at routing
    let cmd = CommandBuilder::new("text.search", sid).build();
    let result = kernel.command_bus.execute(&kernel.session_manager, &kernel.capability_registry, &mut kernel.event_bus, &cmd, hello).unwrap();
    assert_eq!(result.status, CommandStatus::Failed);
    assert!(result.error.unwrap().contains("ERR-BIZ:004"));
}

#[test]
fn execute_permission_denied() {
    let mut kernel = Microkernel::new();
    register(&mut kernel, "secret", SideEffectLevel::ReadOnly);
    let mut perm = PermissionSet::agent_default();
    perm.capabilities.clear();
    perm.capabilities.push("buffer.read".to_string());
    let s = kernel
        .session_manager
        .create(&mut kernel.event_bus, ActorKind::Agent, perm, ResourceBudget::default())
        .unwrap();
    let cmd = CommandBuilder::new("secret", s.id).build();
    let result = kernel.command_bus.execute(&kernel.session_manager, &kernel.capability_registry, &mut kernel.event_bus, &cmd, hello).unwrap();
    assert_eq!(result.status, CommandStatus::PermissionDenied);
    assert!(result.error.unwrap().contains("ERR-BIZ:002"));
    let events = kernel.event_bus.replay(1, None).unwrap();
    let last = events.last().unwrap();
    assert_eq!(last.event_type, event_type::COMMAND_FAILED);
    assert_eq!(last.payload.get("reason").and_then(|v| v.as_str()), Some("permission"));
}

#[test]
fn execute_unknown_session_errors() {
    let mut kernel = Microkernel::new();
    let cmd = CommandBuilder::new("hello", SessionId::new()).build();
    let err = kernel.command_bus.execute(&kernel.session_manager, &kernel.capability_registry, &mut kernel.event_bus, &cmd, hello).unwrap_err();
    assert!(matches!(err, CoreError::SessionNotFound(_)));
    assert_eq!(kernel.command_bus.inflight_count(), 0);
}

#[test]
fn workspace_mutation_needs_permission() {
    let mut kernel = Microkernel::new();
    register(&mut kernel, "file.patch", SideEffectLevel::WorkspaceMutation);
    let mut perm = PermissionSet::human_editor();
    perm.allow_workspace_mutation = false;
    let s = kernel
        .session_manager
        .create(&mut kernel.event_bus, ActorKind::Human, perm, ResourceBudget::default())
        .unwrap();
    let before = kernel.event_bus.current_sequence();
    let cmd = CommandBuilder::new("file.patch", s.id).build();
    let result = kernel.command_bus.execute(&kernel.session_manager, &kernel.capability_registry, &mut kernel.event_bus, &cmd, hello).unwrap();
    assert_eq!(result.status, CommandStatus::PermissionDenied);
    assert!(result.error.unwrap().contains("ERR-BIZ:006"));
    assert_eq!(kernel.event_bus.current_sequence(), before);
}

#[test]
fn provider_errors_are_reported() {
    let (mut kernel, sid) = setup();
    let cmd = CommandBuilder::new("buffer.read", sid).build();
    let result = kernel.command_bus.execute(&kernel.session_manager, &kernel.capability_registry, &mut kernel.event_bus, &cmd, |_e: &ProviderEntry, _a: &Json| Err(CoreError::Timeout("slow".to_string())))
        .unwrap();
    assert_eq!(result.status, CommandStatus::Timeout);
    assert_eq!(result.error.as_deref(), Some("ERR-SYS:003 timeout: slow"));
    assert_eq!(result.diagnostics, vec!["ERR-SYS:003 timeout: slow".to_string()]);
    let cmd = CommandBuilder::new("buffer.read", sid).build();
    let result = kernel.command_bus.execute(&kernel.session_manager, &kernel.capability_registry, &mut kernel.event_bus, &cmd, |_e: &ProviderEntry, _a: &Json| Err(CoreError::Provider("down".to_string())))
        .unwrap();
    assert_eq!(result.status, CommandStatus::Failed);
    let events = kernel.event_bus.replay(1, None).unwrap();
    let last = events.last().unwrap();
    assert_eq!(last.event_type, event_type::COMMAND_FAILED);
    assert_eq!(last.payload.get("code").and_then(|v| v.as_str()), Some("ERR-EXT:001"));
}

#[test]
fn begin_then_finish_by_hand() {
    let (mut kernel, sid) = setup();
    let cmd = CommandBuilder::new("buffer.read", sid).build();
    let dispatch = kernel
        .command_bus
        .begin(&kernel.session_manager, &kernel.capability_registry, &mut kernel.event_bus, &cmd)
        .unwrap();
    let (provider, started) = match dispatch {
        Dispatch::Run { provider, started } => (provider, started),
        Dispatch::Finished(_) => panic!("expected the provider to run"),
    };
    assert_eq!(provider.provider.id, HELLO);
    assert_eq!(kernel.command_bus.inflight_count(), 1);
    let outcome = hello(&provider, &cmd.arguments);
    let result = kernel.command_bus.finish(&mut kernel.event_bus, &cmd, &started, outcome);
    assert_eq!(result.status, CommandStatus::Success);
    assert_eq!(kernel.command_bus.inflight_count(), 0);
    let events = kernel.event_bus.replay(1, None).unwrap();
    let n = events.len();
    assert_eq!(events[n - 2].event_type, event_type::COMMAND_STARTED);
    assert_eq!(events[n - 2].payload.get("name").and_then(|v| v.as_str()), Some("buffer.read"));
    assert_eq!(events[n - 1].event_type, event_type::COMMAND_COMPLETED);
    assert_eq!(
        events[n - 1].payload.get("duration_ms"),
        Some(&Json::uint(result.duration_ms))
    );
}

#[test]
fn builder_sets_arguments_and_timeout() {
    let sid = SessionId::new();
    let cmd = CommandBuilder::new("x", sid).build();
    assert_eq!(cmd.name, "x");
    assert_eq!(cmd.session_id, sid);
    assert_eq!(cmd.arguments, Json::empty_object());
    assert!(cmd.timeout.is_none());
    let cmd = CommandBuilder::new("y", sid)
        .args(Json::uint(3))
        .timeout(std::time::Duration::from_millis(50))
        .build();
    assert_eq!(cmd.arguments, Json::uint(3));
    assert_eq!(cmd.timeout, Some(std::time::Duration::from_millis(50)));
}

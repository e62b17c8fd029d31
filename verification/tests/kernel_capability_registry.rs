use ide_kernel::capability::{
    CapabilityManifest, CapabilityRegistry, Priority, ProviderEntry, ProviderHandle,
    SideEffectLevel,
};
use ide_kernel::error::{CoreError, CoreResult};
use ide_kernel::eventbus::event_type;
use ide_kernel::eventbus::{EventBus, InMemoryDurableLog};
use ide_kernel::json::{Json, JsonNumber};

const ECHO: u64 = 1;
const DOUBLE: u64 = 2;

fn run_provider(entry: &ProviderEntry, args: Json) -> CoreResult<Json> {
    match entry.provider.id {
        ECHO => Ok(args),
        DOUBLE => {
            let n = match args.get("n") {
                Some(Json::Number(JsonNumber::PosInt(n))) => *n as i64,
                Some(Json::Number(JsonNumber::NegInt(n))) => *n,
                _ => 0,
            };
            Ok(Json::object(vec![("result".to_string(), Json::Number(JsonNumber::NegInt(n * 2)))]))
        }
        _ => Err(CoreError::Internal("no provider".to_string())),
    }
}

fn manifest(id: &str, description: &str) -> CapabilityManifest {
    CapabilityManifest {
        capability_id: id.to_string(),
        description: description.to_string(),
        version: "1.0".to_string(),
        side_effect_level: SideEffectLevel::ReadOnly,
    }
}

fn handle(id: u64, name: &str) -> ProviderHandle {
    ProviderHandle { id, name: name.to_string() }
}

fn setup() -> (EventBus<InMemoryDurableLog>, CapabilityRegistry) {
    (EventBus::new(InMemoryDurableLog::new()), CapabilityRegistry::new())
}

#[test]
fn register_and_route() {
    let (mut bus, mut reg) = setup();
    reg.register(&mut bus, manifest("echo", "echo args"), handle(ECHO, "echo"), Priority::default())
        .unwrap();
    let entry = reg.route("echo").unwrap();
    let args = Json::object(vec![("a".to_string(), Json::uint(1))]);
    let out = run_provider(&entry, args.clone()).unwrap();
    assert_eq!(out, args);
}

#[test]
fn higher_priority_wins() {
    let (mut bus, mut reg) = setup();
    reg.register(&mut bus, manifest("math.double", "double (low prio)"), handle(DOUBLE, "double"), Priority(10))
        .unwrap();
    reg.register(&mut bus, manifest("math.double", "double (high prio)"), handle(DOUBLE, "double"), Priority(999))
        .unwrap();
    let entry = reg.route("math.double").unwrap();
    assert_eq!(entry.priority, Priority(999));
    let out = run_provider(&entry, Json::object(vec![("n".to_string(), Json::uint(21))])).unwrap();
    assert_eq!(out.get("result"), Some(&Json::Number(JsonNumber::NegInt(42))));
}

#[test]
fn unknown_capability_errors() {
    let (_bus, reg) = setup();
    let err = reg.route("nonexistent").unwrap_err();
    assert!(matches!(err, CoreError::CapabilityNotFound(_)));
}

#[test]
fn unregister_removes_provider() {
    let (mut bus, mut reg) = setup();
    reg.register(&mut bus, manifest("echo", "echo"), handle(ECHO, "echo"), Priority::default())
        .unwrap();
    reg.unregister(&mut bus, "echo", "echo").unwrap();
    assert!(reg.route("echo").is_err());
}

#[test]
fn list_returns_unique_capabilities() {
    let (mut bus, mut reg) = setup();
    reg.register(&mut bus, manifest("echo", "a"), handle(ECHO, "echo"), Priority(1)).unwrap();
    reg.register(&mut bus, manifest("echo", "b"), handle(ECHO, "echo"), Priority(99)).unwrap();
    let list = reg.list();
    let echo_entries: Vec<_> = list.iter().filter(|m| m.capability_id == "echo").collect();
    assert_eq!(echo_entries.len(), 1);
    assert_eq!(echo_entries[0].description, "b");
}

#[test]
fn equal_priorities_keep_registration_order() {
    let (mut bus, mut reg) = setup();
    reg.register(&mut bus, manifest("x", "first"), handle(1, "p1"), Priority(5)).unwrap();
    reg.register(&mut bus, manifest("x", "second"), handle(2, "p2"), Priority(5)).unwrap();
    reg.register(&mut bus, manifest("x", "low"), handle(3, "p3"), Priority(1)).unwrap();
    assert_eq!(reg.route("x").unwrap().manifest.description, "first");
    assert_eq!(reg.manifest("x").unwrap().description, "first");
    reg.unregister(&mut bus, "x", "p1").unwrap();
    assert_eq!(reg.route("x").unwrap().manifest.description, "second");
}

#[test]
fn unregister_events_and_errors() {
    let (mut bus, mut reg) = setup();
    assert!(matches!(
        reg.unregister(&mut bus, "missing", "p"),
        Err(CoreError::CapabilityNotFound(_))
    ));
    reg.register(&mut bus, manifest("echo", "e"), handle(ECHO, "echo"), Priority(7)).unwrap();
    // an unknown provider name removes nothing and announces nothing
    reg.unregister(&mut bus, "echo", "other").unwrap();
    assert_eq!(bus.current_sequence(), 1);
    reg.unregister(&mut bus, "echo", "echo").unwrap();
    let events = bus.replay(1, None).unwrap();
    assert_eq!(events.len(), 2);
    assert_eq!(events[0].event_type, event_type::CAPABILITY_REGISTERED);
    assert_eq!(events[0].payload.get("priority"), Some(&Json::uint(7)));
    assert_eq!(events[0].payload.get("version").and_then(|v| v.as_str()), Some("1.0"));
    assert_eq!(events[1].event_type, event_type::CAPABILITY_UNREGISTERED);
    assert_eq!(events[1].payload.get("provider").and_then(|v| v.as_str()), Some("echo"));
    // the capability stays known with no provider
    assert!(reg.manifest("echo").is_none());
    assert!(reg.list().is_empty());
    assert!(matches!(reg.route("echo"), Err(CoreError::CapabilityNotFound(m)) if m == "echo"));
}

#[test]
fn default_priority_is_100() {
    assert_eq!(Priority::default(), Priority(100));
}

use ide_kernel::error::CoreError;
use ide_kernel::eventbus::event_type;
use ide_kernel::eventbus::{EventBus, InMemoryDurableLog};
use ide_kernel::session::{ActorKind, PermissionSet, ResourceBudget, SessionId, SessionManager};

fn setup() -> (EventBus<InMemoryDurableLog>, SessionManager) {
    (EventBus::new(InMemoryDurableLog::new()), SessionManager::new())
}

#[test]
fn create_and_get_session() {
    let (mut bus, mut mgr) = setup();
    let s = mgr
        .create(&mut bus, ActorKind::Human, PermissionSet::human_editor(), ResourceBudget::default())
        .unwrap();
    let got = mgr.get(&s.id).unwrap();
    assert_eq!(got.id, s.id);
    assert_eq!(got.actor, ActorKind::Human);
    assert_eq!(mgr.count(), 1);
}

#[test]
fn get_unknown_session_errors() {
    let (_bus, mgr) = setup();
    let err = mgr.get(&SessionId::new()).unwrap_err();
    assert!(matches!(err, CoreError::SessionNotFound(_)));
}

#[test]
fn delete_emits_event() {
    let (mut bus, mut mgr) = setup();
    let s = mgr
        .create(&mut bus, ActorKind::Agent, PermissionSet::agent_default(), ResourceBudget::default())
        .unwrap();
    mgr.delete(&mut bus, &s.id).unwrap();
    let replayed = bus.replay(1, None).unwrap();
    let types: Vec<&str> = replayed.iter().map(|e| e.event_type.as_str()).collect();
    assert!(types.contains(&event_type::SESSION_CREATED));
    assert!(types.contains(&event_type::SESSION_CLOSED));
    assert_eq!(mgr.count(), 0);
    assert!(matches!(mgr.get(&s.id), Err(CoreError::SessionNotFound(_))));
    assert!(matches!(mgr.delete(&mut bus, &s.id), Err(CoreError::SessionNotFound(_))));
}

#[test]
fn check_capability_enforces_allowlist() {
    let (mut bus, mut mgr) = setup();
    let s = mgr
        .create(&mut bus, ActorKind::Human, PermissionSet::human_editor(), ResourceBudget::default())
        .unwrap();
    mgr.check_capability(&s.id, "buffer.read").unwrap();
    assert!(mgr.check_capability(&s.id, "buffer.banana").is_err());
}

#[test]
fn recent_buffers_is_capped_at_32() {
    let (mut bus, mut mgr) = setup();
    let mut s = mgr
        .create(&mut bus, ActorKind::Human, PermissionSet::human_editor(), ResourceBudget::default())
        .unwrap();
    for i in 0..40 {
        s.touch_buffer(format!("file{i}.rs"));
    }
    let recent = s.recent_buffers();
    assert_eq!(recent.len(), 32);
    assert_eq!(recent[0], "file39.rs");
}

#[test]
fn touching_again_moves_to_front_without_duplicate() {
    let (mut bus, mut mgr) = setup();
    let mut s = mgr
        .create(&mut bus, ActorKind::Human, PermissionSet::human_editor(), ResourceBudget::default())
        .unwrap();
    s.touch_buffer("a.rs".to_string());
    s.touch_buffer("b.rs".to_string());
    s.touch_buffer("c.rs".to_string());
    s.touch_buffer("a.rs".to_string());
    assert_eq!(s.recent_buffers(), vec!["a.rs", "c.rs", "b.rs"]);
}

#[test]
fn created_event_names_session_and_actor() {
    let (mut bus, mut mgr) = setup();
    let s = mgr
        .create(&mut bus, ActorKind::Ci, PermissionSet::agent_default(), ResourceBudget::default())
        .unwrap();
    let events = bus.replay(1, None).unwrap();
    assert_eq!(events.len(), 1);
    let e = &events[0];
    assert_eq!(e.event_type, event_type::SESSION_CREATED);
    assert_eq!(e.correlation_id.len(), 36);
    assert_eq!(e.correlation_id, uuid::Uuid::from_u128(s.id.0).to_string());
    assert_eq!(e.payload.get("actor").and_then(|v| v.as_str()), Some("Ci"));
    assert_eq!(
        e.payload.get("session_id").and_then(|v| v.as_str()),
        Some(e.correlation_id.as_str())
    );
}

#[test]
fn denials_explain_themselves() {
    let (mut bus, mut mgr) = setup();
    let mut perm = PermissionSet::agent_default();
    perm.allow_workspace_mutation = false;
    let s = mgr
        .create(&mut bus, ActorKind::Agent, perm, ResourceBudget::default())
        .unwrap();
    let text = uuid::Uuid::from_u128(s.id.0).to_string();
    match mgr.check_capability(&s.id, "secret") {
        Err(CoreError::AuthzDenied(m)) => {
            assert_eq!(m, format!("session {text} cannot call capability 'secret'"))
        }
        other => panic!("unexpected {other:?}"),
    }
    match mgr.check_workspace_mutation(&s.id) {
        Err(CoreError::CommandPermissionDenied(m)) => {
            assert_eq!(m, format!("session {text} cannot mutate workspace"))
        }
        other => panic!("unexpected {other:?}"),
    }
    match mgr.get(&SessionId(7)) {
        Err(CoreError::SessionNotFound(m)) => {
            assert_eq!(m, "00000000-0000-0000-0000-000000000007")
        }
        other => panic!("unexpected {other:?}"),
    }
}

#[test]
fn permission_presets() {
    let h = PermissionSet::human_editor();
    assert_eq!(h.capabilities.len(), 10);
    assert!(h.allows("echo"));
    assert!(h.allow_workspace_mutation);
    assert!(!h.allow_remote_ai);
    let a = PermissionSet::agent_default();
    assert_eq!(a.capabilities.len(), 8);
    assert!(a.allows("txn.begin"));
    assert!(!a.allows("echo"));
    assert_eq!(PermissionSet::for_actor(ActorKind::Human).capabilities, h.capabilities);
    assert_eq!(PermissionSet::for_actor(ActorKind::Plugin).capabilities, a.capabilities);
    let b = ResourceBudget::default();
    assert_eq!(b.max_tokens_per_minute, 100_000);
    assert_eq!(b.max_commands_per_session, 10_000);
    assert_eq!(b.max_concurrent_commands, 8);
}

#[test]
fn manager_touch_buffer_updates_stored_session() {
    let (mut bus, mut mgr) = setup();
    let s = mgr
        .create(&mut bus, ActorKind::Human, PermissionSet::human_editor(), ResourceBudget::default())
        .unwrap();
    mgr.touch_buffer(&s.id, "a.rs".to_string()).unwrap();
    mgr.touch_buffer(&s.id, "b.rs".to_string()).unwrap();
    mgr.touch_buffer(&s.id, "a.rs".to_string()).unwrap();
    let stored = mgr.get(&s.id).unwrap();
    assert_eq!(stored.recent_buffers(), vec!["a.rs", "b.rs"]);
    assert!(s.recent_buffers().is_empty());
}

#[test]
fn manager_touch_buffer_unknown_session_fails() {
    let (_bus, mut mgr) = setup();
    let missing = SessionId::new();
    let err = mgr.touch_buffer(&missing, "a.rs".to_string()).unwrap_err();
    assert!(matches!(err, CoreError::SessionNotFound(_)));
    assert_eq!(mgr.count(), 0);
}

#[test]
fn created_sessions_get_random_uuids_and_times() {
    let (mut bus, mut mgr) = setup();
    let s = mgr
        .create(&mut bus, ActorKind::Human, PermissionSet::human_editor(), ResourceBudget::default())
        .unwrap();
    assert_eq!(uuid::Uuid::from_u128(s.id.0).get_version_num(), 4);
    assert!(s.created_at.secs > 1_600_000_000);
    assert!(s.created_at.nanos < 2_000_000_000);
    let e = &bus.replay(1, None).unwrap()[0];
    assert_eq!(uuid::Uuid::from_u128(e.event_id.0).get_version_num(), 4);
}

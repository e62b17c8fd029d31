use ide_kernel::trace_context::{split_dash_exec, TraceContext};

#[test]
fn trace_context_roundtrip() {
    let ctx = TraceContext::new("S-abc");
    let header = ctx.to_traceparent();
    let parsed = TraceContext::from_traceparent(&header).unwrap();
    assert_eq!(parsed.trace_id, ctx.trace_id);
    assert_eq!(parsed.span_id, ctx.span_id);
}

#[test]
fn invalid_traceparent_returns_none() {
    assert!(TraceContext::from_traceparent("garbage").is_none());
    assert!(TraceContext::from_traceparent("").is_none());
}

#[test]
fn child_span_keeps_trace_id() {
    let parent = TraceContext::new("C-1");
    let child = parent.child_span();
    assert_eq!(parent.trace_id, child.trace_id);
    assert_ne!(parent.span_id, child.span_id);
}

#[test]
fn trace_id_has_expected_length() {
    let ctx = TraceContext::new("test");
    assert_eq!(ctx.trace_id.len(), 32);
    assert_eq!(ctx.span_id.len(), 16);
    assert!(ctx.trace_id.chars().all(|c| c.is_ascii_hexdigit() && !c.is_ascii_uppercase()));
}

#[test]
fn traceparent_format_and_parsing() {
    let ctx = TraceContext {
        trace_id: "abc".to_string(),
        span_id: "def".to_string(),
        correlation_id: "corr".to_string(),
    };
    assert_eq!(ctx.to_traceparent(), "00-abc-def-01");
    let trace = "4bf92f3577b34da6a3ce929d0e0e4736";
    let span = "00f067aa0ba902b7";
    let parsed = TraceContext::from_traceparent(&format!("00-{trace}-{span}-01")).unwrap();
    assert_eq!(parsed.trace_id, trace);
    assert_eq!(parsed.span_id, span);
    assert_eq!(parsed.correlation_id, "");
    assert!(TraceContext::from_traceparent(&format!("00-{trace}-{span}-ff")).is_some());
}

#[test]
fn malformed_traceparent_is_rejected() {
    let trace = "4bf92f3577b34da6a3ce929d0e0e4736";
    let span = "00f067aa0ba902b7";
    assert!(TraceContext::from_traceparent("00-zz-q-01").is_none());
    assert!(TraceContext::from_traceparent("00-1234-5678-ff").is_none());
    assert!(TraceContext::from_traceparent("00---").is_none());
    assert!(TraceContext::from_traceparent(&format!("01-{trace}-{span}-01")).is_none());
    assert!(TraceContext::from_traceparent(&format!("00-{}-{span}-01", trace.to_uppercase())).is_none());
    assert!(TraceContext::from_traceparent(&format!("00-{trace}-{span}-1")).is_none());
    assert!(TraceContext::from_traceparent(&format!("00-{trace}-{span}0-01")).is_none());
    assert!(TraceContext::from_traceparent(&format!("00-{trace}-{span}-01-x")).is_none());
    assert!(TraceContext::from_traceparent(&format!("00-{trace}-{span}")).is_none());
}

#[test]
fn split_matches_std() {
    for s in ["", "-", "a-b", "--x-", "no dash"] {
        let ours = split_dash_exec(s);
        let std: Vec<String> = s.split('-').map(|p| p.to_string()).collect();
        assert_eq!(ours, std);
    }
}

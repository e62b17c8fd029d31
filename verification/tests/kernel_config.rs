use ide_kernel::config::{
    cli_overrides_toml, default_log_level, layer_order, parse_bool, KernelConfig, SourcePriority,
};
use ide_kernel::json::Json;

fn obj(items: Vec<(&str, Json)>) -> Json {
    Json::object(items.into_iter().map(|(k, v)| (k.to_string(), v)).collect())
}

#[test]
fn defaults() {
    let cfg = KernelConfig::default();
    assert!(!cfg.ai.remote_enabled);
    assert!(cfg.ai.default_provider.is_none());
    assert_eq!(cfg.log.level, "info");
    assert!(!cfg.log.json);
    assert!(cfg.data_dir.is_none());
    assert_eq!(default_log_level(), "info");
}

#[test]
fn cli_override_layer_text() {
    let o = obj(vec![("log", obj(vec![("level", Json::text("trace".to_string()))]))]);
    assert_eq!(cli_overrides_toml(&o), "[log]\nlevel = \"trace\"\n");
    let o = obj(vec![
        (
            "ai",
            obj(vec![
                ("remote_enabled", Json::Bool(true)),
                ("default_provider", Json::text("local-llm".to_string())),
            ]),
        ),
        ("data_dir", Json::text("/tmp/k".to_string())),
    ]);
    assert_eq!(
        cli_overrides_toml(&o),
        "data_dir = \"/tmp/k\"\n[ai]\nremote_enabled = true\ndefault_provider = \"local-llm\"\n"
    );
    assert_eq!(cli_overrides_toml(&Json::empty_object()), "");
    assert_eq!(cli_overrides_toml(&obj(vec![("ai", Json::Null)])), "[ai]\n");
    let o = obj(vec![("log", obj(vec![("json", Json::Bool(true))]))]);
    assert_eq!(cli_overrides_toml(&o), "[log]\njson = true\n");
}

#[test]
fn cli_override_values_are_escaped() {
    let o = obj(vec![("data_dir", Json::text("C:\\k \"x\"\n".to_string()))]);
    assert_eq!(cli_overrides_toml(&o), "data_dir = \"C:\\\\k \\\"x\\\"\\n\"\n");
}

#[test]
fn source_priorities_rise() {
    assert_eq!(SourcePriority::Default.rank(), 0);
    assert_eq!(SourcePriority::File.rank(), 10);
    assert_eq!(SourcePriority::Env.rank(), 20);
    assert_eq!(SourcePriority::Cli.rank(), 30);
    assert!(SourcePriority::Default < SourcePriority::Cli);
}

#[test]
fn booleans_parse_like_std() {
    for s in ["true", "false", "True", "1", "", "false "] {
        assert_eq!(parse_bool(s), s.parse::<bool>().ok());
    }
}

#[test]
fn sources_merge_by_priority_whatever_order_they_were_added() {
    let (d, f, e, c) = (
        SourcePriority::Default,
        SourcePriority::File,
        SourcePriority::Env,
        SourcePriority::Cli,
    );
    assert_eq!(layer_order(&vec![c, e, f, d]), vec![3, 2, 1, 0]);
    assert_eq!(layer_order(&vec![d, f, e, c]), vec![0, 1, 2, 3]);
    assert_eq!(layer_order(&vec![f, c, f, d]), vec![3, 0, 2, 1]);
    assert_eq!(layer_order(&vec![]), Vec::<usize>::new());
}

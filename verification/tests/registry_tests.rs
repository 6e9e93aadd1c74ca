use pagi_gateway::dispatch::{apply_upsert, resolve};
use pagi_gateway::Backend;
use pagi_gateway::ExecStatus;
use pagi_gateway::ExecutionMetrics;
use pagi_gateway::GatewayError;
use pagi_gateway::LatencyStats;
use pagi_gateway::RegEntry;
use pagi_gateway::Registry;
use pagi_gateway::ToolSchema;
use pagi_gateway::TwinId;

fn tool(name: &str, url: &str, endpoint: &str) -> ToolSchema {
    ToolSchema {
        name: name.to_string(),
        description: format!("{name} tool"),
        plugin_url: url.to_string(),
        endpoint: endpoint.to_string(),
        parameters: "{}".to_string(),
    }
}

fn scope_a() -> TwinId {
    TwinId(0x11)
}

fn scope_b() -> TwinId {
    TwinId(0x22)
}

#[test]
fn lookup_prefers_scoped_over_global() {
    let mut reg = Registry::new();
    reg.upsert(TwinId(0), tool("echo", "http://global:1", "/e"));
    reg.upsert(scope_a(), tool("echo", "http://scoped:2", "/e"));

    let scoped = reg.lookup(scope_a(), &"echo".to_string()).unwrap();
    assert_eq!(scoped.plugin_url, "http://scoped:2");

    let fallback = reg.lookup(scope_b(), &"echo".to_string()).unwrap();
    assert_eq!(fallback.plugin_url, "http://global:1");

    assert!(reg.lookup(scope_b(), &"missing".to_string()).is_none());
}

#[test]
fn upsert_twice_leaves_one_entry_equal_to_second_write() {
    let mut reg = Registry::new();
    reg.upsert(scope_a(), tool("sum", "http://one", "/a"));
    reg.upsert(scope_a(), tool("sum", "http://two", "/b"));

    let listed = reg.list(scope_a());
    let named: Vec<&ToolSchema> = listed.iter().filter(|t| t.name == "sum").collect();
    assert_eq!(named.len(), 1);
    assert_eq!(named[0].plugin_url, "http://two");
    assert_eq!(named[0].endpoint, "/b");
}

#[test]
fn list_returns_scoped_then_global() {
    let mut reg = Registry::new();
    reg.upsert(TwinId(0), tool("g1", "http://g", "/g"));
    reg.upsert(scope_a(), tool("s1", "http://s", "/s"));

    let listed = reg.list(scope_a());
    let names: Vec<&str> = listed.iter().map(|t| t.name.as_str()).collect();
    assert_eq!(names, vec!["s1", "g1"]);

    let all = reg.list_all();
    assert_eq!(all.len(), 2);
}

#[test]
fn rehydration_reproduces_every_list() {
    let mut reg = Registry::new();
    reg.upsert(TwinId(0), tool("g1", "http://g", "/g"));
    reg.upsert(scope_a(), tool("s1", "http://s", "/s"));
    reg.upsert(scope_b(), tool("s2", "http://t", "/t"));
    reg.upsert(scope_a(), tool("s1", "http://s2", "/s2"));

    let image = reg.dump();
    let restored = Registry::rehydrate(image);

    for scope in [TwinId(0), scope_a(), scope_b()] {
        let before: Vec<(String, String)> = reg
            .list(scope)
            .into_iter()
            .map(|t| (t.name, t.plugin_url))
            .collect();
        let after: Vec<(String, String)> = restored
            .list(scope)
            .into_iter()
            .map(|t| (t.name, t.plugin_url))
            .collect();
        assert_eq!(before, after);
    }
}

#[test]
fn two_scans_register_same_set_without_duplicates() {
    let batch = || {
        vec![
            RegEntry { scope: TwinId(0), tool: tool("a", "http://a", "/a") },
            RegEntry { scope: TwinId(0), tool: tool("b", "http://b", "/b") },
        ]
    };
    let mut reg = Registry::new();
    let first = batch();
    reg.register_all(&first);
    let once: Vec<String> = reg.list(TwinId(0)).into_iter().map(|t| t.name).collect();

    let second = batch();
    reg.register_all(&second);
    let twice: Vec<String> = reg.list(TwinId(0)).into_iter().map(|t| t.name).collect();

    assert_eq!(once, twice);
    assert_eq!(reg.list_all().len(), 2);
}

#[test]
fn resolve_routes_by_locator_and_reports_not_found() {
    let mut reg = Registry::new();
    reg.upsert(TwinId(0), tool("native", "sharedlib:///opt/lib.so", "entry"));
    reg.upsert(TwinId(0), tool("web", "http://localhost:9999", "/e"));

    let (t, backend, payload) = resolve(&reg, scope_a(), &"native".to_string()).unwrap();
    assert_eq!(t.name, "native");
    assert_eq!(backend, Backend::SharedLib);
    assert_eq!(payload, "/opt/lib.so");

    let (_, backend, payload) = resolve(&reg, scope_a(), &"web".to_string()).unwrap();
    assert_eq!(backend, Backend::Http);
    assert_eq!(payload, "http://localhost:9999");

    match resolve(&reg, scope_a(), &"ghost".to_string()) {
        Err(GatewayError::NotFound { detail }) => {
            assert_eq!(detail, "tool 'ghost' not found");
        }
        other => panic!("expected NotFound, got {other:?}"),
    }
}

#[test]
fn failed_store_write_leaves_memory_untouched() {
    let mut reg = Registry::new();
    let r = apply_upsert(&mut reg, scope_a(), tool("x", "http://x", "/x"), false);
    assert!(matches!(r, Err(GatewayError::StoreUnavailable { .. })));
    assert!(reg.lookup(scope_a(), &"x".to_string()).is_none());

    let r = apply_upsert(&mut reg, scope_a(), tool("x", "http://x", "/x"), true);
    assert!(r.is_ok());
    assert!(reg.lookup(scope_a(), &"x".to_string()).is_some());
}

#[test]
fn counters_increment_per_tool_and_outcome() {
    let mut m = ExecutionMetrics::new();
    let echo = "echo".to_string();
    let other = "other".to_string();
    m.record(&echo, ExecStatus::Success);
    m.record(&echo, ExecStatus::Success);
    m.record(&echo, ExecStatus::Error);
    m.record(&other, ExecStatus::NotFound);

    assert_eq!(m.get(&echo, ExecStatus::Success), 2);
    assert_eq!(m.get(&echo, ExecStatus::Error), 1);
    assert_eq!(m.get(&echo, ExecStatus::NotFound), 0);
    assert_eq!(m.get(&other, ExecStatus::NotFound), 1);
    assert_eq!(m.snapshot().len(), 3);

    assert_eq!(ExecStatus::Success.label(), "success");
    assert_eq!(ExecStatus::Error.label(), "error");
    assert_eq!(ExecStatus::NotFound.label(), "not_found");
}

#[test]
fn latency_summaries_accumulate_per_tool() {
    let mut l = LatencyStats::new();
    let echo = "echo".to_string();
    assert!(l.get(&echo).is_none());
    l.observe(&echo, 5);
    l.observe(&echo, 11);
    l.observe(&"other".to_string(), 2);

    let p = l.get(&echo).unwrap();
    assert_eq!(p.count, 2);
    assert_eq!(p.total_ms, 16);
    assert_eq!(p.max_ms, 11);
    let q = l.get(&"other".to_string()).unwrap();
    assert_eq!(q.count, 1);
    assert_eq!(q.max_ms, 2);
}

#[test]
fn store_keys_follow_the_layout() {
    assert_eq!(pagi_gateway::registry::global_tools_key(), "pagi:tools:global");
    assert_eq!(
        pagi_gateway::registry::twin_key("00000000-0000-0000-0000-000000000011"),
        "pagi:tools:twin:00000000-0000-0000-0000-000000000011"
    );
}

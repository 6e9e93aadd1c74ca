use pagi_gateway::discover::{
    denied_syscalls, default_binary_path, plan_for_manifest, plugin_signature_mode,
    seccomp_enabled, signature_gate, tools_with_locator,
};
use pagi_gateway::dispatch::resolve;
use pagi_gateway::executor::{
    build_component_envelope, classify_component, classify_ffi, classify_http, join_url,
    missing_export, pack_u64_to_i32_pair, tools_from_registered, unpack_guest_span,
    wasm_input_len,
};
use pagi_gateway::locator::route;
use pagi_gateway::playbook::{generate_refinement_artifact, usize_to_string};
use pagi_gateway::Backend;
use pagi_gateway::ComponentOutcome;
use pagi_gateway::CoreEvent;
use pagi_gateway::ErrorCode;
use pagi_gateway::EventType;
use pagi_gateway::FfiCallOutcome;
use pagi_gateway::GateDecision;
use pagi_gateway::GatewayError;
use pagi_gateway::HttpOutcome;
use pagi_gateway::InstructionsField;
use pagi_gateway::LibraryTable;
use pagi_gateway::Playbook;
use pagi_gateway::PluginInfo;
use pagi_gateway::PluginManifest;
use pagi_gateway::PluginType;
use pagi_gateway::RegisteredTool;
use pagi_gateway::Registry;
use pagi_gateway::SignatureMode;
use pagi_gateway::ToolDefinition;
use pagi_gateway::ToolSchema;
use pagi_gateway::TwinId;
use pagi_gateway::TwinState;

// --- Backend routing ---

#[test]
fn recognized_prefixes_never_route_to_http() {
    assert_eq!(route("sharedlib:///opt/x.so").0, Backend::SharedLib);
    assert_eq!(route("wasm:///opt/x.wasm").0, Backend::Wasm);
    assert_eq!(route("wasm-component:///opt/x.wasm").0, Backend::WasmComponent);
    assert_eq!(route("component:///opt/x.wasm").0, Backend::WasmComponent);
    assert_eq!(route("http://host:1").0, Backend::Http);
    assert_eq!(route("https://host:1").0, Backend::Http);
    // Unrecognized prefixes fall through to the HTTP executor.
    assert_eq!(route("ftp://host:1").0, Backend::Http);
    assert_eq!(route("plainhost").0, Backend::Http);
}

#[test]
fn route_strips_the_scheme_payload() {
    assert_eq!(route("sharedlib:///opt/x.so").1, "/opt/x.so");
    assert_eq!(route("wasm://mod.wasm").1, "mod.wasm");
    assert_eq!(route("component://c.wasm").1, "c.wasm");
    assert_eq!(route("http://host:1").1, "http://host:1");
}

#[test]
fn join_url_uses_exactly_one_slash() {
    assert_eq!(join_url("http://h:1", "/e"), "http://h:1/e");
    assert_eq!(join_url("http://h:1/", "e"), "http://h:1/e");
    assert_eq!(join_url("http://h:1///", "///e"), "http://h:1/e");
    assert_eq!(join_url("http://h:1", "e"), "http://h:1/e");
}

// --- HTTP classification (the echo scenario's decision core) ---

#[test]
fn http_echo_round_trip_and_unreachable_port() {
    let mut reg = Registry::new();
    reg.upsert(
        TwinId(0),
        ToolSchema {
            name: "echo".to_string(),
            description: "echo".to_string(),
            plugin_url: "http://localhost:9999".to_string(),
            endpoint: "/e".to_string(),
            parameters: "{}".to_string(),
        },
    );

    // A fresh scope the tool was never registered under falls back to the
    // global entry.
    let fresh = TwinId(0x4242_4242_4242_4242_4242_4242_4242_4242);
    let (t, backend, base) = resolve(&reg, fresh, &"echo".to_string()).unwrap();
    assert_eq!(backend, Backend::Http);
    assert_eq!(join_url(&base, &t.endpoint), "http://localhost:9999/e");

    // The stub server answers 200 with the same JSON: the body passes
    // through verbatim.
    let ok = classify_http(HttpOutcome::Response { status: 200, body: "{\"a\":1}".to_string() });
    assert_eq!(ok.unwrap(), "{\"a\":1}");

    // An unreachable port is a transport failure, not a timeout.
    let err = classify_http(HttpOutcome::TransportError {
        timed_out: false,
        detail: "connection refused".to_string(),
    });
    assert!(matches!(err, Err(GatewayError::BackendUnreachable { .. })));
}

#[test]
fn non_2xx_is_rejected_with_status_and_body() {
    let r = classify_http(HttpOutcome::Response { status: 500, body: "boom".to_string() });
    match r {
        Err(GatewayError::BackendRejected { status, body }) => {
            assert_eq!(status, Some(500));
            assert_eq!(body, "boom");
        }
        other => panic!("expected BackendRejected, got {other:?}"),
    }
    let t = classify_http(HttpOutcome::TransportError {
        timed_out: true,
        detail: "deadline".to_string(),
    });
    assert!(matches!(t, Err(GatewayError::Timeout { .. })));
}

// --- FFI classification ---

#[test]
fn ffi_echo_returns_exactly_the_library_output() {
    let r = classify_ffi(FfiCallOutcome::Returned { result: "{\"a\":1}".to_string() });
    assert_eq!(r.unwrap(), "{\"a\":1}");
}

#[test]
fn ffi_null_return_is_a_protocol_violation_not_a_crash() {
    let r = classify_ffi(FfiCallOutcome::NullReturn);
    assert!(matches!(r, Err(GatewayError::ProtocolViolation { .. })));

    let r = classify_ffi(FfiCallOutcome::MissingSymbol { symbol: "run".to_string() });
    match r {
        Err(GatewayError::ProtocolViolation { detail }) => {
            assert_eq!(detail, "missing tool symbol run");
        }
        other => panic!("expected ProtocolViolation, got {other:?}"),
    }

    let r = classify_ffi(FfiCallOutcome::LoadFailed { detail: "no such file".to_string() });
    assert!(matches!(r, Err(GatewayError::BackendUnreachable { .. })));
}

#[test]
fn registration_descriptors_become_schemas_with_empty_locator() {
    let rts = vec![RegisteredTool {
        name: "sum".to_string(),
        description: "adds".to_string(),
        endpoint: "sum_entry".to_string(),
    }];
    let tools = tools_from_registered(rts);
    assert_eq!(tools.len(), 1);
    assert_eq!(tools[0].name, "sum");
    assert_eq!(tools[0].plugin_url, "");
    assert_eq!(tools[0].endpoint, "sum_entry");
    assert_eq!(tools[0].parameters, "{}");
}

// --- Legacy WebAssembly packing ---

#[test]
fn packed_return_value_splits_into_pointer_and_length() {
    let packed: i64 = 0x0000_0010_0000_0020;
    assert_eq!(pack_u64_to_i32_pair(packed), (16, 32));
    assert_eq!(unpack_guest_span(packed).unwrap(), (16, 32));
}

#[test]
fn zero_or_negative_packed_halves_violate_the_protocol() {
    // Zero pointer.
    assert!(matches!(
        unpack_guest_span(0x0000_0000_0000_0020),
        Err(GatewayError::ProtocolViolation { .. })
    ));
    // Zero length.
    assert!(matches!(
        unpack_guest_span(0x0000_0010_0000_0000),
        Err(GatewayError::ProtocolViolation { .. })
    ));
    // Negative pointer half (high bit set).
    assert!(matches!(
        unpack_guest_span(-1),
        Err(GatewayError::ProtocolViolation { .. })
    ));
}

#[test]
fn guest_input_length_is_bounded() {
    assert_eq!(wasm_input_len(7).unwrap(), 7);
    assert_eq!(wasm_input_len(0x7FFF_FFFF).unwrap(), 0x7FFF_FFFF);
    assert!(wasm_input_len(0x8000_0000).is_err());
}

#[test]
fn missing_export_names_the_export() {
    match missing_export("alloc") {
        GatewayError::ProtocolViolation { detail } => assert_eq!(detail, "missing export alloc"),
        other => panic!("expected ProtocolViolation, got {other:?}"),
    }
}

// --- WASI component ---

#[test]
fn component_envelope_escapes_the_endpoint() {
    assert_eq!(
        build_component_envelope("e", "{\"a\":1}"),
        "{\"endpoint\":\"e\",\"parameters\":{\"a\":1}}"
    );
    // A quote inside the endpoint must come out escaped.
    assert_eq!(
        build_component_envelope("a\"b", "null"),
        "{\"endpoint\":\"a\\\"b\",\"parameters\":null}"
    );
}

#[test]
fn component_results_classify_by_variant() {
    let ok = classify_component(ComponentOutcome::Returned { result: Ok("out".to_string()) });
    assert_eq!(ok.unwrap(), "out");

    let rejected =
        classify_component(ComponentOutcome::Returned { result: Err("bad".to_string()) });
    match rejected {
        Err(GatewayError::BackendRejected { status, body }) => {
            assert_eq!(status, None);
            assert_eq!(body, "bad");
        }
        other => panic!("expected BackendRejected, got {other:?}"),
    }

    let trapped = classify_component(ComponentOutcome::Trapped { detail: "trap".to_string() });
    assert!(matches!(trapped, Err(GatewayError::ProtocolViolation { .. })));
}

// --- Discovery ---

fn manifest(plugin_type: PluginType, lib_path: Option<&str>) -> PluginManifest {
    PluginManifest {
        plugin: PluginInfo {
            name: "demo".to_string(),
            version: "0.1.0".to_string(),
            plugin_type,
            binary_path: None,
            lib_path: lib_path.map(|s| s.to_string()),
            wasm_path: None,
            wasm_component_path: None,
            plugin_url: None,
        },
        tools: Vec::new(),
    }
}

#[test]
fn missing_shared_library_is_skipped_with_a_warning() {
    let m = manifest(PluginType::SharedLib, Some("libmissing.so"));
    // The declared file does not exist, so no canonical path is supplied.
    match plan_for_manifest(&m, None) {
        pagi_gateway::ScanAction::Skip { warning } => {
            assert_eq!(warning.unwrap(), "shared library path does not exist; skipping");
        }
        other => panic!("expected Skip, got {other:?}"),
    }
    // And nothing gets registered for it: zero tools.
    assert_eq!(m.tools.len(), 0);
}

#[test]
fn present_shared_library_is_loaded_from_its_canonical_path() {
    let m = manifest(PluginType::SharedLib, Some("lib.so"));
    match plan_for_manifest(&m, Some("/plugins/demo/lib.so".to_string())) {
        pagi_gateway::ScanAction::RegisterFromSharedLib { canonical } => {
            assert_eq!(canonical, "/plugins/demo/lib.so");
        }
        other => panic!("expected RegisterFromSharedLib, got {other:?}"),
    }
}

#[test]
fn config_only_manifest_registers_declared_tools_at_its_url() {
    let mut m = manifest(PluginType::ConfigOnly, None);
    m.plugin.plugin_url = Some("http://plugin:9001".to_string());
    m.tools.push(ToolDefinition {
        name: "kb".to_string(),
        description: "lookup".to_string(),
        endpoint: "/kb".to_string(),
        parameters: "{}".to_string(),
    });
    match plan_for_manifest(&m, None) {
        pagi_gateway::ScanAction::RegisterDeclared { locator } => {
            let tools = tools_with_locator(&m.tools, &locator);
            assert_eq!(tools.len(), 1);
            assert_eq!(tools[0].plugin_url, "http://plugin:9001");
            assert_eq!(tools[0].endpoint, "/kb");
        }
        other => panic!("expected RegisterDeclared, got {other:?}"),
    }
}

#[test]
fn component_manifest_routes_through_the_component_scheme() {
    let mut m = manifest(PluginType::ComponentWasm, None);
    m.plugin.wasm_component_path = Some("c.wasm".to_string());
    match plan_for_manifest(&m, Some("/plugins/demo/c.wasm".to_string())) {
        pagi_gateway::ScanAction::RegisterDeclared { locator } => {
            assert_eq!(locator, "wasm-component:///plugins/demo/c.wasm");
            assert_eq!(route(&locator).0, Backend::WasmComponent);
        }
        other => panic!("expected RegisterDeclared, got {other:?}"),
    }
}

#[test]
fn signature_modes_parse_from_configuration() {
    assert_eq!(plugin_signature_mode("true"), SignatureMode::Strict);
    assert_eq!(plugin_signature_mode("strict"), SignatureMode::Strict);
    assert_eq!(plugin_signature_mode("best_effort"), SignatureMode::BestEffort);
    assert_eq!(plugin_signature_mode("best-effort"), SignatureMode::BestEffort);
    assert_eq!(plugin_signature_mode("off"), SignatureMode::Off);
    assert_eq!(plugin_signature_mode(""), SignatureMode::Off);
}

#[test]
fn strict_mode_without_a_key_is_a_configuration_error() {
    assert_eq!(signature_gate(SignatureMode::Strict, false, false, false), GateDecision::ConfigError);
    assert_eq!(signature_gate(SignatureMode::BestEffort, false, false, false), GateDecision::Proceed);
    assert_eq!(signature_gate(SignatureMode::Off, false, false, false), GateDecision::Proceed);

    // With a key: a failed verification is fatal only in strict mode.
    assert_eq!(signature_gate(SignatureMode::Strict, true, true, false), GateDecision::Reject);
    assert_eq!(signature_gate(SignatureMode::BestEffort, true, true, false), GateDecision::Warn);
    assert_eq!(signature_gate(SignatureMode::Strict, true, true, true), GateDecision::Proceed);
    // A missing signature is fatal only in strict mode.
    assert_eq!(signature_gate(SignatureMode::Strict, true, false, false), GateDecision::Reject);
    assert_eq!(signature_gate(SignatureMode::BestEffort, true, false, false), GateDecision::Proceed);
}

#[test]
fn library_table_keeps_one_handle_per_path_and_unloads_absent_ones() {
    let mut t = LibraryTable::new();
    let a = "/p/a.so".to_string();
    let b = "/p/b.so".to_string();
    t.note_loaded(&a);
    t.note_loaded(&a);
    t.note_loaded(&b);
    assert!(t.contains(&a) && t.contains(&b));

    let keep = vec![b.clone()];
    t.unload_not_in(&keep);
    assert!(!t.contains(&a));
    assert!(t.contains(&b));
}

#[test]
fn sandbox_policy_denies_the_dangerous_syscalls() {
    let deny = denied_syscalls();
    assert_eq!(deny.len(), 19);
    assert_eq!(deny[0], "ptrace");
    assert!(deny.contains(&"mount"));
    assert!(deny.contains(&"setns"));

    assert!(seccomp_enabled(Some("true")));
    assert!(!seccomp_enabled(Some("false")));
    assert!(!seccomp_enabled(None));
    assert!(default_binary_path().is_none());
}

// --- Errors ---

#[test]
fn error_taxonomy_maps_to_http_statuses() {
    let nf = GatewayError::NotFound { detail: "x".to_string() };
    let un = GatewayError::BackendUnreachable { detail: "x".to_string() };
    let rj = GatewayError::BackendRejected { status: Some(500), body: "x".to_string() };
    let pv = GatewayError::ProtocolViolation { detail: "x".to_string() };
    let to = GatewayError::Timeout { detail: "x".to_string() };
    let st = GatewayError::StoreUnavailable { detail: "x".to_string() };
    let cf = GatewayError::ConfigurationError { detail: "x".to_string() };

    assert_eq!(nf.http_status(), 404);
    assert_eq!(un.http_status(), 502);
    assert_eq!(rj.http_status(), 502);
    assert_eq!(pv.http_status(), 502);
    assert_eq!(to.http_status(), 504);
    assert_eq!(st.http_status(), 500);
    assert_eq!(cf.http_status(), 500);

    // NotFound and ProtocolViolation are permanent; unreachable and timeout
    // are retryable.
    assert!(!nf.retryable() && !pv.retryable());
    assert!(un.retryable() && to.retryable());
}

#[test]
fn error_codes_keep_their_wire_values() {
    assert_eq!(ErrorCode::ConfigInvalid.value(), 1001);
    assert_eq!(ErrorCode::RedisError.value(), 2002);
    assert_eq!(ErrorCode::PluginLoadFailed.value(), 4001);
    assert_eq!(ErrorCode::PluginExecutionFailed.value(), 4002);
    assert_eq!(ErrorCode::NetworkTimeout.value(), 7001);
    assert_eq!(ErrorCode::Unknown.value(), 9999);

    let body = pagi_gateway::errors::error_body(
        &GatewayError::Timeout { detail: "t".to_string() },
        "deadline exceeded".to_string(),
        "2024-01-01T00:00:00Z".to_string(),
    );
    assert_eq!(body.code, 7001);
    assert_eq!(body.error, "deadline exceeded");
    assert_eq!(body.timestamp, "2024-01-01T00:00:00Z");
}

// --- Events, state, playbook ---

#[test]
fn event_types_have_snake_case_names() {
    assert_eq!(EventType::GoalReceived.as_str(), "goal_received");
    assert_eq!(EventType::TwinRegistered.as_str(), "twin_registered");
    assert_eq!(EventType::PlanGenerated.as_str(), "plan_generated");
    let e = CoreEvent::GoalReceived { goal: "g".to_string() };
    assert_eq!(e.event_type(), "goal_received");
    let p = CoreEvent::PlanGenerated { plan: "p".to_string() };
    assert_eq!(p.event_type(), "plan_generated");
}

#[test]
fn twin_state_defaults_to_registered() {
    let s = TwinState::default();
    assert_eq!(s.status, "registered");
    assert!(s.note.is_none());
}

#[test]
fn generate_refinement_artifact_increments_playbook_version() {
    let twin_id = TwinId(0x1f2e_3d4c_5b6a_7988_1122_3344_5566_7788);
    let art = generate_refinement_artifact(twin_id, "do X", "result", &Playbook::default());
    assert_eq!(art.twin_id, Some(twin_id));
    assert_eq!(art.updated_playbook.version, 1);
    assert!(!art.critique.is_empty());
}

#[test]
fn refinement_seeds_a_blank_playbook_and_curates_a_structured_one() {
    let art = generate_refinement_artifact(TwinId(1), "g", "out", &Playbook::default());
    assert_eq!(art.critique, "Reflection: Goal='g' produced output_len=3 (improve tool usage + evaluation loop).");
    let seeded = match art.updated_playbook.instructions {
        InstructionsField::Structured(i) => i,
        other => panic!("expected a structured instruction set, got {other:?}"),
    };
    assert!(seeded.system_prompt.starts_with("You are a self-improving PAGI agent."));
    assert_eq!(seeded.reflection_rules.len(), 3);

    // Curating twice appends the rule only once.
    let mut base = Playbook::default();
    base.instructions = InstructionsField::Structured(seeded);
    let once = generate_refinement_artifact(TwinId(1), "g", "out", &base);
    let twice = generate_refinement_artifact(TwinId(1), "g", "out", &once.updated_playbook);
    match (&once.updated_playbook.instructions, &twice.updated_playbook.instructions) {
        (InstructionsField::Structured(a), InstructionsField::Structured(b)) => {
            assert_eq!(a.reflection_rules.len(), 4);
            assert_eq!(b.reflection_rules.len(), 4);
        }
        other => panic!("expected structured instruction sets, got {other:?}"),
    }
}

#[test]
fn decimal_rendering_is_exact() {
    assert_eq!(usize_to_string(0), "0");
    assert_eq!(usize_to_string(7), "7");
    assert_eq!(usize_to_string(10), "10");
    assert_eq!(usize_to_string(12345), "12345");
}

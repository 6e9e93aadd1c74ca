//! Plugin auto-discovery: manifest model, per-manifest type dispatch,
//! signature gate, the loaded-library table, and the sandbox policy for
//! spawned binary plugins.
//!
//! A scan cycle walks the plugin directory (the shell's job), reads each
//! manifest, and asks `plan_for_manifest` what to do with it. Failures skip
//! the one plugin with a warning and never abort the scan.

use vstd::prelude::*;

use crate::strutil::str_eq;
use crate::tool::{ToolModel, ToolSchema};

verus! {

/// How a plugin runs, declared by its manifest. The type decides which of
/// the path fields is authoritative; the others are ignored.
#[derive(Debug, Clone, Copy, PartialEq, Eq, Structural)]
pub enum PluginType {
    /// External executable, spawned and expected to self-register over HTTP.
    Binary,
    /// Native library loaded into the gateway process.
    SharedLib,
    /// Pure data: tools are registered straight from the manifest.
    ConfigOnly,
    /// Legacy WebAssembly module.
    Wasm,
    /// WASI Component Model module.
    ComponentWasm,
}

/// The `plugin` table of a manifest.
#[derive(Debug)]
pub struct PluginInfo {
    pub name: String,
    pub version: String,
    pub plugin_type: PluginType,
    /// For binary plugins: path, relative to the plugin folder, of the
    /// executable.
    pub binary_path: Option<String>,
    /// For shared-library plugins: path of the library.
    pub lib_path: Option<String>,
    /// For legacy WebAssembly plugins: path of the module.
    pub wasm_path: Option<String>,
    /// For component plugins: path of the component.
    pub wasm_component_path: Option<String>,
    /// For config-only plugins reachable over HTTP: their base URL.
    pub plugin_url: Option<String>,
}

/// One tool a manifest declares.
#[derive(Debug)]
pub struct ToolDefinition {
    pub name: String,
    pub description: String,
    pub endpoint: String,
    /// JSON schema of the parameters, as JSON text.
    pub parameters: String,
}

/// Mathematical image of a [`ToolDefinition`].
pub struct DefModel {
    pub name: Seq<char>,
    pub description: Seq<char>,
    pub endpoint: Seq<char>,
    pub parameters: Seq<char>,
}

impl View for ToolDefinition {
    type V = DefModel;

    open spec fn view(&self) -> DefModel {
        DefModel {
            name: self.name@,
            description: self.description@,
            endpoint: self.endpoint@,
            parameters: self.parameters@,
        }
    }
}

impl DeepView for ToolDefinition {
    type V = DefModel;

    open spec fn deep_view(&self) -> DefModel {
        self.view()
    }
}

/// An on-disk plugin manifest: the plugin's declaration and the tools it
/// offers. Read once per scan cycle, never mutated by the gateway.
#[derive(Debug)]
pub struct PluginManifest {
    pub plugin: PluginInfo,
    pub tools: Vec<ToolDefinition>,
}

/// What one scan cycle does with one manifest.
#[derive(Debug)]
pub enum ScanAction {
    /// Load the shared library at this canonical path and register the
    /// tools its registration export declares, under a `sharedlib://`
    /// locator.
    RegisterFromSharedLib { canonical: String },
    /// Instantiate the module at this canonical path and register the tools
    /// it declares through the host import, under a `wasm://` locator.
    RegisterFromWasm { canonical: String },
    /// Register the manifest's own tool list under this locator.
    RegisterDeclared { locator: String },
    /// Spawn the executable; it self-registers over HTTP, so the scan
    /// registers nothing for it.
    SpawnBinary { path: String },
    /// Nothing to do for this plugin; a warning says why, where one is due.
    Skip { warning: Option<String> },
}

/// Decide what to do with one manifest. `canonical` is the canonicalized
/// path of the file the manifest's type declares as authoritative, supplied
/// by the shell when that file exists, `None` when it is absent or the
/// manifest declares none. A declared-but-missing file skips the plugin
/// with a warning: discovery failures are never fatal to the scan.
pub fn plan_for_manifest(m: &PluginManifest, canonical: Option<String>) -> (r: ScanAction)
    ensures
        m.plugin.plugin_type == PluginType::SharedLib ==> match r {
            ScanAction::RegisterFromSharedLib { canonical: c } => m.plugin.lib_path is Some && (
            canonical matches Some(p) && c@ == p@),
            ScanAction::Skip { warning } => (m.plugin.lib_path is None && warning is None) || (
            m.plugin.lib_path is Some && canonical is None && (warning matches Some(w) && w@
                == "shared library path does not exist; skipping"@)),
            _ => false,
        },
        m.plugin.plugin_type == PluginType::Wasm ==> match r {
            ScanAction::RegisterFromWasm { canonical: c } => m.plugin.wasm_path is Some && (
            canonical matches Some(p) && c@ == p@),
            ScanAction::Skip { warning } => (m.plugin.wasm_path is None && warning is None) || (
            m.plugin.wasm_path is Some && canonical is None && (warning matches Some(w) && w@
                == "wasm module path does not exist; skipping"@)),
            _ => false,
        },
        m.plugin.plugin_type == PluginType::ComponentWasm ==> match r {
            ScanAction::RegisterDeclared { locator } => m.plugin.wasm_component_path is Some && (
            canonical matches Some(p) && locator@ == "wasm-component://"@ + p@),
            ScanAction::Skip { warning } => (m.plugin.wasm_component_path is None && warning
                is None) || (m.plugin.wasm_component_path is Some && canonical is None && (warning
                matches Some(w) && w@ == "component wasm path does not exist; skipping"@)),
            _ => false,
        },
        m.plugin.plugin_type == PluginType::Binary ==> match r {
            ScanAction::SpawnBinary { path } => m.plugin.binary_path is Some && (canonical matches
            Some(p) && path@ == p@),
            ScanAction::Skip { warning } => (m.plugin.binary_path is None && warning is None) || (
            m.plugin.binary_path is Some && canonical is None && (warning matches Some(w) && w@
                == "binary path does not exist; skipping spawn"@)),
            _ => false,
        },
        m.plugin.plugin_type == PluginType::ConfigOnly ==> match r {
            ScanAction::RegisterDeclared { locator } => (m.plugin.plugin_url matches Some(u)
                && locator@ == u@),
            ScanAction::Skip { warning } => m.plugin.plugin_url is None && (warning matches Some(w)
                && w@ == "no plugin_url; skipping tool registration"@),
            _ => false,
        },
{
    match m.plugin.plugin_type {
        PluginType::SharedLib => {
            if m.plugin.lib_path.is_none() {
                ScanAction::Skip { warning: None }
            } else {
                match canonical {
                    Some(p) => ScanAction::RegisterFromSharedLib { canonical: p },
                    None => ScanAction::Skip {
                        warning: Some("shared library path does not exist; skipping".to_owned()),
                    },
                }
            }
        },
        PluginType::Wasm => {
            if m.plugin.wasm_path.is_none() {
                ScanAction::Skip { warning: None }
            } else {
                match canonical {
                    Some(p) => ScanAction::RegisterFromWasm { canonical: p },
                    None => ScanAction::Skip {
                        warning: Some("wasm module path does not exist; skipping".to_owned()),
                    },
                }
            }
        },
        PluginType::ComponentWasm => {
            if m.plugin.wasm_component_path.is_none() {
                ScanAction::Skip { warning: None }
            } else {
                match canonical {
                    Some(p) => {
                        let mut locator = "wasm-component://".to_owned();
                        locator.append(p.as_str());
                        ScanAction::RegisterDeclared { locator }
                    },
                    None => ScanAction::Skip {
                        warning: Some("component wasm path does not exist; skipping".to_owned()),
                    },
                }
            }
        },
        PluginType::Binary => {
            if m.plugin.binary_path.is_none() {
                ScanAction::Skip { warning: None }
            } else {
                match canonical {
                    Some(p) => ScanAction::SpawnBinary { path: p },
                    None => ScanAction::Skip {
                        warning: Some("binary path does not exist; skipping spawn".to_owned()),
                    },
                }
            }
        },
        PluginType::ConfigOnly => {
            match &m.plugin.plugin_url {
                Some(u) => ScanAction::RegisterDeclared { locator: u.clone() },
                None => ScanAction::Skip {
                    warning: Some("no plugin_url; skipping tool registration".to_owned()),
                },
            }
        },
    }
}

/// The schema a declared tool definition registers as, under a locator.
pub open spec fn tool_of_def(d: DefModel, locator: Seq<char>) -> ToolModel {
    ToolModel {
        name: d.name,
        description: d.description,
        plugin_url: locator,
        endpoint: d.endpoint,
        parameters: d.parameters,
    }
}

/// Turn a manifest's declared tools into schemas routed at one locator.
pub fn tools_with_locator(tools: &Vec<ToolDefinition>, locator: &str) -> (r: Vec<ToolSchema>)
    ensures
        r.deep_view() == tools.deep_view().map_values(|d: DefModel| tool_of_def(d, locator@)),
{
    let ghost all = tools.deep_view().map_values(|d: DefModel| tool_of_def(d, locator@));
    let n = tools.len();
    let mut out: Vec<ToolSchema> = Vec::new();
    let mut i: usize = 0;
    proof {
        assert(out.deep_view() =~= all.take(0int));
    }
    while i < n
        invariant
            n == tools.deep_view().len(),
            all == tools.deep_view().map_values(|d: DefModel| tool_of_def(d, locator@)),
            i <= n,
            out.deep_view() == all.take(i as int),
        decreases n - i,
    {
        let d = &tools[i];
        let t = ToolSchema {
            name: d.name.clone(),
            description: d.description.clone(),
            plugin_url: locator.to_owned(),
            endpoint: d.endpoint.clone(),
            parameters: d.parameters.clone(),
        };
        let ghost pre = out.deep_view();
        out.push(t);
        proof {
            assert(out.deep_view() =~= pre.push(tool_of_def(tools.deep_view()[i as int], locator@)));
            assert(pre.push(tool_of_def(tools.deep_view()[i as int], locator@)) =~= all.take(
                i as int + 1,
            ));
        }
        i = i + 1;
    }
    proof {
        assert(all.take(n as int) =~= all);
    }
    out
}

/// Prefix a canonical library or module path with its backend's scheme.
pub fn scheme_locator(scheme: &str, canonical: &str) -> (r: String)
    ensures
        r@ == scheme@ + canonical@,
{
    let mut locator = scheme.to_owned();
    locator.append(canonical);
    locator
}

// --- Signature gate ---
/// Manifest signature verification mode.
#[derive(Debug, Clone, Copy, PartialEq, Eq, Structural)]
pub enum SignatureMode {
    /// No check.
    Off,
    /// Verify when a detached signature exists; log and proceed on failure
    /// or absence.
    BestEffort,
    /// A valid detached signature is required for every manifest.
    Strict,
}

/// The mode a configuration value selects. The shell lowercases the raw
/// setting first.
pub open spec fn signature_mode_of(s: Seq<char>) -> SignatureMode {
    if s == "true"@ || s == "strict"@ {
        SignatureMode::Strict
    } else if s == "best_effort"@ || s == "best-effort"@ {
        SignatureMode::BestEffort
    } else {
        SignatureMode::Off
    }
}

/// Parse the signature-verification setting.
pub fn plugin_signature_mode(setting: &str) -> (r: SignatureMode)
    ensures
        r == signature_mode_of(setting@),
{
    if str_eq(setting, "true") || str_eq(setting, "strict") {
        SignatureMode::Strict
    } else if str_eq(setting, "best_effort") || str_eq(setting, "best-effort") {
        SignatureMode::BestEffort
    } else {
        SignatureMode::Off
    }
}

/// What the signature gate decides for one manifest.
#[derive(Debug, Clone, Copy, PartialEq, Eq, Structural)]
pub enum GateDecision {
    /// Registration proceeds.
    Proceed,
    /// Registration proceeds, but the failed verification is logged.
    Warn,
    /// This plugin's registration is rejected.
    Reject,
    /// Strict mode was requested without a verification key: a startup
    /// configuration error, fatal to process start.
    ConfigError,
}

/// Gate outcome for one manifest: strict mode demands a configured key
/// and a valid detached signature; best-effort logs a failed verification
/// and goes on; off never checks.
pub open spec fn gate_spec(
    mode: SignatureMode,
    key_present: bool,
    sig_present: bool,
    verify_ok: bool,
) -> GateDecision {
    if mode == SignatureMode::Off {
        GateDecision::Proceed
    } else if !key_present {
        if mode == SignatureMode::Strict {
            GateDecision::ConfigError
        } else {
            GateDecision::Proceed
        }
    } else if sig_present {
        if verify_ok {
            GateDecision::Proceed
        } else if mode == SignatureMode::Strict {
            GateDecision::Reject
        } else {
            GateDecision::Warn
        }
    } else if mode == SignatureMode::Strict {
        GateDecision::Reject
    } else {
        GateDecision::Proceed
    }
}

/// Decide the signature gate for one manifest. `verify_ok` is what the
/// external verifier reported, meaningful only when a key and a signature
/// are present.
pub fn signature_gate(
    mode: SignatureMode,
    key_present: bool,
    sig_present: bool,
    verify_ok: bool,
) -> (r: GateDecision)
    ensures
        r == gate_spec(mode, key_present, sig_present, verify_ok),
{
    if mode == SignatureMode::Off {
        GateDecision::Proceed
    } else if !key_present {
        if mode == SignatureMode::Strict {
            GateDecision::ConfigError
        } else {
            GateDecision::Proceed
        }
    } else if sig_present {
        if verify_ok {
            GateDecision::Proceed
        } else if mode == SignatureMode::Strict {
            GateDecision::Reject
        } else {
            GateDecision::Warn
        }
    } else if mode == SignatureMode::Strict {
        GateDecision::Reject
    } else {
        GateDecision::Proceed
    }
}

// --- Loaded-library table ---
/// Whether a vector of strings holds one with these characters.
pub fn vec_contains_str(v: &Vec<String>, s: &String) -> (r: bool)
    ensures
        r == v.deep_view().contains(s@),
{
    let n = v.len();
    let mut i: usize = 0;
    while i < n
        invariant
            n == v.deep_view().len(),
            i <= n,
            forall|j: int| 0 <= j < i ==> v.deep_view()[j] != s@,
        decreases n - i,
    {
        if v[i] == *s {
            assert(v.deep_view()[i as int] == s@);
            return true;
        }
        assert(v.deep_view()[i as int] != s@);
        i = i + 1;
    }
    false
}

/// The canonical paths of the native libraries currently loaded. At most
/// one handle exists per canonical path; the shell keeps the actual
/// handles keyed identically and mirrors every change decided here.
pub struct LibraryTable {
    paths: Vec<String>,
}

impl View for LibraryTable {
    type V = Seq<Seq<char>>;

    closed spec fn view(&self) -> Seq<Seq<char>> {
        self.paths.deep_view()
    }
}

impl LibraryTable {
    /// No path occurs twice.
    pub open spec fn wf(&self) -> bool {
        forall|i: int, j: int| 0 <= i < j < self@.len() ==> self@[i] != self@[j]
    }

    pub fn new() -> (r: LibraryTable)
        ensures
            r.wf(),
            r@ =~= Seq::<Seq<char>>::empty(),
    {
        LibraryTable { paths: Vec::new() }
    }

    /// Whether a handle for this canonical path is loaded.
    pub fn contains(&self, path: &String) -> (r: bool)
        ensures
            r == self@.contains(path@),
    {
        vec_contains_str(&self.paths, path)
    }

    /// Note that the library at this canonical path is loaded: present
    /// exactly once afterwards.
    pub fn note_loaded(&mut self, path: &String)
        requires
            old(self).wf(),
        ensures
            final(self).wf(),
            old(self)@.contains(path@) ==> final(self)@ == old(self)@,
            !old(self)@.contains(path@) ==> final(self)@ == old(self)@.push(path@),
    {
        if !vec_contains_str(&self.paths, path) {
            let ghost pre = self@;
            self.paths.push(path.clone());
            proof {
                assert(self@ =~= pre.push(path@));
                assert forall|i: int, j: int| 0 <= i < j < self@.len() implies self@[i]
                    != self@[j] by {
                    if j < self@.len() - 1 {
                        assert(pre[i] != pre[j]);
                    } else {
                        assert(!pre.contains(path@));
                        assert(self@[i] == pre[i]);
                    }
                }
            }
        }
    }

    /// Unload every library whose canonical path is no longer referenced by
    /// a currently-present manifest: exactly the paths in `keep` survive,
    /// in order. This is the only place library lifetime is managed.
    pub fn unload_not_in(&mut self, keep: &Vec<String>)
        requires
            old(self).wf(),
        ensures
            final(self).wf(),
            final(self)@ == kept_paths(old(self)@, keep.deep_view()),
    {
        let ghost keepv = keep.deep_view();
        let ghost orig = self@;
        let n = self.paths.len();
        let mut out: Vec<String> = Vec::new();
        let mut i: usize = 0;
        proof {
            lemma_kept_empty(keepv);
            assert(orig.take(0int) =~= Seq::<Seq<char>>::empty());
            assert(out.deep_view() =~= kept_paths(orig.take(0int), keepv));
        }
        while i < n
            invariant
                n == orig.len(),
                orig == self@,
                self.wf(),
                keepv == keep.deep_view(),
                i <= n,
                out.deep_view() == kept_paths(orig.take(i as int), keepv),
            decreases n - i,
        {
            proof {
                lemma_kept_step(orig, keepv, i as int);
            }
            let p = &self.paths[i];
            if vec_contains_str(keep, p) {
                let ghost pre = out.deep_view();
                out.push(p.clone());
                proof {
                    assert(out.deep_view() =~= pre.push(orig[i as int]));
                }
            }
            i = i + 1;
        }
        proof {
            assert(orig.take(n as int) =~= orig);
        }
        self.paths = out;
        proof {
            lemma_kept_unique(orig, keepv);
        }
    }
}

/// The paths of `s` that `keep` still references, in order.
pub open spec fn kept_paths(s: Seq<Seq<char>>, keep: Seq<Seq<char>>) -> Seq<Seq<char>> {
    s.filter(|p: Seq<char>| keep.contains(p))
}

proof fn lemma_kept_empty(keep: Seq<Seq<char>>)
    ensures
        kept_paths(Seq::<Seq<char>>::empty(), keep) == Seq::<Seq<char>>::empty(),
{
    reveal(Seq::filter);
}

/// One more path extends the kept projection exactly when it is retained.
proof fn lemma_kept_step(s: Seq<Seq<char>>, keep: Seq<Seq<char>>, i: int)
    requires
        0 <= i < s.len(),
    ensures
        kept_paths(s.take(i + 1), keep) == if keep.contains(s[i]) {
            kept_paths(s.take(i), keep).push(s[i])
        } else {
            kept_paths(s.take(i), keep)
        },
{
    reveal(Seq::filter);
    assert(s.take(i + 1).drop_last() =~= s.take(i));
    assert(s.take(i + 1).last() == s[i]);
}

/// Filtering a duplicate-free sequence leaves it duplicate-free.
proof fn lemma_kept_unique(s: Seq<Seq<char>>, keep: Seq<Seq<char>>)
    requires
        forall|i: int, j: int| 0 <= i < j < s.len() ==> s[i] != s[j],
    ensures
        forall|i: int, j: int|
            0 <= i < j < kept_paths(s, keep).len() ==> kept_paths(s, keep)[i] != kept_paths(
                s,
                keep,
            )[j],
    decreases s.len(),
{
    reveal(Seq::filter);
    if s.len() == 0 {
    } else {
        let rest = s.drop_last();
        let last = s.last();
        lemma_kept_unique(rest, keep);
        let f = kept_paths(s, keep);
        let fr = kept_paths(rest, keep);
        if keep.contains(last) {
            assert(f == fr.push(last));
            if fr.contains(last) {
                rest.lemma_filter_contains_rev(|p: Seq<char>| keep.contains(p), last);
                let i = choose|i: int| 0 <= i < rest.len() && rest[i] == last;
                assert(s[i] == s[s.len() - 1]);
                assert(false);
            }
            assert forall|i: int, j: int| 0 <= i < j < f.len() implies f[i] != f[j] by {
                if j < f.len() - 1 {
                    assert(fr[i] != fr[j]);
                } else {
                    assert(f[i] == fr[i]);
                    assert(fr.contains(fr[i]));
                }
            }
        }
    }
}

// --- Sandbox policy for spawned binary plugins ---
/// The syscalls a sandboxed binary plugin is denied: process and namespace
/// control, kernel module loading, raw tracing, and mount operations. The
/// filter is default-allow with exactly this deny list, installed in the
/// child between fork and exec; a failure to install it aborts that child.
pub open spec fn denied_syscalls_spec() -> Seq<Seq<char>> {
    seq![
        "ptrace"@,
        "kexec_load"@,
        "kexec_file_load"@,
        "reboot"@,
        "mount"@,
        "umount2"@,
        "pivot_root"@,
        "swapon"@,
        "swapoff"@,
        "init_module"@,
        "finit_module"@,
        "delete_module"@,
        "bpf"@,
        "perf_event_open"@,
        "keyctl"@,
        "add_key"@,
        "request_key"@,
        "unshare"@,
        "setns"@,
    ]
}

/// The deny list, for the shell to hand to the syscall filter.
pub fn denied_syscalls() -> (r: Vec<&'static str>)
    ensures
        r.deep_view() == denied_syscalls_spec(),
{
    let mut v: Vec<&'static str> = Vec::new();
    v.push("ptrace");
    v.push("kexec_load");
    v.push("kexec_file_load");
    v.push("reboot");
    v.push("mount");
    v.push("umount2");
    v.push("pivot_root");
    v.push("swapon");
    v.push("swapoff");
    v.push("init_module");
    v.push("finit_module");
    v.push("delete_module");
    v.push("bpf");
    v.push("perf_event_open");
    v.push("keyctl");
    v.push("add_key");
    v.push("request_key");
    v.push("unshare");
    v.push("setns");
    proof {
        assert(v.deep_view() =~= denied_syscalls_spec());
    }
    v
}

/// Whether sandboxing of spawned binary plugins is switched on. The shell
/// lowercases the raw setting first; sandboxing is opt-in.
pub fn seccomp_enabled(setting: Option<&str>) -> (r: bool)
    ensures
        r == (setting matches Some(s) && s@ == "true"@),
{
    match setting {
        Some(s) => str_eq(s, "true"),
        None => false,
    }
}

/// A manifest that declares no binary path gets none by default.
pub fn default_binary_path() -> (r: Option<String>)
    ensures
        r is None,
{
    None
}

} // verus!

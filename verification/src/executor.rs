//! The four backend executors' calling conventions, as verified decision
//! logic: URL joining and response classification for HTTP, outcome
//! classification for the native-library FFI protocol, packed return-value
//! handling for legacy WebAssembly, and envelope building and result
//! classification for WASI components.
//!
//! The unverified shell performs the actual call (network, `dlopen`, a
//! WebAssembly runtime) and feeds what came back into these functions; they
//! say, for every possible outcome, what the tool call returns.

use vstd::prelude::*;

use crate::errors::GatewayError;
use crate::strutil::{trim_end_char, trim_leading, trim_start_char, trim_trailing};
use crate::tool::{ToolModel, ToolSchema};

verus! {

// --- HTTP backend ---
/// The URL a tool call posts to: base trimmed of trailing slashes, path
/// trimmed of leading slashes, joined with exactly one slash.
pub open spec fn join_url_spec(base: Seq<char>, endpoint: Seq<char>) -> Seq<char> {
    trim_trailing(base, '/') + "/"@ + trim_leading(endpoint, '/')
}

/// Join a base URL and an endpoint path with one slash.
pub fn join_url(base: &str, endpoint: &str) -> (r: String)
    ensures
        r@ == join_url_spec(base@, endpoint@),
{
    let mut out = trim_end_char(base, '/');
    out.append("/");
    let ep = trim_start_char(endpoint, '/');
    out.append(ep.as_str());
    out
}

/// What an attempted HTTP exchange came back with.
#[derive(Debug)]
pub enum HttpOutcome {
    /// The backend answered: any status, body read in full.
    Response { status: u16, body: String },
    /// No well-formed response: connection failure, or timeout.
    TransportError { timed_out: bool, detail: String },
}

/// Classify an HTTP exchange: a 2xx response passes its body through
/// verbatim as the tool result; any other status is a backend rejection
/// carrying status and body; a transport failure is unreachable, or a
/// timeout when the client timed out.
pub fn classify_http(outcome: HttpOutcome) -> (r: Result<String, GatewayError>)
    ensures
        match outcome {
            HttpOutcome::Response { status, body } => {
                if 200 <= status < 300 {
                    r matches Ok(b) && b@ == body@
                } else {
                    r matches Err(GatewayError::BackendRejected { status: st, body: b }) && st
                        == Some(status) && b@ == body@
                }
            },
            HttpOutcome::TransportError { timed_out, detail } => {
                if timed_out {
                    r matches Err(GatewayError::Timeout { detail: d }) && d@ == detail@
                } else {
                    r matches Err(GatewayError::BackendUnreachable { detail: d }) && d@ == detail@
                }
            },
        },
{
    match outcome {
        HttpOutcome::Response { status, body } => {
            if 200 <= status && status < 300 {
                Ok(body)
            } else {
                Err(GatewayError::BackendRejected { status: Some(status), body })
            }
        },
        HttpOutcome::TransportError { timed_out, detail } => {
            if timed_out {
                Err(GatewayError::Timeout { detail })
            } else {
                Err(GatewayError::BackendUnreachable { detail })
            }
        },
    }
}

// --- Native library (FFI) backend ---
/// What one call into a native library's entry point came back with. The
/// shell loads the library, resolves the symbol, calls it, and copies a
/// non-null returned string out of the callee's buffer before releasing it
/// through the library's own free export.
#[derive(Debug)]
pub enum FfiCallOutcome {
    /// The library could not be loaded from disk.
    LoadFailed { detail: String },
    /// The entry-point symbol is not exported by the library.
    MissingSymbol { symbol: String },
    /// The entry point returned a null pointer.
    NullReturn,
    /// The entry point returned a string, already copied into host memory.
    Returned { result: String },
}

/// Classify a native-library call: a returned string is the tool result,
/// exactly as the library produced it; a null return or a missing symbol
/// violates the protocol; a load failure means the backend is unreachable.
pub fn classify_ffi(outcome: FfiCallOutcome) -> (r: Result<String, GatewayError>)
    ensures
        match outcome {
            FfiCallOutcome::LoadFailed { detail } => r matches Err(
                GatewayError::BackendUnreachable { detail: d },
            ) && d@ == detail@,
            FfiCallOutcome::MissingSymbol { symbol } => r matches Err(
                GatewayError::ProtocolViolation { detail: d },
            ) && d@ == "missing tool symbol "@ + symbol@,
            FfiCallOutcome::NullReturn => r matches Err(
                GatewayError::ProtocolViolation { detail: d },
            ) && d@ == "tool returned a null pointer"@,
            FfiCallOutcome::Returned { result } => r matches Ok(b) && b@ == result@,
        },
{
    match outcome {
        FfiCallOutcome::LoadFailed { detail } => {
            Err(GatewayError::BackendUnreachable { detail })
        },
        FfiCallOutcome::MissingSymbol { symbol } => {
            let mut d = "missing tool symbol ".to_owned();
            d.append(symbol.as_str());
            Err(GatewayError::ProtocolViolation { detail: d })
        },
        FfiCallOutcome::NullReturn => {
            Err(
                GatewayError::ProtocolViolation {
                    detail: "tool returned a null pointer".to_owned(),
                },
            )
        },
        FfiCallOutcome::Returned { result } => Ok(result),
    }
}

/// One tool descriptor read out of a native library's registration export,
/// every field already copied into host-owned strings: the C descriptors
/// are valid only for the duration of the registration call.
#[derive(Debug)]
pub struct RegisteredTool {
    pub name: String,
    pub description: String,
    pub endpoint: String,
}

/// Mathematical image of a [`RegisteredTool`].
pub struct RegisteredModel {
    pub name: Seq<char>,
    pub description: Seq<char>,
    pub endpoint: Seq<char>,
}

impl View for RegisteredTool {
    type V = RegisteredModel;

    open spec fn view(&self) -> RegisteredModel {
        RegisteredModel {
            name: self.name@,
            description: self.description@,
            endpoint: self.endpoint@,
        }
    }
}

impl DeepView for RegisteredTool {
    type V = RegisteredModel;

    open spec fn deep_view(&self) -> RegisteredModel {
        self.view()
    }
}

/// The schema a freshly registered descriptor turns into: locator still
/// empty (discovery fills it in), parameters the empty JSON object.
pub open spec fn tool_of_registered(m: RegisteredModel) -> ToolModel {
    ToolModel {
        name: m.name,
        description: m.description,
        plugin_url: ""@,
        endpoint: m.endpoint,
        parameters: "{}"@,
    }
}

/// Turn the descriptors a registration export produced into tool schemas.
pub fn tools_from_registered(rts: Vec<RegisteredTool>) -> (r: Vec<ToolSchema>)
    ensures
        r.deep_view() == rts.deep_view().map_values(|m: RegisteredModel| tool_of_registered(m)),
{
    let ghost all = rts.deep_view().map_values(|m: RegisteredModel| tool_of_registered(m));
    let n = rts.len();
    let mut out: Vec<ToolSchema> = Vec::new();
    let mut i: usize = 0;
    proof {
        assert(out.deep_view() =~= all.take(0int));
    }
    while i < n
        invariant
            n == rts.deep_view().len(),
            all == rts.deep_view().map_values(|m: RegisteredModel| tool_of_registered(m)),
            i <= n,
            out.deep_view() == all.take(i as int),
        decreases n - i,
    {
        let rt = &rts[i];
        let t = ToolSchema {
            name: rt.name.clone(),
            description: rt.description.clone(),
            plugin_url: "".to_owned(),
            endpoint: rt.endpoint.clone(),
            parameters: "{}".to_owned(),
        };
        let ghost pre = out.deep_view();
        out.push(t);
        proof {
            assert(out.deep_view() =~= pre.push(tool_of_registered(rts.deep_view()[i as int])));
            assert(pre.push(tool_of_registered(rts.deep_view()[i as int])) =~= all.take(
                i as int + 1,
            ));
        }
        i = i + 1;
    }
    proof {
        assert(all.take(n as int) =~= all);
    }
    out
}

// --- Legacy WebAssembly backend ---
/// Split a packed 64-bit return value into its pointer (high 32 bits) and
/// length (low 32 bits) halves, reinterpreted as the guest's signed words.
pub fn pack_u64_to_i32_pair(v: i64) -> (r: (i32, i32))
    ensures
        r.0 == (((v as u64) >> 32u64) as u32) as i32,
        r.1 == (((v as u64) & 0xFFFF_FFFFu64) as u32) as i32,
{
    let u = v as u64;
    let ptr = (u >> 32) as u32;
    let len = (u & 0xFFFF_FFFF) as u32;
    (ptr as i32, len as i32)
}

/// Validate the packed return value of a legacy WebAssembly tool call: a
/// pointer or length half that is zero or negative as a 32-bit signed word
/// violates the protocol; otherwise the guest span to read is exactly the
/// packed pointer and length.
pub fn unpack_guest_span(packed: i64) -> (r: Result<(u32, u32), GatewayError>)
    ensures
        ({
            let hi = ((packed as u64) >> 32u64) as u32;
            let lo = ((packed as u64) & 0xFFFF_FFFFu64) as u32;
            if hi == 0 || hi >= 0x8000_0000u32 || lo == 0 || lo >= 0x8000_0000u32 {
                r matches Err(GatewayError::ProtocolViolation { .. })
            } else {
                r matches Ok(span) && span == (hi, lo)
            }
        }),
{
    let u = packed as u64;
    let hi = (u >> 32) as u32;
    let lo = (u & 0xFFFF_FFFF) as u32;
    if hi == 0 || hi >= 0x8000_0000 || lo == 0 || lo >= 0x8000_0000 {
        Err(GatewayError::ProtocolViolation { detail: "tool returned empty output".to_owned() })
    } else {
        Ok((hi, lo))
    }
}

/// Check that a parameter buffer fits the guest's 32-bit `alloc(len)`
/// interface; a larger input cannot be handed to the module.
pub fn wasm_input_len(len: usize) -> (r: Result<i32, GatewayError>)
    ensures
        len <= 0x7FFF_FFFF ==> (r matches Ok(l) && l == len as i32),
        len > 0x7FFF_FFFF ==> (r matches Err(GatewayError::ProtocolViolation { .. })),
{
    if len <= 0x7FFF_FFFF {
        Ok(len as i32)
    } else {
        Err(
            GatewayError::ProtocolViolation {
                detail: "parameters too large for the guest allocator".to_owned(),
            },
        )
    }
}

/// A required export is missing from a module: a protocol violation naming
/// the export.
pub fn missing_export(name: &str) -> (r: GatewayError)
    ensures
        r matches GatewayError::ProtocolViolation { detail } && detail@ == "missing export "@
            + name@,
{
    let mut d = "missing export ".to_owned();
    d.append(name);
    GatewayError::ProtocolViolation { detail: d }
}

// --- WASI component backend ---
/// What serde_json's string serialization produces: the canonical quoted,
/// escaped JSON text of a string. A function of the characters alone.
pub uninterp spec fn json_string_of(s: Seq<char>) -> Seq<char>;

/// Relies on serde_json::to_string for a string slice: quoting and JSON
/// escaping; infallible for strings, the result a function of the
/// characters alone.
#[verifier::external_body]
fn json_escape(s: &str) -> (r: String)
    ensures
        r@ == json_string_of(s@),
{
    match serde_json::to_string(s) {
        Ok(text) => text,
        Err(_) => String::new(),
    }
}

/// The one-string envelope handed to a component's `execute` export:
/// `{"endpoint":<escaped endpoint>,"parameters":<parameters JSON>}`.
pub open spec fn component_envelope_spec(endpoint: Seq<char>, params: Seq<char>) -> Seq<char> {
    "{\"endpoint\":"@ + json_string_of(endpoint) + ",\"parameters\":"@ + params + "}"@
}

/// Wrap an endpoint name and the parameters JSON into the component call
/// envelope.
pub fn build_component_envelope(endpoint: &str, params_json: &str) -> (r: String)
    ensures
        r@ == component_envelope_spec(endpoint@, params_json@),
{
    let mut out = "{\"endpoint\":".to_owned();
    let escaped = json_escape(endpoint);
    out.append(escaped.as_str());
    out.append(",\"parameters\":");
    out.append(params_json);
    out.append("}");
    out
}

/// What a component's `execute` export came back with.
#[derive(Debug)]
pub enum ComponentOutcome {
    /// The call trapped instead of returning.
    Trapped { detail: String },
    /// The call returned the result type's success or error variant.
    Returned { result: Result<String, String> },
}

/// Classify a component call: the success variant is the tool result, the
/// error variant a backend rejection carrying the component's message (no
/// HTTP status exists there), and a trap violates the protocol.
pub fn classify_component(outcome: ComponentOutcome) -> (r: Result<String, GatewayError>)
    ensures
        match outcome {
            ComponentOutcome::Trapped { detail } => r matches Err(
                GatewayError::ProtocolViolation { detail: d },
            ) && d@ == detail@,
            ComponentOutcome::Returned { result } => match result {
                Ok(s) => r matches Ok(b) && b@ == s@,
                Err(e) => r matches Err(GatewayError::BackendRejected { status, body }) && status
                    is None && body@ == e@,
            },
        },
{
    match outcome {
        ComponentOutcome::Trapped { detail } => {
            Err(GatewayError::ProtocolViolation { detail })
        },
        ComponentOutcome::Returned { result } => match result {
            Ok(s) => Ok(s),
            Err(e) => Err(GatewayError::BackendRejected { status: None, body: e }),
        },
    }
}

} // verus!

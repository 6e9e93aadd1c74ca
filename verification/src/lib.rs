//! Verified core of a plugin execution gateway.
//!
//! The gateway keeps a registry of tool definitions scoped per twin (agent)
//! or globally, resolves a tool name to one of four execution backends from
//! the tool's locator prefix, and drives plugin auto-discovery from on-disk
//! manifests. The decision logic lives here, verified; process boundaries
//! (HTTP, FFI, WebAssembly runtimes, the persistent store) are driven by a
//! thin unverified shell that feeds their outcomes back into these functions.

pub mod discover;
pub mod dispatch;
pub mod errors;
pub mod events;
pub mod executor;
pub mod locator;
pub mod metrics;
pub mod playbook;
pub mod registry;
pub mod strutil;
pub mod tool;
pub mod types;

pub use discover::{GateDecision, LibraryTable, PluginInfo, PluginManifest, PluginType, ScanAction, SignatureMode, ToolDefinition};
pub use errors::{ErrorBody, ErrorCode, GatewayError};
pub use events::{CoreEvent, EventType, MemoryItem};
pub use executor::{ComponentOutcome, FfiCallOutcome, HttpOutcome, RegisteredTool};
pub use locator::Backend;
pub use metrics::{ExecStatus, ExecutionMetrics, LatencyPoint, LatencyStats, MetricPoint};
pub use playbook::{AceCuration, AceGeneration, InstructionsField, Playbook, PlaybookAiPrinciples, PlaybookContextEngineering, PlaybookContextFilters, PlaybookContextLayers, PlaybookContextOrder, PlaybookEthics, PlaybookInstructions, PlaybookMeta, PlaybookOptimization, PlaybookSubAgent, PlaybookSubAgents, PlaybookToolItem, PlaybookTools, RefinementArtifact, ToolsField};
pub use registry::{RegEntry, Registry};
pub use tool::ToolSchema;
pub use types::{TwinId, TwinState};

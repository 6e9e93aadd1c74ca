//! The dispatcher: resolve a tool name and caller scope to a schema and the
//! backend executor that owns it, and apply registrations write-through.

use vstd::prelude::*;

use crate::errors::GatewayError;
use crate::locator::{backend_of, payload_of, route, Backend};
use crate::registry::{lookup_spec, map_of, Registry};
use crate::tool::ToolSchema;
use crate::types::TwinId;

verus! {

/// Resolve one execution request: the tool under the caller's scope or the
/// global scope, the backend its locator selects, and the backend's
/// payload. An unknown name is `NotFound`, permanent for this call.
pub fn resolve(reg: &Registry, scope: TwinId, name: &String) -> (r: Result<
    (ToolSchema, Backend, String),
    GatewayError,
>)
    requires
        reg.wf(),
    ensures
        match r {
            Ok(hit) => lookup_spec(map_of(reg@), scope.0, name@) == Some(hit.0@) && hit.1
                == backend_of(hit.0@.plugin_url) && hit.2@ == payload_of(hit.0@.plugin_url),
            Err(e) => lookup_spec(map_of(reg@), scope.0, name@) is None && (e matches
                GatewayError::NotFound { detail } && detail@ == "tool '"@ + name@
                + "' not found"@),
        },
{
    match reg.lookup(scope, name) {
        Some(tool) => {
            let (backend, payload) = route(tool.plugin_url.as_str());
            Ok((tool, backend, payload))
        },
        None => {
            let mut d = "tool '".to_owned();
            d.append(name.as_str());
            d.append("' not found");
            Err(GatewayError::NotFound { detail: d })
        },
    }
}

/// Apply one registration write-through, given whether the persistent write
/// succeeded. On success the in-memory registry gains the binding; on a
/// failed persistent write the in-memory registry is left untouched and the
/// caller gets `StoreUnavailable`: the two views never diverge.
pub fn apply_upsert(reg: &mut Registry, scope: TwinId, tool: ToolSchema, store_ok: bool) -> (r:
    Result<(), GatewayError>)
    requires
        old(reg).wf(),
    ensures
        final(reg).wf(),
        store_ok ==> r is Ok && map_of(final(reg)@) == map_of(old(reg)@).insert(
            (scope.0, tool@.name),
            tool@,
        ),
        !store_ok ==> (r matches Err(GatewayError::StoreUnavailable { .. })) && final(reg)@ == old(
            reg,
        )@,
{
    if store_ok {
        reg.upsert(scope, tool);
        Ok(())
    } else {
        Err(
            GatewayError::StoreUnavailable {
                detail: "persistent store write failed".to_owned(),
            },
        )
    }
}

} // verus!

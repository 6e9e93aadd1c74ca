//! Backend selection from a tool's locator.
//!
//! The locator's scheme prefix is the only place backend selection is
//! decided: `sharedlib://` picks the native-library executor, `wasm://` the
//! legacy WebAssembly executor, `wasm-component://` or `component://` the
//! WASI component executor, and everything else, a plain URL included,
//! falls through to the HTTP executor.

use vstd::prelude::*;

use crate::strutil::{lemma_prefix_index, starts_with, str_starts_with, strip_prefix_owned};

verus! {

/// One of the four interchangeable execution backends.
#[derive(Debug, Clone, Copy, PartialEq, Eq, Structural)]
pub enum Backend {
    Http,
    SharedLib,
    Wasm,
    WasmComponent,
}

/// Which backend a locator selects.
pub open spec fn backend_of(l: Seq<char>) -> Backend {
    if starts_with(l, "sharedlib://"@) {
        Backend::SharedLib
    } else if starts_with(l, "wasm://"@) {
        Backend::Wasm
    } else if starts_with(l, "wasm-component://"@) || starts_with(l, "component://"@) {
        Backend::WasmComponent
    } else {
        Backend::Http
    }
}

/// What the backend receives: the path after a recognized scheme prefix,
/// or the whole locator for the HTTP fallback.
pub open spec fn payload_of(l: Seq<char>) -> Seq<char> {
    if starts_with(l, "sharedlib://"@) {
        l.skip("sharedlib://"@.len() as int)
    } else if starts_with(l, "wasm://"@) {
        l.skip("wasm://"@.len() as int)
    } else if starts_with(l, "wasm-component://"@) {
        l.skip("wasm-component://"@.len() as int)
    } else if starts_with(l, "component://"@) {
        l.skip("component://"@.len() as int)
    } else {
        l
    }
}

/// Inspect a locator once and hand back the owning backend and its payload.
pub fn route(locator: &str) -> (r: (Backend, String))
    ensures
        r.0 == backend_of(locator@),
        r.1@ == payload_of(locator@),
{
    if str_starts_with(locator, "sharedlib://") {
        (Backend::SharedLib, strip_prefix_owned(locator, "sharedlib://"))
    } else if str_starts_with(locator, "wasm://") {
        (Backend::Wasm, strip_prefix_owned(locator, "wasm://"))
    } else if str_starts_with(locator, "wasm-component://") {
        (Backend::WasmComponent, strip_prefix_owned(locator, "wasm-component://"))
    } else if str_starts_with(locator, "component://") {
        (Backend::WasmComponent, strip_prefix_owned(locator, "component://"))
    } else {
        (Backend::Http, locator.to_owned())
    }
}

/// Backend routing, one direction: a locator with a recognized scheme is
/// never routed to the HTTP executor, and each scheme reaches its own
/// backend; a locator with no recognized scheme falls through to HTTP.
pub proof fn lemma_backend_routing(l: Seq<char>)
    ensures
        starts_with(l, "sharedlib://"@) ==> backend_of(l) == Backend::SharedLib,
        starts_with(l, "wasm://"@) ==> backend_of(l) == Backend::Wasm,
        (starts_with(l, "wasm-component://"@) || starts_with(l, "component://"@)) ==> backend_of(
            l,
        ) == Backend::WasmComponent,
        backend_of(l) == Backend::Http <==> !starts_with(l, "sharedlib://"@) && !starts_with(
            l,
            "wasm://"@,
        ) && !starts_with(l, "wasm-component://"@) && !starts_with(l, "component://"@),
{
    reveal_strlit("sharedlib://");
    reveal_strlit("wasm://");
    reveal_strlit("wasm-component://");
    reveal_strlit("component://");
    if starts_with(l, "sharedlib://"@) && starts_with(l, "wasm://"@) {
        lemma_prefix_index(l, "sharedlib://"@, 0);
        lemma_prefix_index(l, "wasm://"@, 0);
        assert(false);
    }
    if starts_with(l, "sharedlib://"@) && starts_with(l, "wasm-component://"@) {
        lemma_prefix_index(l, "sharedlib://"@, 0);
        lemma_prefix_index(l, "wasm-component://"@, 0);
        assert(false);
    }
    if starts_with(l, "sharedlib://"@) && starts_with(l, "component://"@) {
        lemma_prefix_index(l, "sharedlib://"@, 0);
        lemma_prefix_index(l, "component://"@, 0);
        assert(false);
    }
    if starts_with(l, "wasm://"@) && starts_with(l, "wasm-component://"@) {
        lemma_prefix_index(l, "wasm://"@, 4);
        lemma_prefix_index(l, "wasm-component://"@, 4);
        assert(false);
    }
    if starts_with(l, "wasm://"@) && starts_with(l, "component://"@) {
        lemma_prefix_index(l, "wasm://"@, 0);
        lemma_prefix_index(l, "component://"@, 0);
        assert(false);
    }
}

/// Backend routing, the other direction: a plain HTTP or HTTPS URL is
/// routed to the HTTP executor.
pub proof fn lemma_http_url_routes_to_http(l: Seq<char>)
    requires
        starts_with(l, "http://"@) || starts_with(l, "https://"@),
    ensures
        backend_of(l) == Backend::Http,
{
    reveal_strlit("http://");
    reveal_strlit("https://");
    reveal_strlit("sharedlib://");
    reveal_strlit("wasm://");
    reveal_strlit("wasm-component://");
    reveal_strlit("component://");
    if starts_with(l, "http://"@) {
        lemma_prefix_index(l, "http://"@, 0);
    } else {
        lemma_prefix_index(l, "https://"@, 0);
    }
    if starts_with(l, "sharedlib://"@) {
        lemma_prefix_index(l, "sharedlib://"@, 0);
        assert(false);
    }
    if starts_with(l, "wasm://"@) {
        lemma_prefix_index(l, "wasm://"@, 0);
        assert(false);
    }
    if starts_with(l, "wasm-component://"@) {
        lemma_prefix_index(l, "wasm-component://"@, 0);
        assert(false);
    }
    if starts_with(l, "component://"@) {
        lemma_prefix_index(l, "component://"@, 0);
        assert(false);
    }
}

} // verus!

//! The unit of registration: a tool definition.

use vstd::prelude::*;

verus! {

/// Mathematical image of a [`ToolSchema`]: every field as a sequence of
/// characters. Contracts throughout the crate speak of this model.
pub struct ToolModel {
    pub name: Seq<char>,
    pub description: Seq<char>,
    pub plugin_url: Seq<char>,
    pub endpoint: Seq<char>,
    pub parameters: Seq<char>,
}

/// A registered tool: name (the dispatch key within a scope), human
/// description, backend locator (`plugin_url`), entry point (`endpoint`),
/// and the parameter schema carried as its JSON text.
#[derive(Debug)]
pub struct ToolSchema {
    pub name: String,
    pub description: String,
    /// Locator: a URL or a backend-scheme URI. Its prefix alone decides
    /// which backend executor owns the tool.
    pub plugin_url: String,
    /// Entry point inside the backend: an HTTP path, an exported symbol,
    /// or a WebAssembly export name.
    pub endpoint: String,
    /// Opaque JSON schema describing the parameters, kept as JSON text.
    pub parameters: String,
}

impl View for ToolSchema {
    type V = ToolModel;

    open spec fn view(&self) -> ToolModel {
        ToolModel {
            name: self.name@,
            description: self.description@,
            plugin_url: self.plugin_url@,
            endpoint: self.endpoint@,
            parameters: self.parameters@,
        }
    }
}

impl DeepView for ToolSchema {
    type V = ToolModel;

    open spec fn deep_view(&self) -> ToolModel {
        self.view()
    }
}

impl Clone for ToolSchema {
    fn clone(&self) -> (r: Self)
        ensures
            r@ == self@,
    {
        ToolSchema {
            name: self.name.clone(),
            description: self.description.clone(),
            plugin_url: self.plugin_url.clone(),
            endpoint: self.endpoint.clone(),
            parameters: self.parameters.clone(),
        }
    }
}

} // verus!

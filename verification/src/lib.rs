//! Client-side logic for a code-generation service and its analysis tools.
//!
//! The crate has two parts. The generation client says what is sent to each
//! of the supported backends and turns what comes back into code and
//! explanation (`client`, `extract`). The tools analyse contract source or
//! look up templates, and are invoked by name through a registry (`mcp`,
//! `openzeppelin`, `audit`, `gas`).
//!
//! Nothing here performs I/O: the caller sends the request that the client
//! describes and hands the outcome back.

pub mod audit;
pub mod client;
pub mod extract;
pub mod gas;
pub mod json;
pub mod mcp;
pub mod openzeppelin;
pub mod text;
pub mod types;

pub use audit::SecurityAuditTool;
pub use client::{ApiClient, ClientError, CraiteClient, HttpOutcome, HttpRequest};
pub use gas::GasOptimizationTool;
pub use json::JsonValue;
pub use mcp::{MCPTool, MCPToolRegistry, MCPToolResult, ToolParameters};
pub use openzeppelin::OpenZeppelinTool;
pub use types::{GenerateOptions, GenerateResult, GenerationMode, LLMProvider};

use vstd::prelude::*;

verus! {

/// The holder of `api_key`, from which clients for the backends are made.
pub fn create_client(api_key: &str) -> (client: CraiteClient)
    ensures
        client@ == api_key@,
{
    CraiteClient::new(api_key)
}

} // verus!

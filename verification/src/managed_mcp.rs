use vstd::prelude::*;

verus! {

/// The lifecycle state of a managed MCP server, as the GraphQL schema reports it.
#[derive(Clone, Copy, Debug, PartialEq, Eq, Structural)]
pub enum ManagedMcpStatus {
    Active,
    Draft,
    Error,
}

/// How a managed MCP server is reached, as the GraphQL schema reports it.
#[derive(Clone, Copy, Debug, PartialEq, Eq, Structural)]
pub enum ManagedMcpTransportKind {
    Command,
    Url,
}

/// A managed MCP server record; `uid` is its opaque GraphQL id.
#[derive(Clone, Debug, PartialEq, Eq)]
pub struct ManagedMcpServer {
    pub uid: String,
    pub display_name: String,
    pub transport_kind: ManagedMcpTransportKind,
    pub status: ManagedMcpStatus,
    pub last_error: Option<String>,
}

/// An error that the server means to be shown to the user.
#[derive(Clone, Debug, PartialEq, Eq)]
pub struct UserFacingError {
    pub message: String,
}

/// The input of the managed-MCP-server query.
#[derive(Clone, Debug, PartialEq, Eq)]
pub struct ManagedMcpServerInput {
    pub uid: String,
}

#[derive(Clone, Debug, PartialEq, Eq)]
pub struct ManagedMcpServerOutput {
    pub server: ManagedMcpServer,
}

/// What the managed-MCP-server query answers: the server, a user-facing error, or a shape
/// this client does not know.
#[derive(Clone, Debug, PartialEq, Eq)]
pub enum ManagedMcpServerResult {
    ManagedMcpServerOutput(ManagedMcpServerOutput),
    UserFacingError(UserFacingError),
    Unknown,
}

/// The answer of the managed-MCP-server query.
#[derive(Clone, Debug, PartialEq, Eq)]
pub struct ManagedMcpServerQuery {
    pub managed_mcp_server: ManagedMcpServerResult,
}

/// The input of the proxy-session mutation.
#[derive(Clone, Debug, PartialEq, Eq)]
pub struct CreateManagedMcpProxySessionInput {
    pub uid: String,
}

#[derive(Clone, Debug, PartialEq, Eq)]
pub struct CreateManagedMcpProxySessionOutput {
    pub mcp_config_json: String,
}

/// What the proxy-session mutation answers.
#[derive(Clone, Debug, PartialEq, Eq)]
pub enum CreateManagedMcpProxySessionResult {
    CreateManagedMcpProxySessionOutput(CreateManagedMcpProxySessionOutput),
    UserFacingError(UserFacingError),
    Unknown,
}

/// The answer of the proxy-session mutation.
#[derive(Clone, Debug, PartialEq, Eq)]
pub struct CreateManagedMcpProxySession {
    pub create_managed_mcp_proxy_session: CreateManagedMcpProxySessionResult,
}

} // verus!

use local_control::managed_mcp::{
    CreateManagedMcpProxySessionOutput, CreateManagedMcpProxySessionResult, ManagedMcpServer,
    ManagedMcpServerOutput, ManagedMcpServerResult, ManagedMcpStatus as SchemaStatus,
    ManagedMcpTransportKind as SchemaTransport, UserFacingError,
};
use local_control::managed_mcp_client::{
    is_absent_managed_mcp_message, proxy_session_from, server_for_resolution,
    ManagedMcpProxySession, ManagedMcpServerForResolution, ManagedMcpStatus,
    ManagedMcpTransportKind,
};

#[test]
fn absent_messages_ignore_case_and_surrounding_space() {
    assert!(is_absent_managed_mcp_message("managed mcp server not found"));
    assert!(is_absent_managed_mcp_message("  Managed MCP Server Not Found\n"));
    assert!(is_absent_managed_mcp_message("\u{a0}MANAGED MCP IS NOT ENABLED\t"));
    assert!(!is_absent_managed_mcp_message("managed mcp server not found!"));
    assert!(!is_absent_managed_mcp_message("managed  mcp server not found"));
    assert!(!is_absent_managed_mcp_message(""));
}

#[test]
fn found_servers_are_reduced_for_resolution() {
    let result = ManagedMcpServerResult::ManagedMcpServerOutput(ManagedMcpServerOutput {
        server: ManagedMcpServer {
            uid: "u".to_owned(),
            display_name: "Docs".to_owned(),
            transport_kind: SchemaTransport::Url,
            status: SchemaStatus::Draft,
            last_error: Some("e".to_owned()),
        },
    });
    assert_eq!(
        server_for_resolution(result),
        Ok(Some(ManagedMcpServerForResolution {
            display_name: "Docs".to_owned(),
            transport_kind: ManagedMcpTransportKind::Url,
            status: ManagedMcpStatus::Draft,
            last_error: Some("e".to_owned()),
        }))
    );
}

#[test]
fn user_facing_errors_mean_absence_or_failure() {
    let absent = ManagedMcpServerResult::UserFacingError(UserFacingError {
        message: " Managed MCP is not enabled ".to_owned(),
    });
    assert_eq!(server_for_resolution(absent), Ok(None));
    let other = ManagedMcpServerResult::UserFacingError(UserFacingError { message: "quota".to_owned() });
    assert_eq!(server_for_resolution(other), Err("quota".to_owned()));
    assert_eq!(
        server_for_resolution(ManagedMcpServerResult::Unknown),
        Err("Unknown error while resolving managed MCP server".to_owned())
    );
}

#[test]
fn proxy_sessions_carry_the_config_or_the_error() {
    let ok = CreateManagedMcpProxySessionResult::CreateManagedMcpProxySessionOutput(
        CreateManagedMcpProxySessionOutput { mcp_config_json: "{}".to_owned() },
    );
    assert_eq!(
        proxy_session_from(ok),
        Ok(ManagedMcpProxySession { mcp_config_json: "{}".to_owned() })
    );
    let refused = CreateManagedMcpProxySessionResult::UserFacingError(UserFacingError {
        message: "managed mcp server not found".to_owned(),
    });
    assert_eq!(proxy_session_from(refused), Err("managed mcp server not found".to_owned()));
    assert_eq!(
        proxy_session_from(CreateManagedMcpProxySessionResult::Unknown),
        Err("Unknown error while creating managed MCP proxy session".to_owned())
    );
}

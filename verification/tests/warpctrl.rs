use local_control::client::{
    control_url, credential_from_response, credentials_url, endpoint_base, CredentialFailure,
};
use local_control::protocol::{
    ControlActionKind, ControlError, CredentialResponse, ErrorCode, InstanceId, InvocationContext,
    PermissionCategory, ScopedCredential, PROTOCOL_VERSION,
};
use local_control::selection::InstanceSelector;
use local_control::warpctrl::{
    app_command_request, response_for_error, tab_command_request, AppCommand,
    InstanceSelectorArgs, TabCommand,
};

#[test]
fn instance_selector_prefers_instance_then_pid() {
    let both = InstanceSelectorArgs { instance: Some("abc".to_owned()), pid: Some(1) };
    assert_eq!(both.instance_selector(), InstanceSelector::Id(InstanceId("abc".to_owned())));
    let pid = InstanceSelectorArgs { instance: None, pid: Some(123) };
    assert_eq!(pid.instance_selector(), InstanceSelector::Pid(123));
    assert_eq!(InstanceSelectorArgs::default().instance_selector(), InstanceSelector::Default);
}

#[test]
fn foundation_commands_address_their_actions() {
    let args = InstanceSelectorArgs { instance: None, pid: Some(123) };
    assert_eq!(
        app_command_request(&AppCommand::Version(args.clone())),
        (InstanceSelector::Pid(123), ControlActionKind::AppVersion)
    );
    assert_eq!(
        app_command_request(&AppCommand::Ping(InstanceSelectorArgs::default())),
        (InstanceSelector::Default, ControlActionKind::AppPing)
    );
    assert_eq!(
        tab_command_request(&TabCommand::Create(args)),
        (InstanceSelector::Pid(123), ControlActionKind::TabCreate)
    );
}

#[test]
fn client_side_failures_explain_the_code() {
    let response = response_for_error(ControlActionKind::AppPing, ErrorCode::AmbiguousInstance);
    assert!(!response.ok);
    assert_eq!(response.request_id, "app.ping");
    assert_eq!(response.protocol_version, PROTOCOL_VERSION);
    let body = response.error.unwrap();
    assert_eq!(body.code, ErrorCode::AmbiguousInstance);
    assert_eq!(body.message, "multiple compatible Warp instances found; pass --instance or --pid");
    let other = response_for_error(ControlActionKind::TabCreate, ErrorCode::TransportError);
    assert_eq!(other.error.unwrap().message, "local-control request failed");
    let none = response_for_error(ControlActionKind::AppVersion, ErrorCode::NoInstance);
    assert_eq!(none.error.unwrap().message, "no running Warp instance found for local control");
}

#[test]
fn endpoint_paths_are_joined_without_double_slashes() {
    let base = endpoint_base("http://127.0.0.1:4000//");
    assert_eq!(base, "http://127.0.0.1:4000");
    assert_eq!(credentials_url(&base), "http://127.0.0.1:4000/v1/control/credentials");
    assert_eq!(control_url(&base), "http://127.0.0.1:4000/v1/control");
    assert_eq!(endpoint_base("///"), "");
    assert_eq!(endpoint_base("http://h"), "http://h");
}

#[test]
fn credential_responses_yield_the_credential_or_the_refusal() {
    let credential = ScopedCredential {
        token: "t".to_owned(),
        action: ControlActionKind::AppPing,
        permission: PermissionCategory::ReadMetadata,
        invocation_context: InvocationContext::OutsideWarp,
        expires_at_unix_ms: 5,
        requires_authenticated_user: false,
    };
    let error = ControlError::new(ErrorCode::LocalControlDisabled, "off");
    let both = CredentialResponse {
        protocol_version: PROTOCOL_VERSION,
        request_id: "r".to_owned(),
        credential: Some(credential.clone()),
        error: Some(error.clone()),
    };
    assert_eq!(credential_from_response(both), Err(CredentialFailure::Refused(error)));
    let ok = CredentialResponse {
        protocol_version: PROTOCOL_VERSION,
        request_id: "r".to_owned(),
        credential: Some(credential.clone()),
        error: None,
    };
    assert_eq!(credential_from_response(ok), Ok(credential));
    let empty = CredentialResponse {
        protocol_version: PROTOCOL_VERSION,
        request_id: "r".to_owned(),
        credential: None,
        error: None,
    };
    assert_eq!(credential_from_response(empty), Err(CredentialFailure::Missing));
}

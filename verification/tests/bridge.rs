use local_control::auth::{CredentialIssuer, PermissionGrant};
use local_control::bridge::{
    bearer_token, discovery_record_for, enabled_implemented_actions, BridgeDispatch,
    LocalControlBridge,
};
use local_control::handlers::{ping, tab_create_rejection, tab_create_response, version, TabCounts};
use local_control::protocol::{
    ActionResult, ControlActionKind, CredentialRequest, ErrorCode, InstanceId, InvocationContext,
    PermissionCategory, RequestEnvelope, ScopedCredential, TargetSelector, WindowSelector,
    PROTOCOL_VERSION,
};
use local_control::settings::LocalControlSettings;

fn enabled_settings() -> LocalControlSettings {
    LocalControlSettings {
        outside_warp_control_enabled: true,
        outside_warp_metadata_reads_enabled: true,
        outside_warp_app_state_mutations_enabled: true,
        ..LocalControlSettings::default()
    }
}

fn bridge() -> LocalControlBridge {
    LocalControlBridge::new(CredentialIssuer::new(false, PermissionGrant::default()))
}

#[test]
fn issued_credentials_are_accepted_for_their_action_only() {
    let settings = enabled_settings();
    let mut bridge = bridge();
    let response = bridge.issue_credential(
        CredentialRequest::outside_warp(ControlActionKind::TabCreate),
        &settings,
    );
    assert_eq!(response.request_id, "tab.create");
    let credential = response.credential.unwrap();
    let request = RequestEnvelope::new("r1".to_owned(), ControlActionKind::TabCreate);
    assert_eq!(
        bridge.handle_request(Some(credential.token.clone()), &request, &settings),
        Ok(BridgeDispatch::TabCreate)
    );
    let ping = RequestEnvelope::new("r2".to_owned(), ControlActionKind::AppPing);
    let refused = bridge.handle_request(Some(credential.token.clone()), &ping, &settings).unwrap_err();
    assert_eq!(refused.code, ErrorCode::InsufficientPermissions);
    let missing = bridge.handle_request(None, &ping, &settings).unwrap_err();
    assert_eq!(missing.code, ErrorCode::UnauthorizedLocalClient);
    assert_eq!(missing.message, "missing bearer credential");
}

#[test]
fn disabling_control_revokes_issued_credentials() {
    let settings = enabled_settings();
    let mut bridge = bridge();
    let credential = bridge
        .issue_credential(CredentialRequest::outside_warp(ControlActionKind::AppPing), &settings)
        .credential
        .unwrap();
    let ping = RequestEnvelope::new("r".to_owned(), ControlActionKind::AppPing);
    assert_eq!(bridge.handle_request(Some(credential.token.clone()), &ping, &settings), Ok(BridgeDispatch::Ping));
    let off = LocalControlSettings::default();
    let error = bridge.handle_request(Some(credential.token), &ping, &off).unwrap_err();
    assert_eq!(error.code, ErrorCode::LocalControlDisabled);
}

#[test]
fn tab_create_requests_are_checked_before_dispatch() {
    let settings = enabled_settings();
    let mut bridge = bridge();
    let token = bridge
        .issue_credential(CredentialRequest::outside_warp(ControlActionKind::TabCreate), &settings)
        .credential
        .unwrap()
        .token;
    let mut with_params = RequestEnvelope::new("r".to_owned(), ControlActionKind::TabCreate);
    with_params.params_are_empty = false;
    let error = bridge.handle_request(Some(token.clone()), &with_params, &settings).unwrap_err();
    assert_eq!(error.code, ErrorCode::InvalidParams);
    let mut other_window = RequestEnvelope::new("r".to_owned(), ControlActionKind::TabCreate);
    other_window.target = TargetSelector { window: Some(WindowSelector::Index(2)), ..TargetSelector::empty() };
    let error = bridge.handle_request(Some(token), &other_window, &settings).unwrap_err();
    assert_eq!(error.code, ErrorCode::InvalidSelector);
    let rejection = tab_create_rejection(&other_window).unwrap();
    assert_eq!(rejection.error.unwrap().code, ErrorCode::InvalidSelector);
    assert!(tab_create_rejection(&RequestEnvelope::new("ok".to_owned(), ControlActionKind::TabCreate)).is_none());
}

#[test]
fn credentials_endpoint_checks_version_broker_token_and_context() {
    let settings = enabled_settings();
    let mut bridge = bridge();
    let mut request = CredentialRequest::outside_warp(ControlActionKind::AppPing);
    assert_eq!(
        bridge.credentials_endpoint(None, "broker", &request, &settings).unwrap_err().code,
        ErrorCode::UnauthorizedLocalClient
    );
    assert_eq!(
        bridge
            .credentials_endpoint(Some("wrong".to_owned()), "broker", &request, &settings)
            .unwrap_err()
            .code,
        ErrorCode::UnauthorizedLocalClient
    );
    assert!(bridge
        .credentials_endpoint(Some("broker".to_owned()), "broker", &request, &settings)
        .is_ok());
    request.invocation_context = InvocationContext::InsideWarp;
    assert_eq!(
        bridge
            .credentials_endpoint(Some("broker".to_owned()), "broker", &request, &settings)
            .unwrap_err()
            .code,
        ErrorCode::ExecutionContextNotAllowed
    );
    request.protocol_version = PROTOCOL_VERSION + 1;
    assert_eq!(
        bridge
            .credentials_endpoint(Some("broker".to_owned()), "broker", &request, &settings)
            .unwrap_err()
            .code,
        ErrorCode::UnsupportedAction
    );
}

#[test]
fn control_endpoint_rejects_other_protocol_versions() {
    let settings = enabled_settings();
    let mut bridge = bridge();
    let mut request = RequestEnvelope::new("r".to_owned(), ControlActionKind::AppPing);
    request.protocol_version = PROTOCOL_VERSION + 1;
    let error = bridge.control_endpoint_at(None, &request, &settings, 0).unwrap_err();
    assert_eq!(error.code, ErrorCode::UnsupportedAction);
    assert_eq!(error.message, "unsupported local-control protocol version");
}

#[test]
fn instance_list_reports_the_implemented_actions() {
    assert_eq!(
        enabled_implemented_actions(),
        vec!["instance.list", "app.ping", "app.version", "tab.create"]
    );
    let settings = enabled_settings();
    let mut bridge = bridge();
    let token = bridge
        .issue_credential(CredentialRequest::outside_warp(ControlActionKind::InstanceList), &settings)
        .credential
        .unwrap()
        .token;
    let request = RequestEnvelope::new("r".to_owned(), ControlActionKind::InstanceList);
    assert_eq!(
        bridge.handle_request(Some(token), &request, &settings),
        Ok(BridgeDispatch::ListActions(enabled_implemented_actions()))
    );
}

#[test]
fn discovery_records_publish_endpoints_only_when_enabled() {
    let on = discovery_record_for(
        "i",
        42,
        "dev",
        None,
        7,
        true,
        &enabled_settings(),
        Some("http://127.0.0.1:5".to_owned()),
    );
    assert!(on.is_actionable());
    assert_eq!(on.app_version, "unknown");
    assert_eq!(on.implemented_actions.len(), 4);
    let off = discovery_record_for(
        "i",
        42,
        "dev",
        Some("1.2"),
        7,
        false,
        &enabled_settings(),
        Some("http://127.0.0.1:5".to_owned()),
    );
    assert!(!off.is_actionable());
    assert_eq!(off.endpoint, None);
    assert!(off.implemented_actions.is_empty());
    assert_eq!(off.app_version, "1.2");
}

#[test]
fn bearer_tokens_need_the_bearer_scheme() {
    assert_eq!(bearer_token(Some("Bearer abc")), Some("abc".to_owned()));
    assert_eq!(bearer_token(Some("Bearer ")), Some(String::new()));
    assert_eq!(bearer_token(Some("bearer abc")), None);
    assert_eq!(bearer_token(Some("Basic abc")), None);
    assert_eq!(bearer_token(None), None);
}

#[test]
fn handlers_answer_ping_version_and_tab_create() {
    let pong = ping("p".to_owned(), InstanceId("i".to_owned()));
    assert!(pong.ok);
    assert_eq!(
        pong.result,
        Some(ActionResult::Ping {
            action: "app.ping".to_owned(),
            status: "ok".to_owned(),
            protocol_version: PROTOCOL_VERSION,
        })
    );
    let ver = version("v".to_owned(), InstanceId("i".to_owned()), "dev".to_owned(), None);
    assert_eq!(ver.instance_id, Some(InstanceId("i".to_owned())));
    assert_eq!(
        ver.result,
        Some(ActionResult::Version {
            action: "app.version".to_owned(),
            protocol_version: PROTOCOL_VERSION,
            channel: "dev".to_owned(),
            app_version: None,
        })
    );
    let created = tab_create_response(
        "t".to_owned(),
        "w1".to_owned(),
        Some(TabCounts { previous_tab_count: 2, current_tab_count: 3, active_tab_index: 2 }),
    );
    assert!(created.ok);
    assert_eq!(
        created.result,
        Some(ActionResult::TabCreated {
            action: "tab.create".to_owned(),
            active_window_id: "w1".to_owned(),
            previous_tab_count: Some(2),
            current_tab_count: Some(3),
            active_tab_index: Some(2),
        })
    );
    let missing = tab_create_response("t".to_owned(), "w1".to_owned(), None);
    let body = missing.error.unwrap();
    assert_eq!(body.code, ErrorCode::MissingTarget);
    assert_eq!(body.message, "active window does not contain a workspace");
}

#[test]
fn control_requests_drop_expired_credentials_before_the_lookup() {
    let settings = enabled_settings();
    let mut issuer = CredentialIssuer::new(true, PermissionGrant::default());
    issuer.insert_for_tests(ScopedCredential {
        token: "t".to_owned(),
        action: ControlActionKind::AppPing,
        permission: PermissionCategory::ReadMetadata,
        invocation_context: InvocationContext::OutsideWarp,
        expires_at_unix_ms: 1_000,
        requires_authenticated_user: false,
    });
    let mut bridge = LocalControlBridge::new(issuer);
    let ping = RequestEnvelope::new("r".to_owned(), ControlActionKind::AppPing);
    assert_eq!(
        bridge.handle_request_at(Some("t".to_owned()), &ping, &settings, 999),
        Ok(BridgeDispatch::Ping)
    );
    let late = bridge.handle_request_at(Some("t".to_owned()), &ping, &settings, 1_000).unwrap_err();
    assert_eq!(late.code, ErrorCode::UnauthorizedLocalClient);
    assert_eq!(late.message, "missing or unknown local-control credential");
    let again = bridge.handle_request_at(Some("t".to_owned()), &ping, &settings, 0).unwrap_err();
    assert_eq!(again.message, "missing or unknown local-control credential");
}

#[test]
fn refused_control_requests_are_answered_with_their_request_id() {
    let settings = enabled_settings();
    let mut bridge = bridge();
    let ping = RequestEnvelope::new("req-7".to_owned(), ControlActionKind::AppPing);
    let response = bridge.control_response_at(None, &ping, &settings, 0).unwrap_err();
    assert!(!response.ok);
    assert_eq!(response.request_id, "req-7");
    let body = response.error.unwrap();
    assert_eq!(body.code, ErrorCode::UnauthorizedLocalClient);
    assert_eq!(body.message, "missing bearer credential");
    let mut old_version = ping.clone();
    old_version.protocol_version = PROTOCOL_VERSION + 1;
    let response = bridge.control_response_at(None, &old_version, &settings, 0).unwrap_err();
    assert_eq!(response.request_id, "req-7");
    assert_eq!(response.error.unwrap().code, ErrorCode::UnsupportedAction);
}

#[test]
fn credentials_responses_carry_the_action_name_as_request_id() {
    let settings = enabled_settings();
    let mut bridge = bridge();
    let request = CredentialRequest::outside_warp(ControlActionKind::AppPing);
    let refused = bridge.credentials_response(Some("wrong".to_owned()), "broker", &request, &settings);
    assert!(!refused.ok);
    assert_eq!(refused.request_id, "app.ping");
    let body = refused.error.unwrap();
    assert_eq!(body.code, ErrorCode::UnauthorizedLocalClient);
    assert_eq!(body.message, "missing or invalid local-control broker token");
    let issued = bridge.credentials_response(Some("broker".to_owned()), "broker", &request, &settings);
    assert!(issued.ok);
    assert_eq!(issued.request_id, "app.ping");
    match issued.result {
        Some(ActionResult::CredentialIssued { credential }) => {
            assert_eq!(credential.action, ControlActionKind::AppPing);
            assert_eq!(credential.token.len(), 36);
        }
        other => panic!("unexpected result {other:?}"),
    }
    let off = LocalControlSettings::default();
    let denied = bridge.credentials_response(Some("broker".to_owned()), "broker", &request, &off);
    assert_eq!(denied.request_id, "app.ping");
    let body = denied.error.unwrap();
    assert_eq!(body.code, ErrorCode::LocalControlDisabled);
    assert_eq!(body.message, "credential request denied");
}

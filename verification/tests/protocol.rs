use local_control::protocol::{
    ActionResult, ControlActionKind, ControlError, CredentialRequest, CredentialResponse,
    ErrorCode, ExecutionContextProof, InvocationContext, PermissionCategory, RequestEnvelope,
    ResponseEnvelope, ScopedCredential, TargetSelector, WindowSelector, PROTOCOL_VERSION,
};

#[test]
fn tab_create_foundation_target_accepts_only_default_or_active_window() {
    assert!(TargetSelector::empty().only_default_or_active_window());
    assert!(TargetSelector {
        window: Some(WindowSelector::Active),
        ..TargetSelector::empty()
    }
    .only_default_or_active_window());
    assert!(!TargetSelector {
        window: Some(WindowSelector::Index(0)),
        ..TargetSelector::empty()
    }
    .only_default_or_active_window());
}

#[test]
fn error_codes_are_stable_snake_case() {
    assert_eq!(ErrorCode::ExecutionContextNotAllowed.as_str(), "execution_context_not_allowed");
    assert_eq!(ErrorCode::LocalControlDisabled.as_str(), "local_control_disabled");
    assert_eq!(ErrorCode::NoInstance.as_str(), "no_instance");
}

#[test]
fn request_envelope_serializes_protocol_shape() {
    let request = RequestEnvelope::new("req-1".to_owned(), ControlActionKind::TabCreate);
    assert_eq!(request.protocol_version, PROTOCOL_VERSION);
    assert_eq!(request.action.name(), "tab.create");
    assert_eq!(request.request_id, "req-1");
    assert!(request.params_are_empty);
    assert!(request.target.only_default_or_active_window());
}

#[test]
fn names_are_dotted_and_snake_case() {
    assert_eq!(ControlActionKind::DriveObjectCreate.name(), "drive.object.create");
    assert_eq!(ControlActionKind::InstanceList.name(), "instance.list");
    assert_eq!(PermissionCategory::MutateAppState.as_str(), "mutate_app_state");
    assert_eq!(PermissionCategory::ReadUnderlyingData.as_str(), "read_underlying_data");
}

#[test]
fn outside_warp_credential_request_is_named_after_its_action() {
    let request = CredentialRequest::outside_warp(ControlActionKind::AppVersion);
    assert_eq!(request.request_id, "app.version");
    assert_eq!(request.invocation_context, InvocationContext::OutsideWarp);
    assert_eq!(request.proof, ExecutionContextProof::NoProof);
    assert_eq!(request.protocol_version, PROTOCOL_VERSION);
}

#[test]
fn credential_response_carries_either_credential_or_error() {
    let credential = ScopedCredential {
        token: "t".to_owned(),
        action: ControlActionKind::AppPing,
        permission: PermissionCategory::ReadMetadata,
        invocation_context: InvocationContext::OutsideWarp,
        expires_at_unix_ms: 10,
        requires_authenticated_user: false,
    };
    let ok = CredentialResponse::from_outcome("r".to_owned(), Ok(credential.duplicate()));
    assert_eq!(ok.credential, Some(credential));
    assert_eq!(ok.error, None);
    let error = ControlError::new(ErrorCode::LocalControlDisabled, "off");
    let refused = CredentialResponse::from_outcome("r".to_owned(), Err(error.clone()));
    assert_eq!(refused.credential, None);
    assert_eq!(refused.error, Some(error));
    assert_eq!(refused.request_id, "r");
}

#[test]
fn response_envelopes_are_ok_or_error() {
    let ok = ResponseEnvelope::ok(
        "r".to_owned(),
        None,
        ActionResult::Actions { actions: vec!["app.ping".to_owned()] },
    );
    assert!(ok.ok);
    assert!(ok.error.is_none());
    let failed = ResponseEnvelope::error("r".to_owned(), ErrorCode::MissingTarget, "m".to_owned());
    assert!(!failed.ok);
    assert!(failed.result.is_none());
    let body = failed.error.unwrap();
    assert_eq!(body.code, ErrorCode::MissingTarget);
    assert_eq!(body.message, "m");
    assert_eq!(body.details, None);
}

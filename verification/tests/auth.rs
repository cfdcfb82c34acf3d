use local_control::auth::{millis_since_epoch, now_unix_ms, CredentialIssuer, PermissionGrant};
use local_control::protocol::{
    ControlActionKind, CredentialRequest, ErrorCode, ExecutionContextProof, InvocationContext,
    PermissionCategory, ScopedCredential, PROTOCOL_VERSION,
};

fn grant_all() -> PermissionGrant {
    PermissionGrant {
        metadata_read: true,
        underlying_data_read: true,
        app_state_mutation: true,
        metadata_configuration_mutation: true,
        underlying_data_mutation: true,
    }
}

#[test]
fn rejects_inside_warp_credential_request() {
    let mut issuer = CredentialIssuer::new(true, grant_all());
    let request = CredentialRequest {
        protocol_version: PROTOCOL_VERSION,
        request_id: "r".to_owned(),
        action: ControlActionKind::AppPing,
        invocation_context: InvocationContext::InsideWarp,
        proof: ExecutionContextProof::VerifiedWarpTerminal {
            handle: "reserved".to_owned(),
        },
    };
    let error = issuer.issue(&request).unwrap_err();
    assert_eq!(error.code, ErrorCode::ExecutionContextNotAllowed);
}

#[test]
fn disabled_outside_warp_control_rejects_credentials() {
    let mut issuer = CredentialIssuer::new(false, grant_all());
    let error = issuer
        .issue(&CredentialRequest::outside_warp(ControlActionKind::AppPing))
        .unwrap_err();
    assert_eq!(error.code, ErrorCode::LocalControlDisabled);
}

#[test]
fn disabled_granular_permission_rejects_credentials() {
    let mut issuer = CredentialIssuer::new(true, PermissionGrant::default());
    let error = issuer
        .issue(&CredentialRequest::outside_warp(ControlActionKind::TabCreate))
        .unwrap_err();
    assert_eq!(error.code, ErrorCode::InsufficientPermissions);
}

#[test]
fn verifies_valid_and_wrong_action_credentials() {
    let mut issuer = CredentialIssuer::new(true, grant_all());
    let credential = issuer
        .issue(&CredentialRequest::outside_warp(ControlActionKind::TabCreate))
        .unwrap();
    assert!(issuer
        .verify(
            &credential.token,
            &ControlActionKind::TabCreate,
            &PermissionCategory::MutateAppState,
        )
        .is_ok());
    let error = issuer
        .verify(
            &credential.token,
            &ControlActionKind::AppPing,
            &PermissionCategory::ReadMetadata,
        )
        .unwrap_err();
    assert_eq!(error.code, ErrorCode::InsufficientPermissions);
}

#[test]
fn rejects_expired_credentials() {
    let mut issuer = CredentialIssuer::new(true, grant_all());
    issuer.insert_for_tests(ScopedCredential {
        token: "expired".to_owned(),
        action: ControlActionKind::AppPing,
        permission: PermissionCategory::ReadMetadata,
        invocation_context: InvocationContext::OutsideWarp,
        expires_at_unix_ms: 1,
        requires_authenticated_user: false,
    });
    let error = issuer
        .verify(
            "expired",
            &ControlActionKind::AppPing,
            &PermissionCategory::ReadMetadata,
        )
        .unwrap_err();
    assert_eq!(error.code, ErrorCode::UnauthorizedLocalClient);
}

#[test]
fn issued_credential_is_scoped_and_expires_one_minute_later() {
    let mut issuer = CredentialIssuer::new(true, grant_all());
    let request = CredentialRequest::outside_warp(ControlActionKind::AppPing);
    let before = now_unix_ms();
    let issued = issuer.issue_at(&request, 1_000, "token-1".to_owned()).unwrap();
    assert_eq!(issued.token, "token-1");
    assert_eq!(issued.action, ControlActionKind::AppPing);
    assert_eq!(issued.permission, PermissionCategory::ReadMetadata);
    assert_eq!(issued.expires_at_unix_ms, 61_000);
    assert!(!issued.requires_authenticated_user);
    let verified = issuer
        .verify_at("token-1", &ControlActionKind::AppPing, &PermissionCategory::ReadMetadata, 60_999)
        .unwrap();
    assert_eq!(verified, issued);
    let expired = issuer
        .verify_at("token-1", &ControlActionKind::AppPing, &PermissionCategory::ReadMetadata, 61_000)
        .unwrap_err();
    assert_eq!(expired.code, ErrorCode::UnauthorizedLocalClient);
    assert_eq!(expired.message, "local-control credential has expired");
    let unknown = issuer
        .verify_at("other", &ControlActionKind::AppPing, &PermissionCategory::ReadMetadata, 0)
        .unwrap_err();
    assert_eq!(unknown.message, "missing or unknown local-control credential");
    let wrong_category = issuer
        .verify_at("token-1", &ControlActionKind::AppPing, &PermissionCategory::MutateAppState, 0)
        .unwrap_err();
    assert_eq!(wrong_category.code, ErrorCode::InsufficientPermissions);
    assert_eq!(
        wrong_category.message,
        "local-control credential lacks the required permission category"
    );
    assert!(now_unix_ms() >= before);
    assert!(before > 1_600_000_000_000);
}

#[test]
fn random_tokens_are_hyphenated_uuids_and_differ() {
    let mut issuer = CredentialIssuer::new(true, grant_all());
    let first = issuer
        .issue(&CredentialRequest::outside_warp(ControlActionKind::AppPing))
        .unwrap();
    let second = issuer
        .issue(&CredentialRequest::outside_warp(ControlActionKind::AppPing))
        .unwrap();
    assert_eq!(first.token.len(), 36);
    assert_eq!(first.token.chars().nth(8), Some('-'));
    assert_ne!(first.token, second.token);
    assert!(issuer
        .verify(&first.token, &ControlActionKind::AppPing, &PermissionCategory::ReadMetadata)
        .is_ok());
}

#[test]
fn authenticated_user_actions_are_not_granted() {
    let mut issuer = CredentialIssuer::new(true, grant_all());
    let error = issuer
        .issue(&CredentialRequest::outside_warp(ControlActionKind::InputRun))
        .unwrap_err();
    assert_eq!(error.code, ErrorCode::ExecutionContextNotAllowed);
    let mut proof_request = CredentialRequest::outside_warp(ControlActionKind::AppPing);
    proof_request.proof = ExecutionContextProof::VerifiedWarpTerminal { handle: "h".to_owned() };
    assert_eq!(
        issuer.issue(&proof_request).unwrap_err().code,
        ErrorCode::ExecutionContextNotAllowed
    );
}

#[test]
fn policy_changes_keep_issued_credentials_but_gate_new_ones() {
    let mut issuer = CredentialIssuer::new(true, grant_all());
    issuer
        .issue_at(&CredentialRequest::outside_warp(ControlActionKind::AppPing), 0, "kept".to_owned())
        .unwrap();
    issuer.set_policy(false, grant_all());
    assert!(!issuer.outside_warp_enabled());
    assert!(issuer
        .verify_at("kept", &ControlActionKind::AppPing, &PermissionCategory::ReadMetadata, 1)
        .is_ok());
    assert_eq!(
        issuer
            .issue_at(&CredentialRequest::outside_warp(ControlActionKind::AppPing), 0, "new".to_owned())
            .unwrap_err()
            .code,
        ErrorCode::LocalControlDisabled
    );
}

#[test]
fn grants_allow_only_their_categories() {
    let grant = PermissionGrant { app_state_mutation: true, ..PermissionGrant::default() };
    assert!(grant.allows(&PermissionCategory::MutateAppState));
    assert!(!grant.allows(&PermissionCategory::ReadMetadata));
    assert!(!PermissionGrant::default().allows(&PermissionCategory::MutateUnderlyingData));
}

#[test]
fn clock_readings_become_whole_milliseconds() {
    assert_eq!(millis_since_epoch(Some((2, 5_999_999))), 2005);
    assert_eq!(millis_since_epoch(Some((0, 999_999_999))), 999);
    assert_eq!(millis_since_epoch(None), 0);
    assert_eq!(millis_since_epoch(Some((u64::MAX, 0))), u64::MAX - 999);
}

fn ping_credential(token: &str, expires_at_unix_ms: u64) -> ScopedCredential {
    ScopedCredential {
        token: token.to_owned(),
        action: ControlActionKind::AppPing,
        permission: PermissionCategory::ReadMetadata,
        invocation_context: InvocationContext::OutsideWarp,
        expires_at_unix_ms,
        requires_authenticated_user: false,
    }
}

#[test]
fn pruning_drops_exactly_the_expired_credentials() {
    let mut issuer = CredentialIssuer::new(true, grant_all());
    issuer.insert_for_tests(ping_credential("old", 100));
    issuer.insert_for_tests(ping_credential("fresh", 200));
    issuer.insert_for_tests(ping_credential("renewed", 50));
    issuer.insert_for_tests(ping_credential("renewed", 300));
    issuer.prune_expired(150);
    let read = PermissionCategory::ReadMetadata;
    let gone = issuer.verify_at("old", &ControlActionKind::AppPing, &read, 0).unwrap_err();
    assert_eq!(gone.code, ErrorCode::UnauthorizedLocalClient);
    assert_eq!(gone.message, "missing or unknown local-control credential");
    assert_eq!(
        issuer.verify_at("fresh", &ControlActionKind::AppPing, &read, 0).unwrap().expires_at_unix_ms,
        200
    );
    assert_eq!(
        issuer.verify_at("renewed", &ControlActionKind::AppPing, &read, 0).unwrap().expires_at_unix_ms,
        300
    );
    issuer.prune_expired(200);
    assert!(issuer.verify_at("fresh", &ControlActionKind::AppPing, &read, 0).is_err());
}

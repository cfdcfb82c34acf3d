use local_control::auth::{CredentialIssuer, PermissionGrant};
use local_control::permissions::{
    ensure_outside_warp_enabled, issue_credential, verify_request, verify_request_at,
};
use local_control::protocol::{ControlActionKind, ErrorCode, InvocationContext};
use local_control::settings::LocalControlSettings;

fn issuer() -> CredentialIssuer {
    CredentialIssuer::new(false, PermissionGrant::default())
}

#[test]
fn disabled_outside_warp_denies_credentials() {
    let settings = LocalControlSettings::default();
    assert_eq!(
        issue_credential(
            &settings,
            &mut issuer(),
            ControlActionKind::AppPing,
            InvocationContext::OutsideWarp,
        )
        .unwrap_err(),
        ErrorCode::LocalControlDisabled
    );
    assert_eq!(ensure_outside_warp_enabled(&settings), Err(ErrorCode::LocalControlDisabled));
}

#[test]
fn inside_warp_context_is_denied() {
    let settings = LocalControlSettings {
        outside_warp_control_enabled: true,
        outside_warp_metadata_reads_enabled: true,
        ..LocalControlSettings::default()
    };
    assert_eq!(
        issue_credential(
            &settings,
            &mut issuer(),
            ControlActionKind::AppPing,
            InvocationContext::InsideWarp,
        )
        .unwrap_err(),
        ErrorCode::ExecutionContextNotAllowed
    );
}

#[test]
fn enabled_category_issues_a_credential_that_verifies() {
    let settings = LocalControlSettings {
        outside_warp_control_enabled: true,
        outside_warp_metadata_reads_enabled: true,
        ..LocalControlSettings::default()
    };
    let mut issuer = issuer();
    let credential = issue_credential(
        &settings,
        &mut issuer,
        ControlActionKind::AppPing,
        InvocationContext::OutsideWarp,
    )
    .unwrap();
    assert_eq!(credential.action, ControlActionKind::AppPing);
    assert!(issuer.outside_warp_enabled());
    assert_eq!(
        verify_request(&settings, &issuer, &credential.token, ControlActionKind::AppPing),
        Ok(())
    );
    assert_eq!(
        verify_request(&settings, &issuer, &credential.token, ControlActionKind::AppVersion),
        Err(ErrorCode::InsufficientPermissions)
    );
    assert_eq!(
        verify_request_at(&settings, &issuer, "unknown", ControlActionKind::AppPing, 0),
        Err(ErrorCode::UnauthorizedLocalClient)
    );
    let off = LocalControlSettings::default();
    assert_eq!(
        verify_request(&off, &issuer, &credential.token, ControlActionKind::AppPing),
        Err(ErrorCode::LocalControlDisabled)
    );
    let reads_off = LocalControlSettings {
        outside_warp_control_enabled: true,
        ..LocalControlSettings::default()
    };
    assert_eq!(
        verify_request(&reads_off, &issuer, &credential.token, ControlActionKind::AppPing),
        Err(ErrorCode::InsufficientPermissions)
    );
}

#[test]
fn disabled_category_and_inside_only_actions_are_refused() {
    let settings = LocalControlSettings {
        outside_warp_control_enabled: true,
        ..LocalControlSettings::default()
    };
    assert_eq!(
        issue_credential(
            &settings,
            &mut issuer(),
            ControlActionKind::TabCreate,
            InvocationContext::OutsideWarp,
        ),
        Err(ErrorCode::InsufficientPermissions)
    );
    assert_eq!(
        issue_credential(
            &settings,
            &mut issuer(),
            ControlActionKind::InputRun,
            InvocationContext::OutsideWarp,
        ),
        Err(ErrorCode::ExecutionContextNotAllowed)
    );
}

#[test]
fn settings_credentials_last_thirty_seconds() {
    let settings = LocalControlSettings {
        outside_warp_control_enabled: true,
        outside_warp_metadata_reads_enabled: true,
        ..LocalControlSettings::default()
    };
    let before = local_control::auth::now_unix_ms();
    let credential = issue_credential(
        &settings,
        &mut issuer(),
        ControlActionKind::AppPing,
        InvocationContext::OutsideWarp,
    )
    .unwrap();
    let after = local_control::auth::now_unix_ms();
    assert!(credential.expires_at_unix_ms >= before + 30_000);
    assert!(credential.expires_at_unix_ms <= after + 30_000);
}

use vstd::prelude::*;

use crate::auth::{expiry, verify_denial, CredentialIssuer};
use crate::catalog::{
    action_allowed_contexts, action_metadata, action_permission, action_requires_authenticated_user,
};
use crate::protocol::{
    ControlActionKind, CredentialRequest, ErrorCode, InvocationContext, ScopedCredential,
};
use crate::settings::{permission_enabled, LocalControlSettings};

verus! {

/// The top-level Scripting gate: `LocalControlDisabled` unless outside-Warp control is on.
pub fn ensure_outside_warp_enabled(settings: &LocalControlSettings) -> (result: Result<(), ErrorCode>)
    ensures
        result is Ok <==> settings.outside_warp_control_enabled,
        result is Err ==> result == Err::<(), ErrorCode>(ErrorCode::LocalControlDisabled),
{
    if settings.outside_warp_control_enabled {
        Ok(())
    } else {
        Err(ErrorCode::LocalControlDisabled)
    }
}

/// Why the settings refuse a credential for `action` asked from `context`, if they do,
/// checked in order: the inside-Warp context, the top-level gate, the action's allowed
/// contexts, the action's permission category.
pub open spec fn credential_refusal(
    settings: LocalControlSettings,
    action: ControlActionKind,
    context: InvocationContext,
) -> Option<ErrorCode> {
    if context == InvocationContext::InsideWarp {
        Some(ErrorCode::ExecutionContextNotAllowed)
    } else if !settings.outside_warp_control_enabled {
        Some(ErrorCode::LocalControlDisabled)
    } else if !action_allowed_contexts(action).contains(context) {
        Some(ErrorCode::ExecutionContextNotAllowed)
    } else if !permission_enabled(settings, action_permission(action)) {
        Some(ErrorCode::InsufficientPermissions)
    } else {
        None
    }
}

fn allowed_from(action: &ControlActionKind, context: InvocationContext) -> (allowed: bool)
    ensures
        allowed == action_allowed_contexts(*action).contains(context),
{
    let metadata = action_metadata(action);
    let mut i: usize = 0;
    while i < metadata.allowed_invocation_contexts.len()
        invariant
            0 <= i <= metadata.allowed_invocation_contexts@.len(),
            metadata.allowed_invocation_contexts@ == action_allowed_contexts(*action),
            forall|j: int| 0 <= j < i ==> metadata.allowed_invocation_contexts@[j] != context,
        decreases metadata.allowed_invocation_contexts@.len() - i,
    {
        if metadata.allowed_invocation_contexts[i] == context {
            return true;
        }
        i = i + 1;
    }
    false
}

/// How long a credential issued through the Scripting settings stays valid: thirty seconds.
pub const SETTINGS_CREDENTIAL_LIFETIME_MS: u64 = 30_000;

/// Issues a credential for `action` to a client in `context` under `settings`, valid for
/// thirty seconds. The
/// settings' refusal comes first and leaves `issuer` untouched; otherwise the issuer takes
/// the settings as its policy and mints the credential, unless the action needs an
/// authenticated user, which this slice cannot grant.
pub fn issue_credential(
    settings: &LocalControlSettings,
    issuer: &mut CredentialIssuer,
    action: ControlActionKind,
    context: InvocationContext,
) -> (result: Result<ScopedCredential, ErrorCode>)
    ensures
        match credential_refusal(*settings, action, context) {
            Some(code) => {
                &&& result == Err::<ScopedCredential, ErrorCode>(code)
                &&& final(issuer)@ == old(issuer)@
            },
            None => {
                &&& final(issuer)@.outside_warp_enabled == settings.outside_warp_control_enabled
                &&& final(issuer)@.lifetime_ms == old(issuer)@.lifetime_ms
                &&& if action_requires_authenticated_user(action) {
                    &&& result == Err::<ScopedCredential, ErrorCode>(ErrorCode::AuthenticatedUserRequired)
                    &&& final(issuer)@.credentials == old(issuer)@.credentials
                } else {
                    &&& result matches Ok(credential)
                    &&& credential.action == action
                    &&& credential.permission == action_permission(action)
                    &&& credential.invocation_context == context
                    &&& !credential.requires_authenticated_user
                    &&& exists|now_ms: u64| credential.expires_at_unix_ms == #[trigger] expiry(now_ms, 30_000)
                    &&& final(issuer)@.credentials == old(issuer)@.credentials.insert(credential.token@, credential)
                }
            },
        },
{
    if context == InvocationContext::InsideWarp {
        return Err(ErrorCode::ExecutionContextNotAllowed);
    }
    match ensure_outside_warp_enabled(settings) {
        Err(code) => {
            return Err(code);
        },
        Ok(()) => {},
    }
    if !allowed_from(&action, context) {
        return Err(ErrorCode::ExecutionContextNotAllowed);
    }
    if !settings.outside_warp_permission_enabled(action_metadata(&action).permission) {
        return Err(ErrorCode::InsufficientPermissions);
    }
    let permissions = settings.outside_warp_permissions();
    issuer.set_policy(settings.outside_warp_enabled(), permissions);
    let request = CredentialRequest::outside_warp(action);
    match issuer.issue_for(&request, SETTINGS_CREDENTIAL_LIFETIME_MS) {
        Ok(credential) => Ok(credential),
        Err(error) => Err(error.code),
    }
}

/// Why a control request presented with `token` for `action` at `now_ms` is refused, if it
/// is, checked in order: the top-level gate, the credential, the action's category.
pub open spec fn request_refusal(
    settings: LocalControlSettings,
    credentials: Map<Seq<char>, ScopedCredential>,
    token: Seq<char>,
    action: ControlActionKind,
    now_ms: u64,
) -> Option<ErrorCode> {
    if !settings.outside_warp_control_enabled {
        Some(ErrorCode::LocalControlDisabled)
    } else {
        match verify_denial(credentials, token, action, action_permission(action), now_ms) {
            Some(denial) => Some(denial.0),
            None => if !permission_enabled(settings, action_permission(action)) {
                Some(ErrorCode::InsufficientPermissions)
            } else {
                None
            },
        }
    }
}

/// Checks a control request for `action` presented with `token` at `now_ms` under the
/// current settings.
pub fn verify_request_at(
    settings: &LocalControlSettings,
    issuer: &CredentialIssuer,
    token: &str,
    action: ControlActionKind,
    now_ms: u64,
) -> (result: Result<(), ErrorCode>)
    ensures
        match request_refusal(*settings, issuer@.credentials, token@, action, now_ms) {
            Some(code) => result == Err::<(), ErrorCode>(code),
            None => result is Ok,
        },
{
    match ensure_outside_warp_enabled(settings) {
        Err(code) => {
            return Err(code);
        },
        Ok(()) => {},
    }
    let permission = action_metadata(&action).permission;
    match issuer.verify_at(token, &action, &permission, now_ms) {
        Err(error) => {
            return Err(error.code);
        },
        Ok(_) => {},
    }
    if !settings.outside_warp_permission_enabled(permission) {
        return Err(ErrorCode::InsufficientPermissions);
    }
    Ok(())
}

/// Checks a control request against the current wall-clock time.
pub fn verify_request(
    settings: &LocalControlSettings,
    issuer: &CredentialIssuer,
    token: &str,
    action: ControlActionKind,
) -> (result: Result<(), ErrorCode>)
    ensures
        exists|now_ms: u64|
            #![trigger request_refusal(*settings, issuer@.credentials, token@, action, now_ms)]
            match request_refusal(*settings, issuer@.credentials, token@, action, now_ms) {
                Some(code) => result == Err::<(), ErrorCode>(code),
                None => result is Ok,
            },
{
    let now_ms = crate::auth::now_unix_ms();
    verify_request_at(settings, issuer, token, action, now_ms)
}

/// With outside-Warp control off, no credential is issued and no request is served.
pub proof fn lemma_disabled_gate_refuses_credentials_and_requests(
    settings: LocalControlSettings,
    action: ControlActionKind,
    context: InvocationContext,
    credentials: Map<Seq<char>, ScopedCredential>,
    token: Seq<char>,
    now_ms: u64,
)
    requires
        !settings.outside_warp_control_enabled,
    ensures
        credential_refusal(settings, action, context) is Some,
        request_refusal(settings, credentials, token, action, now_ms) == Some(ErrorCode::LocalControlDisabled),
{
}

} // verus!

use vstd::prelude::*;

use crate::auth::{
    error_is, issue_denial, is_minted, now_unix_ms, unexpired, verify_denial, CredentialIssuer,
    IssuerView,
};
use crate::catalog::{action_permission, implemented_action_kinds, implemented_actions};
use crate::discovery::{string_views, DiscoveryRecord};
use crate::protocol::{
    action_name, is_error_response, targets_only_default_or_active_window, ActionResult,
    ControlActionKind, ControlError, CredentialRequest, CredentialResponse, ErrorCode,
    InvocationContext, RequestEnvelope, ResponseEnvelope, ScopedCredential, TargetSelector,
    PROTOCOL_VERSION,
};
use crate::settings::{permission_enabled, LocalControlSettings};

verus! {

/// The names of the implemented actions, in catalog order.
pub open spec fn implemented_action_names() -> Seq<Seq<char>> {
    implemented_action_kinds().map_values(|action: ControlActionKind| action_name(action))
}

/// The names of the actions that the running app implements, as published in its
/// discovery record and returned by `instance.list`.
pub fn enabled_implemented_actions() -> (names: Vec<String>)
    ensures
        string_views(names@) == implemented_action_names(),
{
    let metadata = implemented_actions();
    let mut names: Vec<String> = Vec::new();
    let mut i: usize = 0;
    while i < metadata.len()
        invariant
            0 <= i <= metadata@.len(),
            metadata@.len() == implemented_action_kinds().len(),
            forall|j: int|
                0 <= j < metadata@.len() ==> (#[trigger] metadata@[j]).action == implemented_action_kinds()[j],
            string_views(names@) == implemented_action_names().take(i as int),
        decreases metadata@.len() - i,
    {
        let name = metadata[i].action.name().to_owned();
        let ghost before = names@;
        names.push(name);
        assert(string_views(names@) =~= string_views(before).push(name@));
        assert(implemented_action_names().take(i + 1) =~= implemented_action_names().take(i as int).push(
            implemented_action_names()[i as int],
        ));
        i = i + 1;
    }
    assert(implemented_action_names().take(metadata@.len() as int) =~= implemented_action_names());
    names
}

/// What the app must do for a request that passed every check.
#[derive(Clone, Debug, PartialEq, Eq)]
pub enum BridgeDispatch {
    Ping,
    Version,
    TabCreate,
    ListActions(Vec<String>),
}

/// Why a `tab.create` request is refused before it reaches the workspace, if it is.
pub open spec fn tab_create_denial(params_are_empty: bool, target: TargetSelector) -> Option<
    (ErrorCode, Seq<char>),
> {
    if !params_are_empty {
        Some((ErrorCode::InvalidParams, "tab.create does not accept params in the foundation slice"@))
    } else if !targets_only_default_or_active_window(target) {
        Some((ErrorCode::InvalidSelector,
            "tab.create accepts only the default target or the active window"@))
    } else {
        None
    }
}

/// Checks a `tab.create` request: no parameters, and at most the active window as target.
pub fn validate_tab_create_request(params_are_empty: bool, target: &TargetSelector) -> (result: Result<
    (),
    ControlError,
>)
    ensures
        match tab_create_denial(params_are_empty, *target) {
            Some(denial) => result matches Err(error) && error_is(error, denial),
            None => result is Ok,
        },
{
    if !params_are_empty {
        return Err(ControlError::new(
            ErrorCode::InvalidParams,
            "tab.create does not accept params in the foundation slice",
        ));
    }
    match crate::resolver::validate_tab_create_target(target) {
        Ok(()) => Ok(()),
        Err(_) => Err(ControlError::new(
            ErrorCode::InvalidSelector,
            "tab.create accepts only the default target or the active window",
        )),
    }
}

/// Why the current settings refuse a verified request for an action of category `action`,
/// if they do: disabling outside-Warp control, or a category, revokes credentials already
/// issued for it.
pub open spec fn policy_denial(settings: LocalControlSettings, action: ControlActionKind) -> Option<
    (ErrorCode, Seq<char>),
> {
    if !settings.outside_warp_control_enabled {
        Some((ErrorCode::LocalControlDisabled, "outside-Warp local control is disabled"@))
    } else if !permission_enabled(settings, action_permission(action)) {
        Some((ErrorCode::InsufficientPermissions,
            "outside-Warp local control permission is disabled for this action category"@))
    } else {
        None
    }
}

/// Why the bridge refuses a control request presented with `token` at `now_ms`, if it does,
/// in the order checked: a missing credential, the credential check, the current policy,
/// then the action's own handler.
pub open spec fn request_denial(
    credentials: Map<Seq<char>, ScopedCredential>,
    settings: LocalControlSettings,
    token: Option<Seq<char>>,
    request: RequestEnvelope,
    now_ms: u64,
) -> Option<(ErrorCode, Seq<char>)> {
    match token {
        None => Some((ErrorCode::UnauthorizedLocalClient, "missing bearer credential"@)),
        Some(token) => match verify_denial(
            credentials,
            token,
            request.action,
            action_permission(request.action),
            now_ms,
        ) {
            Some(denial) => Some(denial),
            None => match policy_denial(settings, request.action) {
                Some(denial) => Some(denial),
                None => match request.action {
                    ControlActionKind::TabCreate => tab_create_denial(request.params_are_empty, request.target),
                    ControlActionKind::AppPing | ControlActionKind::AppVersion
                    | ControlActionKind::InstanceList => None,
                    _ => Some((ErrorCode::UnsupportedAction,
                        "action is planned but not implemented in the foundation slice"@)),
                },
            },
        },
    }
}

/// The handler a request that passed every check is dispatched to.
pub open spec fn dispatch_matches(dispatch: BridgeDispatch, action: ControlActionKind) -> bool {
    match action {
        ControlActionKind::AppPing => dispatch == BridgeDispatch::Ping,
        ControlActionKind::AppVersion => dispatch == BridgeDispatch::Version,
        ControlActionKind::TabCreate => dispatch == BridgeDispatch::TabCreate,
        ControlActionKind::InstanceList => dispatch matches BridgeDispatch::ListActions(names)
            && string_views(names@) == implemented_action_names(),
        _ => false,
    }
}

pub open spec fn option_string_view(value: Option<String>) -> Option<Seq<char>> {
    match value {
        Some(s) => Some(s@),
        None => None,
    }
}

/// The issuer state after the bridge has refreshed its policy from `settings`.
pub open spec fn refreshed(issuer: IssuerView, settings: LocalControlSettings) -> IssuerView {
    IssuerView {
        outside_warp_enabled: settings.outside_warp_control_enabled,
        permissions: crate::auth::PermissionGrant {
            metadata_read: settings.outside_warp_metadata_reads_enabled,
            underlying_data_read: settings.outside_warp_underlying_data_reads_enabled,
            app_state_mutation: settings.outside_warp_app_state_mutations_enabled,
            metadata_configuration_mutation: settings.outside_warp_metadata_mutations_enabled,
            underlying_data_mutation: settings.outside_warp_underlying_data_mutations_enabled,
        },
        ..issuer
    }
}

/// The issuer state after a control request at `now_ms`: the policy refreshed from
/// `settings` and every credential expired at `now_ms` dropped.
pub open spec fn pruned(issuer: IssuerView, settings: LocalControlSettings, now_ms: u64) -> IssuerView {
    IssuerView { credentials: unexpired(issuer.credentials, now_ms), ..refreshed(issuer, settings) }
}

/// Why the credentials endpoint refuses a request before the issuer sees it, if it does: a
/// protocol version it does not speak, a missing or wrong broker token, or a context other
/// than outside Warp.
pub open spec fn credential_gate_denial(
    presented_broker_token: Option<Seq<char>>,
    broker_token: Seq<char>,
    request: CredentialRequest,
) -> Option<(ErrorCode, Seq<char>)> {
    if request.protocol_version != PROTOCOL_VERSION {
        Some((ErrorCode::UnsupportedAction, "unsupported local-control protocol version"@))
    } else if presented_broker_token != Some(broker_token) {
        Some((ErrorCode::UnauthorizedLocalClient, "missing or invalid local-control broker token"@))
    } else if request.invocation_context != InvocationContext::OutsideWarp {
        Some((ErrorCode::ExecutionContextNotAllowed,
            "inside-Warp credential requests are reserved for future verified terminal proof support"@))
    } else {
        None
    }
}

/// Checks a credential request against the endpoint's own gate.
fn check_credential_gate(
    presented_broker_token: &Option<String>,
    broker_token: &str,
    request: &CredentialRequest,
) -> (result: Result<(), ControlError>)
    ensures
        match credential_gate_denial(option_string_view(*presented_broker_token), broker_token@, *request) {
            Some(denial) => result matches Err(error) && error_is(error, denial),
            None => result is Ok,
        },
{
    if request.protocol_version != PROTOCOL_VERSION {
        return Err(ControlError::new(
            ErrorCode::UnsupportedAction,
            "unsupported local-control protocol version",
        ));
    }
    let expected = broker_token.to_owned();
    let matches = match presented_broker_token {
        Some(presented) => *presented == expected,
        None => false,
    };
    if !matches {
        return Err(ControlError::new(
            ErrorCode::UnauthorizedLocalClient,
            "missing or invalid local-control broker token",
        ));
    }
    if request.invocation_context != InvocationContext::OutsideWarp {
        return Err(ControlError::new(
            ErrorCode::ExecutionContextNotAllowed,
            "inside-Warp credential requests are reserved for future verified terminal proof support",
        ));
    }
    Ok(())
}

/// The failed answer to `request` for `error`: the request's id, the error's code and
/// message, and no details.
pub fn refusal_response(request: &RequestEnvelope, error: ControlError) -> (response: ResponseEnvelope)
    ensures
        is_error_response(response, request.request_id@, error.code, error.message@),
{
    ResponseEnvelope::error(request.request_id.clone(), error.code, error.message)
}

/// The app-side end of the local-control protocol: it issues credentials under the current
/// Scripting settings and checks every control request before dispatching it.
pub struct LocalControlBridge {
    credential_issuer: CredentialIssuer,
}

impl View for LocalControlBridge {
    type V = IssuerView;

    closed spec fn view(&self) -> IssuerView {
        self.credential_issuer@
    }
}

impl LocalControlBridge {
    pub fn new(credential_issuer: CredentialIssuer) -> (bridge: LocalControlBridge)
        ensures
            bridge@ == credential_issuer@,
    {
        LocalControlBridge { credential_issuer }
    }

    fn refresh_policy(&mut self, settings: &LocalControlSettings)
        ensures
            final(self)@ == refreshed(old(self)@, *settings),
    {
        let permissions = settings.outside_warp_permissions();
        self.credential_issuer.set_policy(settings.outside_warp_enabled(), permissions);
    }

    /// Issues a credential for `request` under the current settings.
    pub fn issue_credential(&mut self, request: CredentialRequest, settings: &LocalControlSettings) -> (
        response: CredentialResponse)
        ensures
            response.protocol_version == PROTOCOL_VERSION,
            response.request_id == request.request_id,
            final(self)@.outside_warp_enabled == settings.outside_warp_control_enabled,
            final(self)@.permissions == refreshed(old(self)@, *settings).permissions,
            final(self)@.lifetime_ms == old(self)@.lifetime_ms,
            match issue_denial(settings.outside_warp_control_enabled, refreshed(old(self)@, *settings).permissions, request) {
                Some(denial) => {
                    &&& response.credential is None
                    &&& response.error matches Some(error) && error_is(error, denial)
                    &&& final(self)@.credentials == old(self)@.credentials
                },
                None => {
                    &&& response.error is None
                    &&& response.credential matches Some(credential)
                    &&& exists|now_ms: u64| is_minted(credential, request, credential.token@, now_ms, old(self)@.lifetime_ms)
                    &&& final(self)@.credentials == old(self)@.credentials.insert(credential.token@, credential)
                },
            },
    {
        self.refresh_policy(settings);
        let outcome = self.credential_issuer.issue(&request);
        CredentialResponse::from_outcome(request.request_id, outcome)
    }

    /// The `/v1/control/credentials` endpoint: checks the protocol version, the broker token
    /// and the invocation context, then issues a credential under the current settings.
    pub fn credentials_endpoint(
        &mut self,
        presented_broker_token: Option<String>,
        broker_token: &str,
        request: &CredentialRequest,
        settings: &LocalControlSettings,
    ) -> (result: Result<ScopedCredential, ControlError>)
        ensures
            match credential_gate_denial(option_string_view(presented_broker_token), broker_token@, *request) {
                Some(denial) => {
                    &&& result matches Err(error) && error_is(error, denial)
                    &&& final(self)@ == old(self)@
                },
                None => {
                    &&& final(self)@.outside_warp_enabled == settings.outside_warp_control_enabled
                    &&& final(self)@.permissions == refreshed(old(self)@, *settings).permissions
                    &&& old(self)@.lifetime_ms == 60_000
                    &&& final(self)@.lifetime_ms == old(self)@.lifetime_ms
                    &&& match issue_denial(settings.outside_warp_control_enabled, refreshed(old(self)@, *settings).permissions, *request) {
                        Some(denial) => {
                            &&& result matches Err(error) && error_is(error, denial)
                            &&& final(self)@.credentials == old(self)@.credentials
                        },
                        None => {
                            &&& result matches Ok(credential)
                            &&& exists|now_ms: u64| is_minted(credential, *request, credential.token@, now_ms, old(self)@.lifetime_ms)
                            &&& final(self)@.credentials == old(self)@.credentials.insert(credential.token@, credential)
                        },
                    }
                },
            },
    {
        match check_credential_gate(&presented_broker_token, broker_token, request) {
            Err(error) => return Err(error),
            Ok(()) => {},
        }
        self.refresh_policy(settings);
        self.credential_issuer.issue(request)
    }

    /// The credentials endpoint's reply envelope. Its request id is the action's name. When
    /// the endpoint's own checks refuse, the envelope holds their code and message; when the
    /// issuer refuses, it holds the issuer's code and the message "credential request denied";
    /// otherwise the new credential is the result.
    pub fn credentials_response(
        &mut self,
        presented_broker_token: Option<String>,
        broker_token: &str,
        request: &CredentialRequest,
        settings: &LocalControlSettings,
    ) -> (response: ResponseEnvelope)
        ensures
            response.protocol_version == PROTOCOL_VERSION,
            response.request_id@ == action_name(request.action),
            match credential_gate_denial(option_string_view(presented_broker_token), broker_token@, *request) {
                Some(denial) => {
                    &&& is_error_response(response, action_name(request.action), denial.0, denial.1)
                    &&& final(self)@ == old(self)@
                },
                None => {
                    &&& final(self)@.outside_warp_enabled == settings.outside_warp_control_enabled
                    &&& final(self)@.permissions == refreshed(old(self)@, *settings).permissions
                    &&& old(self)@.lifetime_ms == 60_000
                    &&& final(self)@.lifetime_ms == old(self)@.lifetime_ms
                    &&& match issue_denial(settings.outside_warp_control_enabled, refreshed(old(self)@, *settings).permissions, *request) {
                        Some(denial) => {
                            &&& is_error_response(response, action_name(request.action), denial.0,
                                "credential request denied"@)
                            &&& final(self)@.credentials == old(self)@.credentials
                        },
                        None => {
                            &&& response.ok
                            &&& response.instance_id is None
                            &&& response.error is None
                            &&& response.result matches Some(ActionResult::CredentialIssued { credential })
                            &&& exists|now_ms: u64| is_minted(credential, *request, credential.token@, now_ms, old(self)@.lifetime_ms)
                            &&& final(self)@.credentials == old(self)@.credentials.insert(credential.token@, credential)
                        },
                    }
                },
            },
    {
        let request_id = request.action.name().to_owned();
        match check_credential_gate(&presented_broker_token, broker_token, request) {
            Err(error) => return ResponseEnvelope::error(request_id, error.code, error.message),
            Ok(()) => {},
        }
        self.refresh_policy(settings);
        match self.credential_issuer.issue(request) {
            Ok(credential) => ResponseEnvelope::ok(request_id, None, ActionResult::CredentialIssued { credential }),
            Err(error) => ResponseEnvelope::error(request_id, error.code, "credential request denied".to_owned()),
        }
    }

    /// Checks a control request presented with `token` at `now_ms` and picks its handler,
    /// after dropping every credential that has expired at `now_ms`.
    pub fn handle_request_at(
        &mut self,
        token: Option<String>,
        request: &RequestEnvelope,
        settings: &LocalControlSettings,
        now_ms: u64,
    ) -> (result: Result<BridgeDispatch, ControlError>)
        ensures
            final(self)@ == pruned(old(self)@, *settings, now_ms),
            match request_denial(unexpired(old(self)@.credentials, now_ms), *settings, option_string_view(token), *request, now_ms) {
                Some(denial) => result matches Err(error) && error_is(error, denial),
                None => result matches Ok(dispatch) && dispatch_matches(dispatch, request.action),
            },
    {
        self.refresh_policy(settings);
        self.credential_issuer.prune_expired(now_ms);
        let token = match token {
            None => {
                return Err(ControlError::new(
                    ErrorCode::UnauthorizedLocalClient,
                    "missing bearer credential",
                ));
            },
            Some(token) => token,
        };
        let metadata = crate::catalog::action_metadata(&request.action);
        match self.credential_issuer.verify_at(token.as_str(), &request.action, &metadata.permission, now_ms) {
            Err(error) => {
                return Err(error);
            },
            Ok(_) => {},
        }
        if !settings.outside_warp_enabled() {
            return Err(ControlError::new(
                ErrorCode::LocalControlDisabled,
                "outside-Warp local control is disabled",
            ));
        }
        if !settings.outside_warp_permission_enabled(metadata.permission) {
            return Err(ControlError::new(
                ErrorCode::InsufficientPermissions,
                "outside-Warp local control permission is disabled for this action category",
            ));
        }
        match request.action {
            ControlActionKind::AppPing => Ok(BridgeDispatch::Ping),
            ControlActionKind::AppVersion => Ok(BridgeDispatch::Version),
            ControlActionKind::TabCreate => match validate_tab_create_request(
                request.params_are_empty,
                &request.target,
            ) {
                Ok(()) => Ok(BridgeDispatch::TabCreate),
                Err(error) => Err(error),
            },
            ControlActionKind::InstanceList => Ok(BridgeDispatch::ListActions(enabled_implemented_actions())),
            _ => Err(ControlError::new(
                ErrorCode::UnsupportedAction,
                "action is planned but not implemented in the foundation slice",
            )),
        }
    }

    /// Checks a control request against the current wall-clock time and picks its handler.
    pub fn handle_request(
        &mut self,
        token: Option<String>,
        request: &RequestEnvelope,
        settings: &LocalControlSettings,
    ) -> (result: Result<BridgeDispatch, ControlError>)
        ensures
            exists|now_ms: u64|
                #![trigger pruned(old(self)@, *settings, now_ms)]
                final(self)@ == pruned(old(self)@, *settings, now_ms)
                && match request_denial(unexpired(old(self)@.credentials, now_ms), *settings, option_string_view(token), *request, now_ms) {
                    Some(denial) => result matches Err(error) && error_is(error, denial),
                    None => result matches Ok(dispatch) && dispatch_matches(dispatch, request.action),
                },
    {
        let now_ms = now_unix_ms();
        self.handle_request_at(token, request, settings, now_ms)
    }

    /// The `/v1/control` endpoint: checks the protocol version, then the request.
    pub fn control_endpoint_at(
        &mut self,
        token: Option<String>,
        request: &RequestEnvelope,
        settings: &LocalControlSettings,
        now_ms: u64,
    ) -> (result: Result<BridgeDispatch, ControlError>)
        ensures
            request.protocol_version != PROTOCOL_VERSION ==> {
                &&& result matches Err(error) && error_is(error, (ErrorCode::UnsupportedAction,
                    "unsupported local-control protocol version"@))
                &&& final(self)@ == old(self)@
            },
            request.protocol_version == PROTOCOL_VERSION ==> {
                &&& final(self)@ == pruned(old(self)@, *settings, now_ms)
                &&& match request_denial(unexpired(old(self)@.credentials, now_ms), *settings, option_string_view(token), *request, now_ms) {
                    Some(denial) => result matches Err(error) && error_is(error, denial),
                    None => result matches Ok(dispatch) && dispatch_matches(dispatch, request.action),
                }
            },
    {
        if request.protocol_version != PROTOCOL_VERSION {
            return Err(ControlError::new(
                ErrorCode::UnsupportedAction,
                "unsupported local-control protocol version",
            ));
        }
        self.handle_request_at(token, request, settings, now_ms)
    }

    /// The `/v1/control` endpoint as it answers: a request that passes every check is handed
    /// to its handler, and a refused one is answered with a failed response that carries the
    /// request's id and the refusal's code and message.
    pub fn control_response_at(
        &mut self,
        token: Option<String>,
        request: &RequestEnvelope,
        settings: &LocalControlSettings,
        now_ms: u64,
    ) -> (result: Result<BridgeDispatch, ResponseEnvelope>)
        ensures
            request.protocol_version != PROTOCOL_VERSION ==> {
                &&& result matches Err(response) && is_error_response(response, request.request_id@,
                    ErrorCode::UnsupportedAction, "unsupported local-control protocol version"@)
                &&& final(self)@ == old(self)@
            },
            request.protocol_version == PROTOCOL_VERSION ==> {
                &&& final(self)@ == pruned(old(self)@, *settings, now_ms)
                &&& match request_denial(unexpired(old(self)@.credentials, now_ms), *settings, option_string_view(token), *request, now_ms) {
                    Some(denial) => result matches Err(response)
                        && is_error_response(response, request.request_id@, denial.0, denial.1),
                    None => result matches Ok(dispatch) && dispatch_matches(dispatch, request.action),
                }
            },
    {
        match self.control_endpoint_at(token, request, settings, now_ms) {
            Ok(dispatch) => Ok(dispatch),
            Err(error) => Err(refusal_response(request, error)),
        }
    }
}

/// A request whose credential was issued for its own action under the settings still in
/// force, presented before expiry, reaches its handler unless the handler itself refuses it:
/// what the bridge issues, the bridge accepts.
pub proof fn lemma_issued_credential_is_accepted(
    issuer: IssuerView,
    settings: LocalControlSettings,
    credential_request: CredentialRequest,
    token: Seq<char>,
    issued_at_ms: u64,
    credential: ScopedCredential,
    request: RequestEnvelope,
    now_ms: u64,
)
    requires
        issue_denial(settings.outside_warp_control_enabled, refreshed(issuer, settings).permissions,
            credential_request) is None,
        is_minted(credential, credential_request, token, issued_at_ms, issuer.lifetime_ms),
        request.action == credential_request.action,
        now_ms < credential.expires_at_unix_ms,
    ensures
        request_denial(unexpired(issuer.credentials.insert(token, credential), now_ms), settings, Some(token),
            request, now_ms) == match request.action {
            ControlActionKind::TabCreate => tab_create_denial(request.params_are_empty, request.target),
            ControlActionKind::AppPing | ControlActionKind::AppVersion | ControlActionKind::InstanceList => None,
            _ => Some((ErrorCode::UnsupportedAction,
                "action is planned but not implemented in the foundation slice"@)),
        },
{
}

/// After a control request at `now_ms` the store holds no credential that has expired by
/// then, and every credential still valid then is kept unchanged.
pub proof fn lemma_control_requests_drop_expired_credentials(
    issuer: IssuerView,
    settings: LocalControlSettings,
    now_ms: u64,
    token: Seq<char>,
)
    ensures
        pruned(issuer, settings, now_ms).credentials.contains_key(token) ==> issuer.credentials.contains_key(token)
            && pruned(issuer, settings, now_ms).credentials[token] == issuer.credentials[token]
            && issuer.credentials[token].expires_at_unix_ms > now_ms,
        issuer.credentials.contains_key(token) && issuer.credentials[token].expires_at_unix_ms > now_ms
            ==> pruned(issuer, settings, now_ms).credentials.contains_key(token),
{
}

/// Once outside-Warp control is switched off, every control request is refused, whatever
/// credential it presents.
pub proof fn lemma_disabling_revokes_every_credential(
    credentials: Map<Seq<char>, ScopedCredential>,
    settings: LocalControlSettings,
    token: Option<Seq<char>>,
    request: RequestEnvelope,
    now_ms: u64,
)
    requires
        !settings.outside_warp_control_enabled,
    ensures
        request_denial(credentials, settings, token, request, now_ms) is Some,
{
}

/// The discovery record that an instance publishes: the endpoint and the implemented
/// actions appear only while the feature and outside-Warp control are both on, and an
/// unknown app version is published as "unknown".
pub fn discovery_record_for(
    instance_id: &str,
    pid: u32,
    channel: &str,
    app_version: Option<&str>,
    started_at_unix_ms: u64,
    feature_enabled: bool,
    settings: &LocalControlSettings,
    endpoint: Option<String>,
) -> (record: DiscoveryRecord)
    ensures
        record.instance_id@ == instance_id@,
        record.pid == pid,
        record.channel@ == channel@,
        record.app_version@ == match app_version {
            Some(version) => version@,
            None => "unknown"@,
        },
        record.protocol_version == PROTOCOL_VERSION,
        record.started_at_unix_ms == started_at_unix_ms,
        record.outside_warp_control_enabled == (feature_enabled && settings.outside_warp_control_enabled),
        record.outside_warp_control_enabled ==> option_string_view(record.endpoint) == option_string_view(endpoint),
        !record.outside_warp_control_enabled ==> record.endpoint is None,
        record.outside_warp_control_enabled ==> string_views(record.implemented_actions@)
            == implemented_action_names(),
        !record.outside_warp_control_enabled ==> record.implemented_actions@.len() == 0,
{
    let enabled = feature_enabled && settings.outside_warp_enabled();
    let version = match app_version {
        Some(version) => version.to_owned(),
        None => "unknown".to_owned(),
    };
    DiscoveryRecord {
        instance_id: instance_id.to_owned(),
        pid,
        channel: channel.to_owned(),
        app_version: version,
        protocol_version: PROTOCOL_VERSION,
        started_at_unix_ms,
        outside_warp_control_enabled: enabled,
        endpoint: if enabled { endpoint } else { None },
        implemented_actions: if enabled { enabled_implemented_actions() } else { Vec::new() },
    }
}

/// The characters of the `Bearer ` authorization scheme prefix.
pub open spec fn bearer_prefix() -> Seq<char> {
    seq!['B', 'e', 'a', 'r', 'e', 'r', ' ']
}

/// The credential carried by an `Authorization` header value, if it uses the bearer scheme.
pub open spec fn bearer_credential(header: Seq<char>) -> Option<Seq<char>> {
    if header.len() >= 7 && header.subrange(0, 7) == bearer_prefix() {
        Some(header.subrange(7, header.len() as int))
    } else {
        None
    }
}

/// Extracts the bearer credential from an `Authorization` header value.
pub fn bearer_token(header: Option<&str>) -> (token: Option<String>)
    ensures
        match header {
            None => token is None,
            Some(value) => option_string_view(token) == bearer_credential(value@),
        },
{
    let value = match header {
        None => {
            return None;
        },
        Some(value) => value,
    };
    let len = value.unicode_len();
    if len < 7 {
        return None;
    }
    let prefix = ['B', 'e', 'a', 'r', 'e', 'r', ' '];
    assert(prefix@ == bearer_prefix());
    let mut i: usize = 0;
    while i < 7
        invariant
            0 <= i <= 7,
            header == Some(value),
            len == value@.len(),
            len >= 7,
            prefix@ == bearer_prefix(),
            forall|j: int| 0 <= j < i ==> value@[j] == bearer_prefix()[j],
        decreases 7 - i,
    {
        if value.get_char(i) != prefix[i] {
            assert(value@.subrange(0, 7)[i as int] != bearer_prefix()[i as int]);
            assert(value@.subrange(0, 7) != bearer_prefix());
            assert(bearer_credential(value@) is None);
            return None;
        }
        i = i + 1;
    }
    assert(value@.subrange(0, 7) =~= bearer_prefix());
    let rest = value.substring_char(7, len);
    Some(rest.to_owned())
}

/// A request that passes every check goes to the handler of its own action: `app.ping` to
/// the ping handler, `app.version` to the version handler, `tab.create` to the tab handler and
/// `instance.list` to the action list; no handler serves two actions, and no other action is
/// dispatched at all.
pub proof fn lemma_each_action_has_its_own_handler(
    dispatch: BridgeDispatch,
    action: ControlActionKind,
    other: ControlActionKind,
)
    ensures
        dispatch_matches(dispatch, ControlActionKind::AppPing) <==> dispatch == BridgeDispatch::Ping,
        dispatch_matches(dispatch, ControlActionKind::AppVersion) <==> dispatch == BridgeDispatch::Version,
        dispatch_matches(dispatch, ControlActionKind::TabCreate) <==> dispatch == BridgeDispatch::TabCreate,
        dispatch_matches(dispatch, ControlActionKind::InstanceList) ==> dispatch is ListActions,
        dispatch_matches(dispatch, action) ==> (action == ControlActionKind::AppPing || action
            == ControlActionKind::AppVersion || action == ControlActionKind::TabCreate || action
            == ControlActionKind::InstanceList),
        dispatch_matches(dispatch, action) && dispatch_matches(dispatch, other) ==> action == other,
{
}

/// `instance.list` reports exactly the implemented actions, in catalog order:
/// `instance.list`, `app.ping`, `app.version`, `tab.create`; each of them is implemented in
/// the catalog.
pub proof fn lemma_instance_list_reports_the_implemented_actions()
    ensures
        implemented_action_names() == seq!["instance.list"@, "app.ping"@, "app.version"@, "tab.create"@],
        forall|i: int| 0 <= i < implemented_action_kinds().len() ==> crate::catalog::action_support(
            #[trigger] implemented_action_kinds()[i],
        ) == crate::protocol::SupportStatus::Implemented,
{
    assert(implemented_action_names() =~= seq!["instance.list"@, "app.ping"@, "app.version"@, "tab.create"@]);
}

} // verus!

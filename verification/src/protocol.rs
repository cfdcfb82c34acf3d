use vstd::prelude::*;

verus! {

/// The version of the local-control wire protocol spoken by this build.
pub const PROTOCOL_VERSION: u16 = 1;

/// Opaque identity of a running Warp app instance.
#[derive(Clone, Debug, PartialEq, Eq, Hash)]
pub struct InstanceId(pub String);

#[derive(Clone, Debug, PartialEq, Eq, Hash)]
pub struct WindowId(pub String);

#[derive(Clone, Debug, PartialEq, Eq, Hash)]
pub struct TabId(pub String);

#[derive(Clone, Debug, PartialEq, Eq, Hash)]
pub struct PaneId(pub String);

#[derive(Clone, Debug, PartialEq, Eq, Hash)]
pub struct SessionId(pub String);

#[derive(Clone, Debug, PartialEq, Eq, Hash)]
pub struct BlockId(pub String);

#[derive(Clone, Debug, PartialEq, Eq, Hash)]
pub struct DriveObjectId(pub String);

/// Where the calling `warpctrl` process runs.
#[derive(Clone, Copy, Debug, PartialEq, Eq, Hash, Structural)]
pub enum InvocationContext {
    OutsideWarp,
    InsideWarp,
}

/// App-issued proof of the invocation context, if any.
#[derive(Clone, Debug, PartialEq, Eq)]
pub enum ExecutionContextProof {
    NoProof,
    VerifiedWarpTerminal { handle: String },
}

/// The permission category that every action belongs to.
#[derive(Clone, Copy, Debug, PartialEq, Eq, Hash, PartialOrd, Ord, Structural)]
pub enum PermissionCategory {
    ReadMetadata,
    ReadUnderlyingData,
    MutateAppState,
    MutateMetadata,
    MutateUnderlyingData,
}

pub open spec fn permission_category_name(category: PermissionCategory) -> Seq<char> {
    match category {
        PermissionCategory::ReadMetadata => "read_metadata"@,
        PermissionCategory::ReadUnderlyingData => "read_underlying_data"@,
        PermissionCategory::MutateAppState => "mutate_app_state"@,
        PermissionCategory::MutateMetadata => "mutate_metadata"@,
        PermissionCategory::MutateUnderlyingData => "mutate_underlying_data"@,
    }
}

impl PermissionCategory {
    /// The stable snake_case wire name of the category.
    pub fn as_str(self) -> (name: &'static str)
        ensures
            name@ == permission_category_name(self),
    {
        match self {
            PermissionCategory::ReadMetadata => "read_metadata",
            PermissionCategory::ReadUnderlyingData => "read_underlying_data",
            PermissionCategory::MutateAppState => "mutate_app_state",
            PermissionCategory::MutateMetadata => "mutate_metadata",
            PermissionCategory::MutateUnderlyingData => "mutate_underlying_data",
        }
    }
}

/// Whether the running app implements an action or only lists it.
#[derive(Clone, Copy, Debug, PartialEq, Eq, Hash, Structural)]
pub enum SupportStatus {
    Implemented,
    Stub,
}

/// The allowlisted local-control actions known to this protocol version.
#[derive(Clone, Copy, Debug, PartialEq, Eq, Hash, Structural)]
pub enum ControlActionKind {
    InstanceList,
    AppPing,
    AppVersion,
    TabCreate,
    WindowList,
    TabList,
    PaneList,
    SessionList,
    InputRun,
    DriveObjectCreate,
}

pub open spec fn action_name(action: ControlActionKind) -> Seq<char> {
    match action {
        ControlActionKind::InstanceList => "instance.list"@,
        ControlActionKind::AppPing => "app.ping"@,
        ControlActionKind::AppVersion => "app.version"@,
        ControlActionKind::TabCreate => "tab.create"@,
        ControlActionKind::WindowList => "window.list"@,
        ControlActionKind::TabList => "tab.list"@,
        ControlActionKind::PaneList => "pane.list"@,
        ControlActionKind::SessionList => "session.list"@,
        ControlActionKind::InputRun => "input.run"@,
        ControlActionKind::DriveObjectCreate => "drive.object.create"@,
    }
}

impl ControlActionKind {
    /// The dotted public name of the action, as used on the wire and in the CLI.
    pub fn name(self) -> (name: &'static str)
        ensures
            name@ == action_name(self),
    {
        match self {
            ControlActionKind::InstanceList => "instance.list",
            ControlActionKind::AppPing => "app.ping",
            ControlActionKind::AppVersion => "app.version",
            ControlActionKind::TabCreate => "tab.create",
            ControlActionKind::WindowList => "window.list",
            ControlActionKind::TabList => "tab.list",
            ControlActionKind::PaneList => "pane.list",
            ControlActionKind::SessionList => "session.list",
            ControlActionKind::InputRun => "input.run",
            ControlActionKind::DriveObjectCreate => "drive.object.create",
        }
    }
}

#[derive(Clone, Debug, PartialEq, Eq)]
pub enum WindowSelector {
    Active,
    Id(WindowId),
    Index(u32),
    Title(String),
}

#[derive(Clone, Debug, PartialEq, Eq)]
pub enum TabSelector {
    Active,
    Id(TabId),
    Index(u32),
    Title(String),
}

#[derive(Clone, Debug, PartialEq, Eq)]
pub enum PaneSelector {
    Active,
    Id(PaneId),
    Index(u32),
}

#[derive(Clone, Debug, PartialEq, Eq)]
pub enum SessionSelector {
    Active,
    Id(SessionId),
    Index(u32),
}

#[derive(Clone, Debug, PartialEq, Eq)]
pub enum BlockSelector {
    Id(BlockId),
}

#[derive(Clone, Debug, PartialEq, Eq)]
pub struct FileSelector {
    pub path: String,
    pub line: Option<u32>,
    pub column: Option<u32>,
}

#[derive(Clone, Debug, PartialEq, Eq)]
pub enum DriveObjectSelector {
    Id(DriveObjectId),
    Lookup { object_type: String, name_or_path: String },
}

/// A hierarchical target selector; every level is optional.
#[derive(Clone, Debug, PartialEq, Eq)]
pub struct TargetSelector {
    pub window: Option<WindowSelector>,
    pub tab: Option<TabSelector>,
    pub pane: Option<PaneSelector>,
    pub session: Option<SessionSelector>,
    pub block: Option<BlockSelector>,
    pub file: Option<FileSelector>,
    pub drive_object: Option<DriveObjectSelector>,
}

/// The selector names at most the active window and nothing below it.
pub open spec fn targets_only_default_or_active_window(target: TargetSelector) -> bool {
    &&& (target.window is None || target.window matches Some(WindowSelector::Active))
    &&& target.tab is None
    &&& target.pane is None
    &&& target.session is None
    &&& target.block is None
    &&& target.file is None
    &&& target.drive_object is None
}

impl TargetSelector {
    /// The empty selector: every level defaults.
    pub fn empty() -> (target: TargetSelector)
        ensures
            target.window is None,
            target.tab is None,
            target.pane is None,
            target.session is None,
            target.block is None,
            target.file is None,
            target.drive_object is None,
    {
        TargetSelector {
            window: None,
            tab: None,
            pane: None,
            session: None,
            block: None,
            file: None,
            drive_object: None,
        }
    }

    pub fn only_default_or_active_window(&self) -> (ok: bool)
        ensures
            ok == targets_only_default_or_active_window(*self),
    {
        let window_supported = match &self.window {
            None => true,
            Some(WindowSelector::Active) => true,
            Some(_) => false,
        };
        window_supported && self.tab.is_none() && self.pane.is_none() && self.session.is_none()
            && self.block.is_none() && self.file.is_none() && self.drive_object.is_none()
    }
}

/// A control request. Of its JSON parameters only whether they are the empty object
/// matters to the checks here; their content goes to the handler.
#[derive(Clone, Debug, PartialEq, Eq)]
pub struct RequestEnvelope {
    pub protocol_version: u16,
    pub request_id: String,
    pub action: ControlActionKind,
    pub target: TargetSelector,
    pub params_are_empty: bool,
}

impl RequestEnvelope {
    /// A request for `action` with the default target and empty parameters.
    pub fn new(request_id: String, action: ControlActionKind) -> (request: RequestEnvelope)
        ensures
            request.protocol_version == PROTOCOL_VERSION,
            request.request_id == request_id,
            request.action == action,
            targets_only_default_or_active_window(request.target),
            request.target.window is None,
            request.params_are_empty,
    {
        RequestEnvelope {
            protocol_version: PROTOCOL_VERSION,
            request_id,
            action,
            target: TargetSelector::empty(),
            params_are_empty: true,
        }
    }
}

/// Structured error codes of the local-control protocol.
#[derive(Clone, Copy, Debug, PartialEq, Eq, Hash, Structural)]
pub enum ErrorCode {
    LocalControlDisabled,
    UnauthorizedLocalClient,
    InsufficientPermissions,
    AuthenticatedUserRequired,
    AuthenticatedUserUnavailable,
    ExecutionContextNotAllowed,
    AmbiguousInstance,
    AmbiguousTarget,
    StaleTarget,
    InvalidSelector,
    UnsupportedAction,
    NotAllowlisted,
    InvalidParams,
    TargetStateConflict,
    MissingTarget,
    NoInstance,
    FeatureDisabled,
    TransportError,
}

pub open spec fn error_code_name(code: ErrorCode) -> Seq<char> {
    match code {
        ErrorCode::LocalControlDisabled => "local_control_disabled"@,
        ErrorCode::UnauthorizedLocalClient => "unauthorized_local_client"@,
        ErrorCode::InsufficientPermissions => "insufficient_permissions"@,
        ErrorCode::AuthenticatedUserRequired => "authenticated_user_required"@,
        ErrorCode::AuthenticatedUserUnavailable => "authenticated_user_unavailable"@,
        ErrorCode::ExecutionContextNotAllowed => "execution_context_not_allowed"@,
        ErrorCode::AmbiguousInstance => "ambiguous_instance"@,
        ErrorCode::AmbiguousTarget => "ambiguous_target"@,
        ErrorCode::StaleTarget => "stale_target"@,
        ErrorCode::InvalidSelector => "invalid_selector"@,
        ErrorCode::UnsupportedAction => "unsupported_action"@,
        ErrorCode::NotAllowlisted => "not_allowlisted"@,
        ErrorCode::InvalidParams => "invalid_params"@,
        ErrorCode::TargetStateConflict => "target_state_conflict"@,
        ErrorCode::MissingTarget => "missing_target"@,
        ErrorCode::NoInstance => "no_instance"@,
        ErrorCode::FeatureDisabled => "feature_disabled"@,
        ErrorCode::TransportError => "transport_error"@,
    }
}

impl ErrorCode {
    /// The stable snake_case wire name of the error code.
    pub fn as_str(self) -> (name: &'static str)
        ensures
            name@ == error_code_name(self),
    {
        match self {
            ErrorCode::LocalControlDisabled => "local_control_disabled",
            ErrorCode::UnauthorizedLocalClient => "unauthorized_local_client",
            ErrorCode::InsufficientPermissions => "insufficient_permissions",
            ErrorCode::AuthenticatedUserRequired => "authenticated_user_required",
            ErrorCode::AuthenticatedUserUnavailable => "authenticated_user_unavailable",
            ErrorCode::ExecutionContextNotAllowed => "execution_context_not_allowed",
            ErrorCode::AmbiguousInstance => "ambiguous_instance",
            ErrorCode::AmbiguousTarget => "ambiguous_target",
            ErrorCode::StaleTarget => "stale_target",
            ErrorCode::InvalidSelector => "invalid_selector",
            ErrorCode::UnsupportedAction => "unsupported_action",
            ErrorCode::NotAllowlisted => "not_allowlisted",
            ErrorCode::InvalidParams => "invalid_params",
            ErrorCode::TargetStateConflict => "target_state_conflict",
            ErrorCode::MissingTarget => "missing_target",
            ErrorCode::NoInstance => "no_instance",
            ErrorCode::FeatureDisabled => "feature_disabled",
            ErrorCode::TransportError => "transport_error",
        }
    }
}

/// A structured protocol error: a code and a human-readable message.
#[derive(Clone, Debug, PartialEq, Eq)]
pub struct ControlError {
    pub code: ErrorCode,
    pub message: String,
    pub details: Option<String>,
}

impl ControlError {
    pub fn new(code: ErrorCode, message: &str) -> (error: ControlError)
        ensures
            error.code == code,
            error.message@ == message@,
            error.details is None,
    {
        ControlError { code, message: message.to_owned(), details: None }
    }
}

/// The result of a successful action, as the handlers report it.
#[derive(Clone, Debug, PartialEq, Eq)]
pub enum ActionResult {
    /// `app.ping`: the app is up and speaks `protocol_version`.
    Ping { action: String, status: String, protocol_version: u16 },
    /// `app.version`: protocol and app version metadata.
    Version { action: String, protocol_version: u16, channel: String, app_version: Option<String> },
    /// `tab.create`: the new tab and the tab counts around it.
    TabCreated {
        action: String,
        active_window_id: String,
        previous_tab_count: Option<u64>,
        current_tab_count: Option<u64>,
        active_tab_index: Option<u64>,
    },
    /// The names of the actions that the app implements and has enabled.
    Actions { actions: Vec<String> },
    /// A credential issued by the credentials endpoint.
    CredentialIssued { credential: ScopedCredential },
}

/// The error part of a failed response.
#[derive(Clone, Debug, PartialEq, Eq)]
pub struct ErrorBody {
    pub code: ErrorCode,
    pub message: String,
    pub details: Option<String>,
}

/// The answer to a control request: a result, or an error.
#[derive(Clone, Debug, PartialEq, Eq)]
pub struct ResponseEnvelope {
    pub ok: bool,
    pub protocol_version: u16,
    pub request_id: String,
    pub instance_id: Option<InstanceId>,
    pub result: Option<ActionResult>,
    pub error: Option<ErrorBody>,
}

/// `response` is the failed answer to `request_id` with `code`, `message` and no details.
pub open spec fn is_error_response(response: ResponseEnvelope, request_id: Seq<char>, code: ErrorCode, message: Seq<char>) -> bool {
    &&& !response.ok
    &&& response.protocol_version == PROTOCOL_VERSION
    &&& response.request_id@ == request_id
    &&& response.instance_id is None
    &&& response.result is None
    &&& response.error matches Some(body) && body.code == code && body.message@ == message && body.details is None
}

impl ResponseEnvelope {
    /// A successful response carrying `result`.
    pub fn ok(request_id: String, instance_id: Option<InstanceId>, result: ActionResult) -> (
        response: ResponseEnvelope)
        ensures
            response.ok,
            response.protocol_version == PROTOCOL_VERSION,
            response.request_id == request_id,
            response.instance_id == instance_id,
            response.result == Some(result),
            response.error is None,
    {
        ResponseEnvelope {
            ok: true,
            protocol_version: PROTOCOL_VERSION,
            request_id,
            instance_id,
            result: Some(result),
            error: None,
        }
    }

    /// A failed response with `code` and `message` and no details.
    pub fn error(request_id: String, code: ErrorCode, message: String) -> (response: ResponseEnvelope)
        ensures
            !response.ok,
            response.protocol_version == PROTOCOL_VERSION,
            response.request_id == request_id,
            response.instance_id is None,
            response.result is None,
            response.error == Some(ErrorBody { code, message, details: None }),
    {
        ResponseEnvelope {
            ok: false,
            protocol_version: PROTOCOL_VERSION,
            request_id,
            instance_id: None,
            result: None,
            error: Some(ErrorBody { code, message, details: None }),
        }
    }
}

/// A request for an action-scoped credential.
#[derive(Clone, Debug, PartialEq, Eq)]
pub struct CredentialRequest {
    pub protocol_version: u16,
    pub request_id: String,
    pub action: ControlActionKind,
    pub invocation_context: InvocationContext,
    pub proof: ExecutionContextProof,
}

impl CredentialRequest {
    /// A proof-less outside-Warp request for `action`, identified by the action's name.
    pub fn outside_warp(action: ControlActionKind) -> (request: CredentialRequest)
        ensures
            request.protocol_version == PROTOCOL_VERSION,
            request.request_id@ == action_name(action),
            request.action == action,
            request.invocation_context == InvocationContext::OutsideWarp,
            request.proof == ExecutionContextProof::NoProof,
    {
        CredentialRequest {
            protocol_version: PROTOCOL_VERSION,
            request_id: action.name().to_owned(),
            action,
            invocation_context: InvocationContext::OutsideWarp,
            proof: ExecutionContextProof::NoProof,
        }
    }
}

/// A credential issued by a running app for exactly one action.
#[derive(Clone, Debug, PartialEq, Eq)]
pub struct ScopedCredential {
    pub token: String,
    pub action: ControlActionKind,
    pub permission: PermissionCategory,
    pub invocation_context: InvocationContext,
    pub expires_at_unix_ms: u64,
    pub requires_authenticated_user: bool,
}

impl ScopedCredential {
    /// A field-by-field copy.
    pub fn duplicate(&self) -> (copy: ScopedCredential)
        ensures
            copy == *self,
    {
        ScopedCredential {
            token: self.token.clone(),
            action: self.action,
            permission: self.permission,
            invocation_context: self.invocation_context,
            expires_at_unix_ms: self.expires_at_unix_ms,
            requires_authenticated_user: self.requires_authenticated_user,
        }
    }
}

/// The answer to a credential request: a credential or a structured error.
#[derive(Clone, Debug, PartialEq, Eq)]
pub struct CredentialResponse {
    pub protocol_version: u16,
    pub request_id: String,
    pub credential: Option<ScopedCredential>,
    pub error: Option<ControlError>,
}

impl CredentialResponse {
    /// Wraps the outcome of issuing a credential for the request `request_id`.
    pub fn from_outcome(request_id: String, outcome: Result<ScopedCredential, ControlError>) -> (
        response: CredentialResponse)
        ensures
            response.protocol_version == PROTOCOL_VERSION,
            response.request_id == request_id,
            match outcome {
                Ok(credential) => response.credential == Some(credential) && response.error is None,
                Err(error) => response.credential is None && response.error == Some(error),
            },
    {
        match outcome {
            Ok(credential) => CredentialResponse {
                protocol_version: PROTOCOL_VERSION,
                request_id,
                credential: Some(credential),
                error: None,
            },
            Err(error) => CredentialResponse {
                protocol_version: PROTOCOL_VERSION,
                request_id,
                credential: None,
                error: Some(error),
            },
        }
    }
}

/// Every action goes on the wire under its own dotted name.
pub proof fn lemma_action_names_on_the_wire()
    ensures
        action_name(ControlActionKind::InstanceList) == "instance.list"@,
        action_name(ControlActionKind::AppPing) == "app.ping"@,
        action_name(ControlActionKind::AppVersion) == "app.version"@,
        action_name(ControlActionKind::TabCreate) == "tab.create"@,
        action_name(ControlActionKind::WindowList) == "window.list"@,
        action_name(ControlActionKind::TabList) == "tab.list"@,
        action_name(ControlActionKind::PaneList) == "pane.list"@,
        action_name(ControlActionKind::SessionList) == "session.list"@,
        action_name(ControlActionKind::InputRun) == "input.run"@,
        action_name(ControlActionKind::DriveObjectCreate) == "drive.object.create"@,
{
}

/// Every permission category goes on the wire under its own snake_case name.
pub proof fn lemma_permission_category_names_on_the_wire()
    ensures
        permission_category_name(PermissionCategory::ReadMetadata) == "read_metadata"@,
        permission_category_name(PermissionCategory::ReadUnderlyingData) == "read_underlying_data"@,
        permission_category_name(PermissionCategory::MutateAppState) == "mutate_app_state"@,
        permission_category_name(PermissionCategory::MutateMetadata) == "mutate_metadata"@,
        permission_category_name(PermissionCategory::MutateUnderlyingData) == "mutate_underlying_data"@,
{
}

/// Every error code goes on the wire under its own snake_case name.
pub proof fn lemma_error_code_names_on_the_wire()
    ensures
        error_code_name(ErrorCode::LocalControlDisabled) == "local_control_disabled"@,
        error_code_name(ErrorCode::UnauthorizedLocalClient) == "unauthorized_local_client"@,
        error_code_name(ErrorCode::InsufficientPermissions) == "insufficient_permissions"@,
        error_code_name(ErrorCode::AuthenticatedUserRequired) == "authenticated_user_required"@,
        error_code_name(ErrorCode::AuthenticatedUserUnavailable) == "authenticated_user_unavailable"@,
        error_code_name(ErrorCode::ExecutionContextNotAllowed) == "execution_context_not_allowed"@,
        error_code_name(ErrorCode::AmbiguousInstance) == "ambiguous_instance"@,
        error_code_name(ErrorCode::AmbiguousTarget) == "ambiguous_target"@,
        error_code_name(ErrorCode::StaleTarget) == "stale_target"@,
        error_code_name(ErrorCode::InvalidSelector) == "invalid_selector"@,
        error_code_name(ErrorCode::UnsupportedAction) == "unsupported_action"@,
        error_code_name(ErrorCode::NotAllowlisted) == "not_allowlisted"@,
        error_code_name(ErrorCode::InvalidParams) == "invalid_params"@,
        error_code_name(ErrorCode::TargetStateConflict) == "target_state_conflict"@,
        error_code_name(ErrorCode::MissingTarget) == "missing_target"@,
        error_code_name(ErrorCode::NoInstance) == "no_instance"@,
        error_code_name(ErrorCode::FeatureDisabled) == "feature_disabled"@,
        error_code_name(ErrorCode::TransportError) == "transport_error"@,
{
}

} // verus!

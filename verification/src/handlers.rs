use vstd::prelude::*;

use crate::bridge::{tab_create_denial, validate_tab_create_request};
use crate::protocol::{
    action_name, is_error_response, ActionResult, ControlActionKind, ErrorCode, InstanceId,
    RequestEnvelope, ResponseEnvelope, PROTOCOL_VERSION,
};

verus! {

/// The answer to `app.ping` from instance `instance_id`.
pub fn ping(request_id: String, instance_id: InstanceId) -> (response: ResponseEnvelope)
    ensures
        response.ok,
        response.request_id == request_id,
        response.instance_id == Some(instance_id),
        response.error is None,
        response.result matches Some(ActionResult::Ping { action, status, protocol_version }) && action@
            == action_name(ControlActionKind::AppPing) && status@ == "ok"@ && protocol_version
            == PROTOCOL_VERSION,
{
    let status = "ok";
    proof {
        reveal_strlit("ok");
    }
    ResponseEnvelope::ok(
        request_id,
        Some(instance_id),
        ActionResult::Ping {
            action: ControlActionKind::AppPing.name().to_owned(),
            status: status.to_owned(),
            protocol_version: PROTOCOL_VERSION,
        },
    )
}

/// The answer to `app.version` from instance `instance_id`, which runs `app_version` (if
/// known) on release channel `channel`.
pub fn version(
    request_id: String,
    instance_id: InstanceId,
    channel: String,
    app_version: Option<String>,
) -> (response: ResponseEnvelope)
    ensures
        response.ok,
        response.request_id == request_id,
        response.instance_id == Some(instance_id),
        response.error is None,
        response.result matches Some(ActionResult::Version { action, protocol_version, channel: c, app_version: v })
            && action@ == action_name(ControlActionKind::AppVersion) && protocol_version == PROTOCOL_VERSION
            && c == channel && v == app_version,
{
    ResponseEnvelope::ok(
        request_id,
        Some(instance_id),
        ActionResult::Version {
            action: ControlActionKind::AppVersion.name().to_owned(),
            protocol_version: PROTOCOL_VERSION,
            channel,
            app_version,
        },
    )
}

/// The refusal of a `tab.create` request whose parameters or target the foundation slice
/// does not accept, if it is refused.
pub fn tab_create_rejection(request: &RequestEnvelope) -> (rejection: Option<ResponseEnvelope>)
    ensures
        match tab_create_denial(request.params_are_empty, request.target) {
            Some(denial) => rejection matches Some(response) && is_error_response(
                response,
                request.request_id@,
                denial.0,
                denial.1,
            ),
            None => rejection is None,
        },
{
    match validate_tab_create_request(request.params_are_empty, &request.target) {
        Ok(()) => None,
        Err(error) => Some(ResponseEnvelope::error(request.request_id.clone(), error.code, error.message)),
    }
}

/// The tab counts that the workspace reports around adding a terminal tab.
#[derive(Clone, Copy, Debug, PartialEq, Eq, Structural)]
pub struct TabCounts {
    pub previous_tab_count: u64,
    pub current_tab_count: u64,
    pub active_tab_index: u64,
}

/// The answer to an accepted `tab.create` request once the active window `active_window_id`
/// was asked to add a terminal tab: `counts` is `None` when the window holds no workspace.
pub fn tab_create_response(request_id: String, active_window_id: String, counts: Option<TabCounts>) -> (
    response: ResponseEnvelope)
    ensures
        response.request_id == request_id,
        match counts {
            None => is_error_response(
                response,
                request_id@,
                ErrorCode::MissingTarget,
                "active window does not contain a workspace"@,
            ),
            Some(counts) => {
                &&& response.ok
                &&& response.instance_id is None
                &&& response.error is None
                &&& response.result matches Some(ActionResult::TabCreated { action, active_window_id: w, previous_tab_count, current_tab_count, active_tab_index })
                    && action@ == action_name(ControlActionKind::TabCreate) && w == active_window_id
                    && previous_tab_count == Some(counts.previous_tab_count)
                    && current_tab_count == Some(counts.current_tab_count)
                    && active_tab_index == Some(counts.active_tab_index)
            },
        },
{
    match counts {
        None => ResponseEnvelope::error(
            request_id,
            ErrorCode::MissingTarget,
            "active window does not contain a workspace".to_owned(),
        ),
        Some(counts) => ResponseEnvelope::ok(
            request_id,
            None,
            ActionResult::TabCreated {
                action: ControlActionKind::TabCreate.name().to_owned(),
                active_window_id,
                previous_tab_count: Some(counts.previous_tab_count),
                current_tab_count: Some(counts.current_tab_count),
                active_tab_index: Some(counts.active_tab_index),
            },
        ),
    }
}

} // verus!

use vstd::prelude::*;

use crate::protocol::{
    action_name, is_error_response, ControlActionKind, ErrorCode, InstanceId, ResponseEnvelope,
};
use crate::selection::InstanceSelector;

verus! {

/// The instance flags of the foundation `warpctrl` commands; the two flags exclude each other
/// on the command line.
#[derive(Clone, Debug, PartialEq, Eq)]
pub struct InstanceSelectorArgs {
    pub instance: Option<String>,
    pub pid: Option<u32>,
}

impl Default for InstanceSelectorArgs {
    fn default() -> (args: InstanceSelectorArgs)
        ensures
            args.instance is None,
            args.pid is None,
    {
        InstanceSelectorArgs { instance: None, pid: None }
    }
}

/// The selector the flags name: an instance id, else a process id, else the default.
pub open spec fn selector_of(args: InstanceSelectorArgs) -> InstanceSelector {
    match args.instance {
        Some(instance) => InstanceSelector::Id(InstanceId(instance)),
        None => match args.pid {
            Some(pid) => InstanceSelector::Pid(pid),
            None => InstanceSelector::Default,
        },
    }
}

impl InstanceSelectorArgs {
    pub fn instance_selector(&self) -> (selector: InstanceSelector)
        ensures
            selector == selector_of(*self),
    {
        if let Some(instance) = &self.instance {
            InstanceSelector::Id(InstanceId(instance.clone()))
        } else if let Some(pid) = self.pid {
            InstanceSelector::Pid(pid)
        } else {
            InstanceSelector::Default
        }
    }
}

/// Local discovery commands.
#[derive(Clone, Debug, PartialEq, Eq)]
pub enum InstanceCommand {
    List,
}

#[derive(Clone, Debug, PartialEq, Eq)]
pub enum AppCommand {
    Ping(InstanceSelectorArgs),
    Version(InstanceSelectorArgs),
}

#[derive(Clone, Debug, PartialEq, Eq)]
pub enum TabCommand {
    Create(InstanceSelectorArgs),
}

/// The instance and protocol action that an `app` command addresses.
pub fn app_command_request(command: &AppCommand) -> (request: (InstanceSelector, ControlActionKind))
    ensures
        match *command {
            AppCommand::Ping(args) => request == (selector_of(args), ControlActionKind::AppPing),
            AppCommand::Version(args) => request == (selector_of(args), ControlActionKind::AppVersion),
        },
{
    match command {
        AppCommand::Ping(selector) => (selector.instance_selector(), ControlActionKind::AppPing),
        AppCommand::Version(selector) => (selector.instance_selector(), ControlActionKind::AppVersion),
    }
}

/// The instance and protocol action that a `tab` command addresses.
pub fn tab_command_request(command: &TabCommand) -> (request: (InstanceSelector, ControlActionKind))
    ensures
        match *command {
            TabCommand::Create(args) => request == (selector_of(args), ControlActionKind::TabCreate),
        },
{
    match command {
        TabCommand::Create(selector) => (selector.instance_selector(), ControlActionKind::TabCreate),
    }
}

/// The message shown when a request fails before it reaches an app instance.
pub open spec fn client_error_message(code: ErrorCode) -> Seq<char> {
    match code {
        ErrorCode::NoInstance => "no running Warp instance found for local control"@,
        ErrorCode::AmbiguousInstance => "multiple compatible Warp instances found; pass --instance or --pid"@,
        ErrorCode::LocalControlDisabled => "outside-Warp local control is disabled"@,
        ErrorCode::ExecutionContextNotAllowed => "inside-Warp local control is not supported in this foundation slice"@,
        _ => "local-control request failed"@,
    }
}

/// The failed response that stands for a request that could not be sent: it answers the
/// request named after `action`, with `code` and that code's message.
pub fn response_for_error(action: ControlActionKind, code: ErrorCode) -> (response: ResponseEnvelope)
    ensures
        is_error_response(response, action_name(action), code, client_error_message(code)),
{
    let message = match code {
        ErrorCode::NoInstance => "no running Warp instance found for local control",
        ErrorCode::AmbiguousInstance => "multiple compatible Warp instances found; pass --instance or --pid",
        ErrorCode::LocalControlDisabled => "outside-Warp local control is disabled",
        ErrorCode::ExecutionContextNotAllowed => "inside-Warp local control is not supported in this foundation slice",
        _ => "local-control request failed",
    };
    ResponseEnvelope::error(action.name().to_owned(), code, message.to_owned())
}

} // verus!

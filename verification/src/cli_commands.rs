use vstd::prelude::*;

use crate::cli_args::{
    DriveObjectType, HorizontalDirection, InputMode, PaneDirection, SizeAdjustment,
    TabActivationTarget, TabCloseScope, TargetArgs,
};
use crate::discovery::{is_selectable_record, DiscoveryRecord};
use crate::protocol::{ControlActionKind, ErrorCode, InstanceId};
use crate::selection::{
    lemma_selection_resolves_exactly, select_instance, selection_outcome, InstanceSelector,
};

verus! {

/// Every action that the `warpctrl` command line can ask an app instance for.
#[derive(Clone, Copy, Debug, PartialEq, Eq, Structural)]
pub enum ActionKind {
    AppPing,
    AppVersion,
    AppActive,
    AppInspect,
    AppFocus,
    AppSettingsOpen,
    AppCommandPaletteOpen,
    AppCommandSearchOpen,
    AppWarpDriveOpen,
    AppWarpDriveToggle,
    AppResourceCenterToggle,
    AppAiAssistantToggle,
    AppCodeReviewToggle,
    AppVerticalTabsToggle,
    ActionList,
    ActionGet,
    WindowList,
    WindowCreate,
    WindowFocus,
    WindowClose,
    TabList,
    TabCreate,
    TabActivate,
    TabMove,
    TabRename,
    TabClose,
    PaneList,
    PaneSplit,
    PaneFocus,
    PaneNavigate,
    PaneClose,
    PaneMaximize,
    PaneResize,
    PaneSessionPrevious,
    PaneSessionNext,
    SessionList,
    BlockList,
    BlockGet,
    InputGet,
    InputInsert,
    InputReplace,
    InputClear,
    InputModeSet,
    InputRun,
    HistoryList,
    ThemeList,
    ThemeSet,
    AppearanceGet,
    AppearanceSet,
    AppearanceFontSize,
    AppearanceZoom,
    SettingList,
    SettingGet,
    SettingSet,
    SettingToggle,
    FileList,
    FileOpen,
    FileWrite,
    FileDelete,
    ProjectActive,
    ProjectList,
    DriveList,
    DriveGet,
    DriveCreate,
    DriveUpdate,
    DriveDelete,
    DriveRun,
    DriveInsert,
}

/// The catalog name under which an action travels on the wire.
pub open spec fn action_kind_name(kind: ActionKind) -> Seq<char> {
    match kind {
        ActionKind::AppPing => "app.ping"@,
        ActionKind::AppVersion => "app.version"@,
        ActionKind::AppActive => "app.active"@,
        ActionKind::AppInspect => "app.inspect"@,
        ActionKind::AppFocus => "app.focus"@,
        ActionKind::AppSettingsOpen => "surface.settings.open"@,
        ActionKind::AppCommandPaletteOpen => "surface.command_palette.open"@,
        ActionKind::AppCommandSearchOpen => "surface.command_search.open"@,
        ActionKind::AppWarpDriveOpen => "surface.warp_drive.open"@,
        ActionKind::AppWarpDriveToggle => "surface.warp_drive.toggle"@,
        ActionKind::AppResourceCenterToggle => "surface.resource_center.toggle"@,
        ActionKind::AppAiAssistantToggle => "surface.ai_assistant.toggle"@,
        ActionKind::AppCodeReviewToggle => "surface.code_review.toggle"@,
        ActionKind::AppVerticalTabsToggle => "surface.vertical_tabs.toggle"@,
        ActionKind::ActionList => "action.list"@,
        ActionKind::ActionGet => "action.inspect"@,
        ActionKind::WindowList => "window.list"@,
        ActionKind::WindowCreate => "window.create"@,
        ActionKind::WindowFocus => "window.focus"@,
        ActionKind::WindowClose => "window.close"@,
        ActionKind::TabList => "tab.list"@,
        ActionKind::TabCreate => "tab.create"@,
        ActionKind::TabActivate => "tab.activate"@,
        ActionKind::TabMove => "tab.move"@,
        ActionKind::TabRename => "tab.rename"@,
        ActionKind::TabClose => "tab.close"@,
        ActionKind::PaneList => "pane.list"@,
        ActionKind::PaneSplit => "pane.split"@,
        ActionKind::PaneFocus => "pane.focus"@,
        ActionKind::PaneNavigate => "pane.navigate"@,
        ActionKind::PaneClose => "pane.close"@,
        ActionKind::PaneMaximize => "pane.maximize"@,
        ActionKind::PaneResize => "pane.resize"@,
        ActionKind::PaneSessionPrevious => "session.previous"@,
        ActionKind::PaneSessionNext => "session.next"@,
        ActionKind::SessionList => "session.list"@,
        ActionKind::BlockList => "block.list"@,
        ActionKind::BlockGet => "block.inspect"@,
        ActionKind::InputGet => "input.get"@,
        ActionKind::InputInsert => "input.insert"@,
        ActionKind::InputReplace => "input.replace"@,
        ActionKind::InputClear => "input.clear"@,
        ActionKind::InputModeSet => "input.mode.set"@,
        ActionKind::InputRun => "input.run"@,
        ActionKind::HistoryList => "history.list"@,
        ActionKind::ThemeList => "theme.list"@,
        ActionKind::ThemeSet => "theme.set"@,
        ActionKind::AppearanceGet => "appearance.get"@,
        ActionKind::AppearanceSet => "appearance.set"@,
        ActionKind::AppearanceFontSize => "appearance.font_size"@,
        ActionKind::AppearanceZoom => "appearance.zoom"@,
        ActionKind::SettingList => "setting.list"@,
        ActionKind::SettingGet => "setting.get"@,
        ActionKind::SettingSet => "setting.set"@,
        ActionKind::SettingToggle => "setting.toggle"@,
        ActionKind::FileList => "file.list"@,
        ActionKind::FileOpen => "file.open"@,
        ActionKind::FileWrite => "file.write"@,
        ActionKind::FileDelete => "file.delete"@,
        ActionKind::ProjectActive => "project.active"@,
        ActionKind::ProjectList => "project.list"@,
        ActionKind::DriveList => "drive.list"@,
        ActionKind::DriveGet => "drive.inspect"@,
        ActionKind::DriveCreate => "drive.object.create"@,
        ActionKind::DriveUpdate => "drive.object.update"@,
        ActionKind::DriveDelete => "drive.object.delete"@,
        ActionKind::DriveRun => "drive.workflow.run"@,
        ActionKind::DriveInsert => "drive.object.insert"@,
    }
}

/// The allowlisted protocol action that carries `kind`, if this protocol version has one.
pub open spec fn protocol_action_of(kind: ActionKind) -> Option<ControlActionKind> {
    match kind {
        ActionKind::AppPing => Some(ControlActionKind::AppPing),
        ActionKind::AppVersion => Some(ControlActionKind::AppVersion),
        ActionKind::WindowList => Some(ControlActionKind::WindowList),
        ActionKind::TabList => Some(ControlActionKind::TabList),
        ActionKind::TabCreate => Some(ControlActionKind::TabCreate),
        ActionKind::PaneList => Some(ControlActionKind::PaneList),
        ActionKind::SessionList => Some(ControlActionKind::SessionList),
        ActionKind::InputRun => Some(ControlActionKind::InputRun),
        ActionKind::DriveCreate => Some(ControlActionKind::DriveObjectCreate),
        _ => None,
    }
}

impl ActionKind {
    /// The catalog name under which this action travels on the wire; an app that does not
    /// implement it refuses it by that name.
    pub fn name(self) -> (name: &'static str)
        ensures
            name@ == action_kind_name(self),
    {
        match self {
            ActionKind::AppPing => "app.ping",
            ActionKind::AppVersion => "app.version",
            ActionKind::AppActive => "app.active",
            ActionKind::AppInspect => "app.inspect",
            ActionKind::AppFocus => "app.focus",
            ActionKind::AppSettingsOpen => "surface.settings.open",
            ActionKind::AppCommandPaletteOpen => "surface.command_palette.open",
            ActionKind::AppCommandSearchOpen => "surface.command_search.open",
            ActionKind::AppWarpDriveOpen => "surface.warp_drive.open",
            ActionKind::AppWarpDriveToggle => "surface.warp_drive.toggle",
            ActionKind::AppResourceCenterToggle => "surface.resource_center.toggle",
            ActionKind::AppAiAssistantToggle => "surface.ai_assistant.toggle",
            ActionKind::AppCodeReviewToggle => "surface.code_review.toggle",
            ActionKind::AppVerticalTabsToggle => "surface.vertical_tabs.toggle",
            ActionKind::ActionList => "action.list",
            ActionKind::ActionGet => "action.inspect",
            ActionKind::WindowList => "window.list",
            ActionKind::WindowCreate => "window.create",
            ActionKind::WindowFocus => "window.focus",
            ActionKind::WindowClose => "window.close",
            ActionKind::TabList => "tab.list",
            ActionKind::TabCreate => "tab.create",
            ActionKind::TabActivate => "tab.activate",
            ActionKind::TabMove => "tab.move",
            ActionKind::TabRename => "tab.rename",
            ActionKind::TabClose => "tab.close",
            ActionKind::PaneList => "pane.list",
            ActionKind::PaneSplit => "pane.split",
            ActionKind::PaneFocus => "pane.focus",
            ActionKind::PaneNavigate => "pane.navigate",
            ActionKind::PaneClose => "pane.close",
            ActionKind::PaneMaximize => "pane.maximize",
            ActionKind::PaneResize => "pane.resize",
            ActionKind::PaneSessionPrevious => "session.previous",
            ActionKind::PaneSessionNext => "session.next",
            ActionKind::SessionList => "session.list",
            ActionKind::BlockList => "block.list",
            ActionKind::BlockGet => "block.inspect",
            ActionKind::InputGet => "input.get",
            ActionKind::InputInsert => "input.insert",
            ActionKind::InputReplace => "input.replace",
            ActionKind::InputClear => "input.clear",
            ActionKind::InputModeSet => "input.mode.set",
            ActionKind::InputRun => "input.run",
            ActionKind::HistoryList => "history.list",
            ActionKind::ThemeList => "theme.list",
            ActionKind::ThemeSet => "theme.set",
            ActionKind::AppearanceGet => "appearance.get",
            ActionKind::AppearanceSet => "appearance.set",
            ActionKind::AppearanceFontSize => "appearance.font_size",
            ActionKind::AppearanceZoom => "appearance.zoom",
            ActionKind::SettingList => "setting.list",
            ActionKind::SettingGet => "setting.get",
            ActionKind::SettingSet => "setting.set",
            ActionKind::SettingToggle => "setting.toggle",
            ActionKind::FileList => "file.list",
            ActionKind::FileOpen => "file.open",
            ActionKind::FileWrite => "file.write",
            ActionKind::FileDelete => "file.delete",
            ActionKind::ProjectActive => "project.active",
            ActionKind::ProjectList => "project.list",
            ActionKind::DriveList => "drive.list",
            ActionKind::DriveGet => "drive.inspect",
            ActionKind::DriveCreate => "drive.object.create",
            ActionKind::DriveUpdate => "drive.object.update",
            ActionKind::DriveDelete => "drive.object.delete",
            ActionKind::DriveRun => "drive.workflow.run",
            ActionKind::DriveInsert => "drive.object.insert",
        }
    }

    /// The allowlisted protocol action that carries this command-line action, if any.
    pub fn protocol_action(self) -> (action: Option<ControlActionKind>)
        ensures
            action == protocol_action_of(self),
    {
        match self {
            ActionKind::AppPing => Some(ControlActionKind::AppPing),
            ActionKind::AppVersion => Some(ControlActionKind::AppVersion),
            ActionKind::WindowList => Some(ControlActionKind::WindowList),
            ActionKind::TabList => Some(ControlActionKind::TabList),
            ActionKind::TabCreate => Some(ControlActionKind::TabCreate),
            ActionKind::PaneList => Some(ControlActionKind::PaneList),
            ActionKind::SessionList => Some(ControlActionKind::SessionList),
            ActionKind::InputRun => Some(ControlActionKind::InputRun),
            ActionKind::DriveCreate => Some(ControlActionKind::DriveObjectCreate),
            _ => None,
        }
    }
}

/// Whether `text` is a JSON document, as `serde_json` reads JSON.
pub uninterp spec fn parses_as_json(text: Seq<char>) -> bool;

/// Asks `serde_json::from_str` whether `text` parses as a JSON value. The grammar is
/// serde_json's; the result is named by `parses_as_json`, a function of the text alone.
#[verifier::external_body]
fn json_parses(text: &str) -> (ok: bool)
    ensures
        ok == parses_as_json(text@),
{
    serde_json::from_str::<serde_json::Value>(text).is_ok()
}

/// A parameter value typed on the command line: sent as JSON when the text is a JSON
/// document, and as a JSON string holding the text otherwise.
#[derive(Clone, Debug, PartialEq, Eq)]
pub enum ParamValue {
    Json(String),
    Text(String),
}

/// `text` as a JSON document when it parses as one, and as a plain string otherwise.
pub open spec fn json_or_text(text: String) -> ParamValue {
    if parses_as_json(text@) {
        ParamValue::Json(text)
    } else {
        ParamValue::Text(text)
    }
}

/// `text` as a JSON document when `is_json`, and as a plain string otherwise.
pub fn classify_param(text: String, is_json: bool) -> (value: ParamValue)
    ensures
        value == (if is_json {
            ParamValue::Json(text)
        } else {
            ParamValue::Text(text)
        }),
{
    if is_json {
        ParamValue::Json(text)
    } else {
        ParamValue::Text(text)
    }
}

/// Classifies command-line text as a JSON document or a plain string.
pub fn json_value_or_string(text: String) -> (value: ParamValue)
    ensures
        value == json_or_text(text),
{
    let is_json = json_parses(text.as_str());
    classify_param(text, is_json)
}

/// The parameters that travel with an action. `Empty` is an action that takes none, or
/// one whose parameters all keep their defaults. Setting values and Drive contents are
/// classified by `json_value_or_string`.
#[derive(Clone, Debug, PartialEq, Eq)]
pub enum ActionParams {
    Empty,
    AppSurface { query: Option<String>, page: Option<String> },
    ActionGet { action: String },
    WindowCreate { profile: Option<String> },
    WindowClose { force: bool },
    TabActivate { relative: Option<TabActivationTarget> },
    TabMove { direction: HorizontalDirection },
    TabRename { title: Option<String> },
    TabClose { scope: TabCloseScope, force: bool },
    PaneSplit { direction: PaneDirection, profile: Option<String> },
    PaneNavigate { direction: PaneDirection },
    PaneClose { force: bool },
    PaneMaximize { enabled: Option<bool> },
    PaneResize { direction: PaneDirection, amount: Option<u32> },
    BlockList { limit: Option<u32> },
    BlockGet { block_id: String },
    InputInsert { text: String, replace: bool },
    InputReplace { text: String },
    InputModeSet { mode: InputMode },
    InputRun { command: String },
    HistoryList { limit: Option<u32> },
    ThemeSet { name: String },
    AppearanceSet {
        theme: Option<String>,
        follow_system_theme: Option<bool>,
        light_theme: Option<String>,
        dark_theme: Option<String>,
    },
    AppearanceFontSize { adjustment: SizeAdjustment, value: Option<u32> },
    AppearanceZoom { adjustment: SizeAdjustment, value: Option<u32> },
    SettingGet { key: String },
    SettingSet { key: String, value: ParamValue },
    SettingToggle { key: String },
    FileOpen { path: String, line: Option<u32>, new_window: bool },
    FileWrite { path: String, contents: String, create: bool },
    FileDelete { path: String, recursive: bool },
    DriveList { object_type: Option<DriveObjectType> },
    DriveGet { object_type: DriveObjectType, id: String },
    DriveCreate { object_type: DriveObjectType, name: String, content: ParamValue },
    DriveUpdate { object_type: DriveObjectType, id: String, content: ParamValue },
    DriveDelete { object_type: DriveObjectType, id: String },
    DriveRun { object_type: DriveObjectType, id: String },
    DriveInsert { object_type: DriveObjectType, id: String },
}

/// One command line, resolved: the instance flags, the action and its parameters.
#[derive(Clone, Debug, PartialEq, Eq)]
pub struct PlannedAction {
    pub target: TargetArgs,
    pub action: ActionKind,
    pub params: ActionParams,
}

pub open spec fn planned(target: TargetArgs, action: ActionKind, params: ActionParams) -> PlannedAction {
    PlannedAction { target, action, params }
}

/// The instance selector named by the flags: `--instance` first, then `--pid`, else the
/// one active instance.
pub open spec fn target_selector(args: TargetArgs) -> InstanceSelector {
    match args.instance {
        Some(id) => InstanceSelector::Id(InstanceId(id)),
        None => match args.pid {
            Some(pid) => InstanceSelector::Pid(pid),
            None => InstanceSelector::Default,
        },
    }
}

pub fn instance_selector(args: TargetArgs) -> (selector: InstanceSelector)
    ensures
        selector == target_selector(args),
{
    if let Some(instance_id) = args.instance {
        return InstanceSelector::Id(InstanceId(instance_id));
    }
    if let Some(pid) = args.pid {
        return InstanceSelector::Pid(pid);
    }
    InstanceSelector::Default
}

fn selector_for(args: &TargetArgs) -> (selector: InstanceSelector)
    ensures
        selector == target_selector(*args),
{
    match &args.instance {
        Some(instance_id) => InstanceSelector::Id(InstanceId(instance_id.clone())),
        None => match args.pid {
            Some(pid) => InstanceSelector::Pid(pid),
            None => InstanceSelector::Default,
        },
    }
}

/// A planned action, resolved against the discovered instances: the instance that its flags
/// select. Every action is sent by its catalog name; the selected app refuses what it does
/// not implement.
pub open spec fn resolution_outcome(records: Seq<DiscoveryRecord>, plan: PlannedAction) -> Result<
    DiscoveryRecord,
    ErrorCode,
> {
    selection_outcome(records, target_selector(plan.target))
}

/// Selects the instance that `plan`'s flags name among `records`. Selection fails only as
/// selection does: with no matching instance, or with several.
pub fn resolve_planned_action<'a>(records: &'a [DiscoveryRecord], plan: &PlannedAction) -> (result:
    Result<&'a DiscoveryRecord, ErrorCode>)
    ensures
        match result {
            Ok(record) => resolution_outcome(records@, *plan) == Ok::<DiscoveryRecord, ErrorCode>(
                *record,
            ),
            Err(code) => resolution_outcome(records@, *plan) == Err::<DiscoveryRecord, ErrorCode>(
                code,
            ),
        },
{
    let selector = selector_for(&plan.target);
    select_instance(records, &selector)
}

/// A planned action reaches only the instance that its own flags name: with `--instance` the
/// instance with that id, with `--pid` the one with that process id, and in every case a
/// selectable instance among the discovered ones.
pub proof fn lemma_resolution_targets_the_flags(
    records: Seq<DiscoveryRecord>,
    plan: PlannedAction,
    record: DiscoveryRecord,
)
    requires
        resolution_outcome(records, plan) == Ok::<DiscoveryRecord, ErrorCode>(record),
    ensures
        records.contains(record),
        is_selectable_record(record),
        plan.target.instance matches Some(id) ==> record.instance_id@ == id@,
        plan.target.instance is None ==> (plan.target.pid matches Some(pid) ==> record.pid == pid),
{
    lemma_selection_resolves_exactly(records, target_selector(plan.target), record);
}

/// Every command-line action is sent under its own catalog name.
pub proof fn lemma_actions_are_sent_under_their_catalog_names()
    ensures
        action_kind_name(ActionKind::AppPing) == "app.ping"@,
        action_kind_name(ActionKind::AppVersion) == "app.version"@,
        action_kind_name(ActionKind::AppActive) == "app.active"@,
        action_kind_name(ActionKind::AppInspect) == "app.inspect"@,
        action_kind_name(ActionKind::AppFocus) == "app.focus"@,
        action_kind_name(ActionKind::AppSettingsOpen) == "surface.settings.open"@,
        action_kind_name(ActionKind::AppCommandPaletteOpen) == "surface.command_palette.open"@,
        action_kind_name(ActionKind::AppCommandSearchOpen) == "surface.command_search.open"@,
        action_kind_name(ActionKind::AppWarpDriveOpen) == "surface.warp_drive.open"@,
        action_kind_name(ActionKind::AppWarpDriveToggle) == "surface.warp_drive.toggle"@,
        action_kind_name(ActionKind::AppResourceCenterToggle) == "surface.resource_center.toggle"@,
        action_kind_name(ActionKind::AppAiAssistantToggle) == "surface.ai_assistant.toggle"@,
        action_kind_name(ActionKind::AppCodeReviewToggle) == "surface.code_review.toggle"@,
        action_kind_name(ActionKind::AppVerticalTabsToggle) == "surface.vertical_tabs.toggle"@,
        action_kind_name(ActionKind::ActionList) == "action.list"@,
        action_kind_name(ActionKind::ActionGet) == "action.inspect"@,
        action_kind_name(ActionKind::WindowList) == "window.list"@,
        action_kind_name(ActionKind::WindowCreate) == "window.create"@,
        action_kind_name(ActionKind::WindowFocus) == "window.focus"@,
        action_kind_name(ActionKind::WindowClose) == "window.close"@,
        action_kind_name(ActionKind::TabList) == "tab.list"@,
        action_kind_name(ActionKind::TabCreate) == "tab.create"@,
        action_kind_name(ActionKind::TabActivate) == "tab.activate"@,
        action_kind_name(ActionKind::TabMove) == "tab.move"@,
        action_kind_name(ActionKind::TabRename) == "tab.rename"@,
        action_kind_name(ActionKind::TabClose) == "tab.close"@,
        action_kind_name(ActionKind::PaneList) == "pane.list"@,
        action_kind_name(ActionKind::PaneSplit) == "pane.split"@,
        action_kind_name(ActionKind::PaneFocus) == "pane.focus"@,
        action_kind_name(ActionKind::PaneNavigate) == "pane.navigate"@,
        action_kind_name(ActionKind::PaneClose) == "pane.close"@,
        action_kind_name(ActionKind::PaneMaximize) == "pane.maximize"@,
        action_kind_name(ActionKind::PaneResize) == "pane.resize"@,
        action_kind_name(ActionKind::PaneSessionPrevious) == "session.previous"@,
        action_kind_name(ActionKind::PaneSessionNext) == "session.next"@,
        action_kind_name(ActionKind::SessionList) == "session.list"@,
        action_kind_name(ActionKind::BlockList) == "block.list"@,
        action_kind_name(ActionKind::BlockGet) == "block.inspect"@,
        action_kind_name(ActionKind::InputGet) == "input.get"@,
        action_kind_name(ActionKind::InputInsert) == "input.insert"@,
        action_kind_name(ActionKind::InputReplace) == "input.replace"@,
        action_kind_name(ActionKind::InputClear) == "input.clear"@,
        action_kind_name(ActionKind::InputModeSet) == "input.mode.set"@,
        action_kind_name(ActionKind::InputRun) == "input.run"@,
        action_kind_name(ActionKind::HistoryList) == "history.list"@,
        action_kind_name(ActionKind::ThemeList) == "theme.list"@,
        action_kind_name(ActionKind::ThemeSet) == "theme.set"@,
        action_kind_name(ActionKind::AppearanceGet) == "appearance.get"@,
        action_kind_name(ActionKind::AppearanceSet) == "appearance.set"@,
        action_kind_name(ActionKind::AppearanceFontSize) == "appearance.font_size"@,
        action_kind_name(ActionKind::AppearanceZoom) == "appearance.zoom"@,
        action_kind_name(ActionKind::SettingList) == "setting.list"@,
        action_kind_name(ActionKind::SettingGet) == "setting.get"@,
        action_kind_name(ActionKind::SettingSet) == "setting.set"@,
        action_kind_name(ActionKind::SettingToggle) == "setting.toggle"@,
        action_kind_name(ActionKind::FileList) == "file.list"@,
        action_kind_name(ActionKind::FileOpen) == "file.open"@,
        action_kind_name(ActionKind::FileWrite) == "file.write"@,
        action_kind_name(ActionKind::FileDelete) == "file.delete"@,
        action_kind_name(ActionKind::ProjectActive) == "project.active"@,
        action_kind_name(ActionKind::ProjectList) == "project.list"@,
        action_kind_name(ActionKind::DriveList) == "drive.list"@,
        action_kind_name(ActionKind::DriveGet) == "drive.inspect"@,
        action_kind_name(ActionKind::DriveCreate) == "drive.object.create"@,
        action_kind_name(ActionKind::DriveUpdate) == "drive.object.update"@,
        action_kind_name(ActionKind::DriveDelete) == "drive.object.delete"@,
        action_kind_name(ActionKind::DriveRun) == "drive.workflow.run"@,
        action_kind_name(ActionKind::DriveInsert) == "drive.object.insert"@,
{
}

/// The actions of the credential scope are exactly these, each under the protocol action of
/// the same meaning; every other action has no protocol action.
pub proof fn lemma_credential_scope_of_actions(kind: ActionKind)
    ensures
        protocol_action_of(ActionKind::AppPing) == Some(ControlActionKind::AppPing),
        protocol_action_of(ActionKind::AppVersion) == Some(ControlActionKind::AppVersion),
        protocol_action_of(ActionKind::WindowList) == Some(ControlActionKind::WindowList),
        protocol_action_of(ActionKind::TabList) == Some(ControlActionKind::TabList),
        protocol_action_of(ActionKind::TabCreate) == Some(ControlActionKind::TabCreate),
        protocol_action_of(ActionKind::PaneList) == Some(ControlActionKind::PaneList),
        protocol_action_of(ActionKind::SessionList) == Some(ControlActionKind::SessionList),
        protocol_action_of(ActionKind::InputRun) == Some(ControlActionKind::InputRun),
        protocol_action_of(ActionKind::DriveCreate) == Some(ControlActionKind::DriveObjectCreate),
        (kind != ActionKind::AppPing && kind != ActionKind::AppVersion && kind != ActionKind::WindowList && kind != ActionKind::TabList && kind != ActionKind::TabCreate && kind != ActionKind::PaneList && kind != ActionKind::SessionList && kind != ActionKind::InputRun && kind != ActionKind::DriveCreate) ==> protocol_action_of(kind) is None,
{
}

} // verus!

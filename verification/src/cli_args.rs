use vstd::prelude::*;

use vstd::std_specs::convert::FromSpecImpl;

verus! {

/// Which running instance a `warpctrl` command talks to: an instance id, a process id, or
/// (with neither) the one active instance.
#[derive(Clone, Debug, PartialEq, Eq)]
pub struct TargetArgs {
    pub instance: Option<String>,
    pub pid: Option<u32>,
}

impl Default for TargetArgs {
    fn default() -> (args: TargetArgs)
        ensures
            args.instance is None,
            args.pid is None,
    {
        TargetArgs { instance: None, pid: None }
    }
}

#[derive(Clone, Debug, PartialEq, Eq)]
pub struct AppSurfaceArgs {
    pub target: TargetArgs,
    pub query: Option<String>,
    pub page: Option<String>,
}

#[derive(Clone, Debug, PartialEq, Eq)]
pub struct WindowCreateArgs {
    pub target: TargetArgs,
    pub profile: Option<String>,
}

#[derive(Clone, Debug, PartialEq, Eq)]
pub struct WindowCloseArgs {
    pub target: TargetArgs,
    pub force: bool,
}

#[derive(Clone, Debug, PartialEq, Eq)]
pub struct TabMoveArgs {
    pub target: TargetArgs,
    pub direction: HorizontalDirectionArg,
}

#[derive(Clone, Debug, PartialEq, Eq)]
pub struct TabRenameArgs {
    pub target: TargetArgs,
    pub title: Option<String>,
    pub reset: bool,
}

#[derive(Clone, Debug, PartialEq, Eq)]
pub struct TabCloseArgs {
    pub target: TargetArgs,
    pub scope: TabCloseScopeArg,
    pub force: bool,
}

#[derive(Clone, Debug, PartialEq, Eq)]
pub struct PaneSplitArgs {
    pub target: TargetArgs,
    pub direction: PaneDirectionArg,
    pub profile: Option<String>,
}

#[derive(Clone, Debug, PartialEq, Eq)]
pub struct PaneNavigateArgs {
    pub target: TargetArgs,
    pub direction: PaneDirectionArg,
}

#[derive(Clone, Debug, PartialEq, Eq)]
pub struct PaneCloseArgs {
    pub target: TargetArgs,
    pub force: bool,
}

#[derive(Clone, Debug, PartialEq, Eq)]
pub struct PaneMaximizeArgs {
    pub target: TargetArgs,
    pub enabled: Option<bool>,
}

#[derive(Clone, Debug, PartialEq, Eq)]
pub struct PaneResizeArgs {
    pub target: TargetArgs,
    pub direction: PaneDirectionArg,
    pub amount: Option<u32>,
}

#[derive(Clone, Debug, PartialEq, Eq)]
pub struct InputInsertArgs {
    pub target: TargetArgs,
    pub text: String,
    pub replace: bool,
}

#[derive(Clone, Debug, PartialEq, Eq)]
pub struct InputTextArgs {
    pub target: TargetArgs,
    pub text: String,
}

#[derive(Clone, Debug, PartialEq, Eq)]
pub struct InputModeArgs {
    pub target: TargetArgs,
    pub mode: InputModeArg,
}

#[derive(Clone, Debug, PartialEq, Eq)]
pub struct InputRunArgs {
    pub target: TargetArgs,
    pub command: String,
}

#[derive(Clone, Debug, PartialEq, Eq)]
pub struct ThemeSetArgs {
    pub target: TargetArgs,
    pub name: String,
}

#[derive(Clone, Debug, PartialEq, Eq)]
pub struct AppearanceSetArgs {
    pub target: TargetArgs,
    pub theme: Option<String>,
    pub follow_system_theme: Option<bool>,
    pub light_theme: Option<String>,
    pub dark_theme: Option<String>,
}

#[derive(Clone, Debug, PartialEq, Eq)]
pub struct AppearanceAdjustArgs {
    pub target: TargetArgs,
    pub adjustment: SizeAdjustmentArg,
    pub value: Option<u32>,
}

#[derive(Clone, Debug, PartialEq, Eq)]
pub struct SettingSetArgsCli {
    pub target: TargetArgs,
    pub key: String,
    pub value: String,
}

#[derive(Clone, Debug, PartialEq, Eq)]
pub struct SettingToggleArgsCli {
    pub target: TargetArgs,
    pub key: String,
}

#[derive(Clone, Debug, PartialEq, Eq)]
pub struct FileOpenArgs {
    pub target: TargetArgs,
    pub path: String,
    pub line: Option<u32>,
    pub new_window: bool,
}

#[derive(Clone, Debug, PartialEq, Eq)]
pub struct FileWriteArgs {
    pub target: TargetArgs,
    pub path: String,
    pub contents: String,
    pub create: bool,
}

#[derive(Clone, Debug, PartialEq, Eq)]
pub struct FileDeleteArgs {
    pub target: TargetArgs,
    pub path: String,
    pub recursive: bool,
}

#[derive(Clone, Debug, PartialEq, Eq)]
pub struct ActionGetArgs {
    pub target: TargetArgs,
    /// Action name, such as tab.create or window.list.
    pub action: String,
}

#[derive(Clone, Debug, PartialEq, Eq)]
pub struct LimitTargetArgs {
    pub target: TargetArgs,
    /// Maximum number of items to return.
    pub limit: Option<u32>,
}

#[derive(Clone, Debug, PartialEq, Eq)]
pub struct BlockGetArgs {
    pub target: TargetArgs,
    /// Opaque block id returned by block list.
    pub block_id: String,
}

#[derive(Clone, Debug, PartialEq, Eq)]
pub struct SettingGetArgs {
    pub target: TargetArgs,
    /// Allowlisted setting key.
    pub key: String,
}

#[derive(Clone, Debug, PartialEq, Eq)]
pub struct DriveListArgs {
    pub target: TargetArgs,
    /// Restrict results to one Drive object type.
    pub object_type: Option<DriveObjectTypeArg>,
}

#[derive(Clone, Debug, PartialEq, Eq)]
pub struct DriveGetArgs {
    pub target: TargetArgs,
    pub object_type: DriveObjectTypeArg,
    /// Opaque Warp Drive object id.
    pub id: String,
}

#[derive(Clone, Debug, PartialEq, Eq)]
pub struct DriveCreateArgs {
    pub target: TargetArgs,
    pub object_type: DriveObjectTypeArg,
    pub name: String,
    /// Object content, sent as JSON when it parses as JSON and as a string otherwise.
    pub content: String,
}

#[derive(Clone, Debug, PartialEq, Eq)]
pub struct DriveUpdateArgs {
    pub target: TargetArgs,
    pub object_type: DriveObjectTypeArg,
    pub id: String,
    /// Object content, sent as JSON when it parses as JSON and as a string otherwise.
    pub content: String,
}

#[derive(Clone, Debug, PartialEq, Eq)]
pub struct DriveObjectMutationArgs {
    pub target: TargetArgs,
    pub object_type: DriveObjectTypeArg,
    pub id: String,
}

/// The kinds of Warp Drive objects, as the protocol names them.
#[derive(Clone, Copy, Debug, PartialEq, Eq, Structural)]
pub enum DriveObjectType {
    Workflow,
    Notebook,
    Environment,
    Prompt,
}

#[derive(Clone, Copy, Debug, PartialEq, Eq, Structural)]
pub enum DriveObjectTypeArg {
    Workflow,
    Notebook,
    Environment,
    Prompt,
}

pub open spec fn drive_object_type_of(value: DriveObjectTypeArg) -> DriveObjectType {
    match value {
        DriveObjectTypeArg::Workflow => DriveObjectType::Workflow,
        DriveObjectTypeArg::Notebook => DriveObjectType::Notebook,
        DriveObjectTypeArg::Environment => DriveObjectType::Environment,
        DriveObjectTypeArg::Prompt => DriveObjectType::Prompt,
    }
}

impl From<DriveObjectTypeArg> for DriveObjectType {
    fn from(value: DriveObjectTypeArg) -> (kind: DriveObjectType) {
        match value {
            DriveObjectTypeArg::Workflow => DriveObjectType::Workflow,
            DriveObjectTypeArg::Notebook => DriveObjectType::Notebook,
            DriveObjectTypeArg::Environment => DriveObjectType::Environment,
            DriveObjectTypeArg::Prompt => DriveObjectType::Prompt,
        }
    }
}

impl FromSpecImpl<DriveObjectTypeArg> for DriveObjectType {
    open spec fn obeys_from_spec() -> bool {
        true
    }

    open spec fn from_spec(value: DriveObjectTypeArg) -> DriveObjectType {
        drive_object_type_of(value)
    }
}

#[derive(Clone, Copy, Debug, PartialEq, Eq, Structural)]
pub enum HorizontalDirection {
    Left,
    Right,
}

#[derive(Clone, Copy, Debug, PartialEq, Eq, Structural)]
pub enum HorizontalDirectionArg {
    Left,
    Right,
}

pub open spec fn horizontal_direction_of(value: HorizontalDirectionArg) -> HorizontalDirection {
    match value {
        HorizontalDirectionArg::Left => HorizontalDirection::Left,
        HorizontalDirectionArg::Right => HorizontalDirection::Right,
    }
}

impl From<HorizontalDirectionArg> for HorizontalDirection {
    fn from(value: HorizontalDirectionArg) -> (direction: HorizontalDirection) {
        match value {
            HorizontalDirectionArg::Left => HorizontalDirection::Left,
            HorizontalDirectionArg::Right => HorizontalDirection::Right,
        }
    }
}

impl FromSpecImpl<HorizontalDirectionArg> for HorizontalDirection {
    open spec fn obeys_from_spec() -> bool {
        true
    }

    open spec fn from_spec(value: HorizontalDirectionArg) -> HorizontalDirection {
        horizontal_direction_of(value)
    }
}

/// Which tabs a close request covers, relative to the target tab.
#[derive(Clone, Copy, Debug, PartialEq, Eq, Structural)]
pub enum TabCloseScope {
    Target,
    Others,
    Right,
}

#[derive(Clone, Copy, Debug, PartialEq, Eq, Structural)]
pub enum TabCloseScopeArg {
    Target,
    Others,
    Right,
}

pub open spec fn tab_close_scope_of(value: TabCloseScopeArg) -> TabCloseScope {
    match value {
        TabCloseScopeArg::Target => TabCloseScope::Target,
        TabCloseScopeArg::Others => TabCloseScope::Others,
        TabCloseScopeArg::Right => TabCloseScope::Right,
    }
}

impl From<TabCloseScopeArg> for TabCloseScope {
    fn from(value: TabCloseScopeArg) -> (scope: TabCloseScope) {
        match value {
            TabCloseScopeArg::Target => TabCloseScope::Target,
            TabCloseScopeArg::Others => TabCloseScope::Others,
            TabCloseScopeArg::Right => TabCloseScope::Right,
        }
    }
}

impl FromSpecImpl<TabCloseScopeArg> for TabCloseScope {
    open spec fn obeys_from_spec() -> bool {
        true
    }

    open spec fn from_spec(value: TabCloseScopeArg) -> TabCloseScope {
        tab_close_scope_of(value)
    }
}

#[derive(Clone, Copy, Debug, PartialEq, Eq, Structural)]
pub enum PaneDirection {
    Left,
    Right,
    Up,
    Down,
}

#[derive(Clone, Copy, Debug, PartialEq, Eq, Structural)]
pub enum PaneDirectionArg {
    Left,
    Right,
    Up,
    Down,
}

pub open spec fn pane_direction_of(value: PaneDirectionArg) -> PaneDirection {
    match value {
        PaneDirectionArg::Left => PaneDirection::Left,
        PaneDirectionArg::Right => PaneDirection::Right,
        PaneDirectionArg::Up => PaneDirection::Up,
        PaneDirectionArg::Down => PaneDirection::Down,
    }
}

impl From<PaneDirectionArg> for PaneDirection {
    fn from(value: PaneDirectionArg) -> (direction: PaneDirection) {
        match value {
            PaneDirectionArg::Left => PaneDirection::Left,
            PaneDirectionArg::Right => PaneDirection::Right,
            PaneDirectionArg::Up => PaneDirection::Up,
            PaneDirectionArg::Down => PaneDirection::Down,
        }
    }
}

impl FromSpecImpl<PaneDirectionArg> for PaneDirection {
    open spec fn obeys_from_spec() -> bool {
        true
    }

    open spec fn from_spec(value: PaneDirectionArg) -> PaneDirection {
        pane_direction_of(value)
    }
}

#[derive(Clone, Copy, Debug, PartialEq, Eq, Structural)]
pub enum InputMode {
    Terminal,
    Agent,
}

#[derive(Clone, Copy, Debug, PartialEq, Eq, Structural)]
pub enum InputModeArg {
    Terminal,
    Agent,
}

pub open spec fn input_mode_of(value: InputModeArg) -> InputMode {
    match value {
        InputModeArg::Terminal => InputMode::Terminal,
        InputModeArg::Agent => InputMode::Agent,
    }
}

impl From<InputModeArg> for InputMode {
    fn from(value: InputModeArg) -> (mode: InputMode) {
        match value {
            InputModeArg::Terminal => InputMode::Terminal,
            InputModeArg::Agent => InputMode::Agent,
        }
    }
}

impl FromSpecImpl<InputModeArg> for InputMode {
    open spec fn obeys_from_spec() -> bool {
        true
    }

    open spec fn from_spec(value: InputModeArg) -> InputMode {
        input_mode_of(value)
    }
}

#[derive(Clone, Copy, Debug, PartialEq, Eq, Structural)]
pub enum SizeAdjustment {
    Increase,
    Decrease,
    Reset,
    SetTo,
}

#[derive(Clone, Copy, Debug, PartialEq, Eq, Structural)]
pub enum SizeAdjustmentArg {
    Increase,
    Decrease,
    Reset,
    SetTo,
}

pub open spec fn size_adjustment_of(value: SizeAdjustmentArg) -> SizeAdjustment {
    match value {
        SizeAdjustmentArg::Increase => SizeAdjustment::Increase,
        SizeAdjustmentArg::Decrease => SizeAdjustment::Decrease,
        SizeAdjustmentArg::Reset => SizeAdjustment::Reset,
        SizeAdjustmentArg::SetTo => SizeAdjustment::SetTo,
    }
}

impl From<SizeAdjustmentArg> for SizeAdjustment {
    fn from(value: SizeAdjustmentArg) -> (adjustment: SizeAdjustment) {
        match value {
            SizeAdjustmentArg::Increase => SizeAdjustment::Increase,
            SizeAdjustmentArg::Decrease => SizeAdjustment::Decrease,
            SizeAdjustmentArg::Reset => SizeAdjustment::Reset,
            SizeAdjustmentArg::SetTo => SizeAdjustment::SetTo,
        }
    }
}

impl FromSpecImpl<SizeAdjustmentArg> for SizeAdjustment {
    open spec fn obeys_from_spec() -> bool {
        true
    }

    open spec fn from_spec(value: SizeAdjustmentArg) -> SizeAdjustment {
        size_adjustment_of(value)
    }
}

/// A tab named relative to the active one.
#[derive(Clone, Copy, Debug, PartialEq, Eq, Structural)]
pub enum TabActivationTarget {
    Previous,
    Next,
    Last,
}

/// Where `auth api-key set` reads the key from: an environment variable or standard input.
/// Exactly one of the two is given on the command line.
#[derive(Clone, Debug, PartialEq, Eq)]
pub struct ApiKeySourceArgs {
    pub key_env: Option<String>,
    pub key_stdin: bool,
}

#[derive(Clone, Debug, PartialEq, Eq)]
pub struct ApiKeySetArgs {
    pub target: TargetArgs,
    pub source: ApiKeySourceArgs,
}

/// Every command-line choice converts to the library value of the same name, so no two
/// choices convert to the same value: a drive object type stays that type, a direction that
/// direction, a close scope that scope, an input mode that mode, an adjustment that
/// adjustment.
pub proof fn lemma_arguments_convert_name_for_name(
    kind: DriveObjectTypeArg,
    other_kind: DriveObjectTypeArg,
    pane: PaneDirectionArg,
    other_pane: PaneDirectionArg,
    horizontal: HorizontalDirectionArg,
    other_horizontal: HorizontalDirectionArg,
    scope: TabCloseScopeArg,
    other_scope: TabCloseScopeArg,
    mode: InputModeArg,
    other_mode: InputModeArg,
    adjustment: SizeAdjustmentArg,
    other_adjustment: SizeAdjustmentArg,
)
    ensures
        drive_object_type_of(DriveObjectTypeArg::Workflow) == DriveObjectType::Workflow,
        drive_object_type_of(DriveObjectTypeArg::Notebook) == DriveObjectType::Notebook,
        drive_object_type_of(DriveObjectTypeArg::Environment) == DriveObjectType::Environment,
        drive_object_type_of(DriveObjectTypeArg::Prompt) == DriveObjectType::Prompt,
        pane_direction_of(PaneDirectionArg::Left) == PaneDirection::Left,
        pane_direction_of(PaneDirectionArg::Right) == PaneDirection::Right,
        pane_direction_of(PaneDirectionArg::Up) == PaneDirection::Up,
        pane_direction_of(PaneDirectionArg::Down) == PaneDirection::Down,
        horizontal_direction_of(HorizontalDirectionArg::Left) == HorizontalDirection::Left,
        horizontal_direction_of(HorizontalDirectionArg::Right) == HorizontalDirection::Right,
        tab_close_scope_of(TabCloseScopeArg::Target) == TabCloseScope::Target,
        tab_close_scope_of(TabCloseScopeArg::Others) == TabCloseScope::Others,
        tab_close_scope_of(TabCloseScopeArg::Right) == TabCloseScope::Right,
        input_mode_of(InputModeArg::Terminal) == InputMode::Terminal,
        input_mode_of(InputModeArg::Agent) == InputMode::Agent,
        size_adjustment_of(SizeAdjustmentArg::Increase) == SizeAdjustment::Increase,
        size_adjustment_of(SizeAdjustmentArg::Decrease) == SizeAdjustment::Decrease,
        size_adjustment_of(SizeAdjustmentArg::Reset) == SizeAdjustment::Reset,
        size_adjustment_of(SizeAdjustmentArg::SetTo) == SizeAdjustment::SetTo,
        drive_object_type_of(kind) == drive_object_type_of(other_kind) ==> kind == other_kind,
        pane_direction_of(pane) == pane_direction_of(other_pane) ==> pane == other_pane,
        horizontal_direction_of(horizontal) == horizontal_direction_of(other_horizontal) ==> horizontal
            == other_horizontal,
        tab_close_scope_of(scope) == tab_close_scope_of(other_scope) ==> scope == other_scope,
        input_mode_of(mode) == input_mode_of(other_mode) ==> mode == other_mode,
        size_adjustment_of(adjustment) == size_adjustment_of(other_adjustment) ==> adjustment
            == other_adjustment,
{
}

} // verus!

use vstd::prelude::*;

use crate::cli_args::{
    drive_object_type_of, horizontal_direction_of, input_mode_of, pane_direction_of,
    size_adjustment_of, tab_close_scope_of, ActionGetArgs, AppSurfaceArgs, AppearanceAdjustArgs,
    AppearanceSetArgs, BlockGetArgs, FileDeleteArgs, FileOpenArgs, FileWriteArgs, InputInsertArgs,
    InputMode, InputModeArgs, InputRunArgs, InputTextArgs, LimitTargetArgs, SettingGetArgs,
    SettingSetArgsCli, SettingToggleArgsCli, SizeAdjustment, ThemeSetArgs, WindowCloseArgs,
    WindowCreateArgs, DriveCreateArgs, DriveGetArgs, DriveListArgs, DriveObjectMutationArgs,
    DriveObjectType, DriveUpdateArgs, HorizontalDirection, PaneCloseArgs, PaneDirection,
    PaneMaximizeArgs, PaneNavigateArgs, PaneResizeArgs, PaneSplitArgs, TabActivationTarget,
    TabCloseArgs, TabCloseScope, TabMoveArgs, TabRenameArgs, TargetArgs,
};
use crate::cli_commands::{
    json_or_text, json_value_or_string, planned, ActionKind, ActionParams, PlannedAction,
};

verus! {

/// Local discovery commands; they never reach an app instance.
#[derive(Clone, Debug, PartialEq, Eq)]
pub enum InstanceCommand {
    List,
}

#[derive(Clone, Debug, PartialEq, Eq)]
pub enum AppCommand {
    Ping(TargetArgs),
    Version(TargetArgs),
    Active(TargetArgs),
    Inspect(TargetArgs),
    Focus(TargetArgs),
    SettingsOpen(AppSurfaceArgs),
    CommandPaletteOpen(AppSurfaceArgs),
    CommandSearchOpen(AppSurfaceArgs),
    WarpDriveOpen(AppSurfaceArgs),
    WarpDriveToggle(AppSurfaceArgs),
    ResourceCenterToggle(AppSurfaceArgs),
    AiAssistantToggle(AppSurfaceArgs),
    CodeReviewToggle(AppSurfaceArgs),
    VerticalTabsToggle(AppSurfaceArgs),
}

pub open spec fn surface_plan(args: AppSurfaceArgs, action: ActionKind) -> PlannedAction {
    planned(args.target, action, ActionParams::AppSurface { query: args.query, page: args.page })
}

/// The action that an `app` subcommand sends.
pub open spec fn app_command_plan(command: AppCommand) -> PlannedAction {
    match command {
        AppCommand::Ping(args) => planned(args, ActionKind::AppPing, ActionParams::Empty),
        AppCommand::Version(args) => planned(args, ActionKind::AppVersion, ActionParams::Empty),
        AppCommand::Active(args) => planned(args, ActionKind::AppActive, ActionParams::Empty),
        AppCommand::Inspect(args) => planned(args, ActionKind::AppInspect, ActionParams::Empty),
        AppCommand::Focus(args) => planned(args, ActionKind::AppFocus, ActionParams::Empty),
        AppCommand::SettingsOpen(args) => surface_plan(args, ActionKind::AppSettingsOpen),
        AppCommand::CommandPaletteOpen(args) => surface_plan(args, ActionKind::AppCommandPaletteOpen),
        AppCommand::CommandSearchOpen(args) => surface_plan(args, ActionKind::AppCommandSearchOpen),
        AppCommand::WarpDriveOpen(args) => surface_plan(args, ActionKind::AppWarpDriveOpen),
        AppCommand::WarpDriveToggle(args) => surface_plan(args, ActionKind::AppWarpDriveToggle),
        AppCommand::ResourceCenterToggle(args) => surface_plan(
            args,
            ActionKind::AppResourceCenterToggle,
        ),
        AppCommand::AiAssistantToggle(args) => surface_plan(args, ActionKind::AppAiAssistantToggle),
        AppCommand::CodeReviewToggle(args) => surface_plan(args, ActionKind::AppCodeReviewToggle),
        AppCommand::VerticalTabsToggle(args) => surface_plan(
            args,
            ActionKind::AppVerticalTabsToggle,
        ),
    }
}

fn app_surface_action(args: AppSurfaceArgs, action: ActionKind) -> (plan: PlannedAction)
    ensures
        plan == surface_plan(args, action),
{
    PlannedAction {
        target: args.target,
        action,
        params: ActionParams::AppSurface { query: args.query, page: args.page },
    }
}

/// Resolves an `app` subcommand to the action it sends and that action's parameters.
pub fn app_command_action(command: AppCommand) -> (plan: PlannedAction)
    ensures
        plan == app_command_plan(command),
{
    match command {
        AppCommand::Ping(args) => PlannedAction {
            target: args,
            action: ActionKind::AppPing,
            params: ActionParams::Empty,
        },
        AppCommand::Version(args) => PlannedAction {
            target: args,
            action: ActionKind::AppVersion,
            params: ActionParams::Empty,
        },
        AppCommand::Active(args) => PlannedAction {
            target: args,
            action: ActionKind::AppActive,
            params: ActionParams::Empty,
        },
        AppCommand::Inspect(args) => PlannedAction {
            target: args,
            action: ActionKind::AppInspect,
            params: ActionParams::Empty,
        },
        AppCommand::Focus(args) => PlannedAction {
            target: args,
            action: ActionKind::AppFocus,
            params: ActionParams::Empty,
        },
        AppCommand::SettingsOpen(args) => app_surface_action(args, ActionKind::AppSettingsOpen),
        AppCommand::CommandPaletteOpen(args) => app_surface_action(
            args,
            ActionKind::AppCommandPaletteOpen,
        ),
        AppCommand::CommandSearchOpen(args) => app_surface_action(
            args,
            ActionKind::AppCommandSearchOpen,
        ),
        AppCommand::WarpDriveOpen(args) => app_surface_action(args, ActionKind::AppWarpDriveOpen),
        AppCommand::WarpDriveToggle(args) => app_surface_action(
            args,
            ActionKind::AppWarpDriveToggle,
        ),
        AppCommand::ResourceCenterToggle(args) => app_surface_action(
            args,
            ActionKind::AppResourceCenterToggle,
        ),
        AppCommand::AiAssistantToggle(args) => app_surface_action(
            args,
            ActionKind::AppAiAssistantToggle,
        ),
        AppCommand::CodeReviewToggle(args) => app_surface_action(
            args,
            ActionKind::AppCodeReviewToggle,
        ),
        AppCommand::VerticalTabsToggle(args) => app_surface_action(
            args,
            ActionKind::AppVerticalTabsToggle,
        ),
    }
}

#[derive(Clone, Debug, PartialEq, Eq)]
pub enum TabCommand {
    List(TargetArgs),
    Create(TargetArgs),
    Activate(TargetArgs),
    Previous(TargetArgs),
    Next(TargetArgs),
    Last(TargetArgs),
    Move(TabMoveArgs),
    Rename(TabRenameArgs),
    Close(TabCloseArgs),
}

pub open spec fn relative_plan(args: TargetArgs, relative: TabActivationTarget) -> PlannedAction {
    planned(args, ActionKind::TabActivate, ActionParams::TabActivate { relative: Some(relative) })
}

/// The action that a `tab` subcommand sends. `rename --reset` sends no title, whatever
/// title was given.
pub open spec fn tab_command_plan(command: TabCommand) -> PlannedAction {
    match command {
        TabCommand::List(args) => planned(args, ActionKind::TabList, ActionParams::Empty),
        TabCommand::Create(args) => planned(args, ActionKind::TabCreate, ActionParams::Empty),
        TabCommand::Activate(args) => planned(
            args,
            ActionKind::TabActivate,
            ActionParams::TabActivate { relative: None },
        ),
        TabCommand::Previous(args) => relative_plan(args, TabActivationTarget::Previous),
        TabCommand::Next(args) => relative_plan(args, TabActivationTarget::Next),
        TabCommand::Last(args) => relative_plan(args, TabActivationTarget::Last),
        TabCommand::Move(args) => planned(
            args.target,
            ActionKind::TabMove,
            ActionParams::TabMove { direction: horizontal_direction_of(args.direction) },
        ),
        TabCommand::Rename(args) => planned(
            args.target,
            ActionKind::TabRename,
            ActionParams::TabRename {
                title: if args.reset {
                    None
                } else {
                    args.title
                },
            },
        ),
        TabCommand::Close(args) => planned(
            args.target,
            ActionKind::TabClose,
            ActionParams::TabClose { scope: tab_close_scope_of(args.scope), force: args.force },
        ),
    }
}

fn tab_activate_relative(args: TargetArgs, relative: TabActivationTarget) -> (plan: PlannedAction)
    ensures
        plan == relative_plan(args, relative),
{
    PlannedAction {
        target: args,
        action: ActionKind::TabActivate,
        params: ActionParams::TabActivate { relative: Some(relative) },
    }
}

/// Resolves a `tab` subcommand to the action it sends and that action's parameters.
pub fn tab_command_action(command: TabCommand) -> (plan: PlannedAction)
    ensures
        plan == tab_command_plan(command),
{
    match command {
        TabCommand::List(args) => PlannedAction {
            target: args,
            action: ActionKind::TabList,
            params: ActionParams::Empty,
        },
        TabCommand::Create(args) => PlannedAction {
            target: args,
            action: ActionKind::TabCreate,
            params: ActionParams::Empty,
        },
        TabCommand::Activate(args) => PlannedAction {
            target: args,
            action: ActionKind::TabActivate,
            params: ActionParams::TabActivate { relative: None },
        },
        TabCommand::Previous(args) => tab_activate_relative(args, TabActivationTarget::Previous),
        TabCommand::Next(args) => tab_activate_relative(args, TabActivationTarget::Next),
        TabCommand::Last(args) => tab_activate_relative(args, TabActivationTarget::Last),
        TabCommand::Move(args) => PlannedAction {
            target: args.target,
            action: ActionKind::TabMove,
            params: ActionParams::TabMove { direction: HorizontalDirection::from(args.direction) },
        },
        TabCommand::Rename(args) => PlannedAction {
            target: args.target,
            action: ActionKind::TabRename,
            params: ActionParams::TabRename {
                title: if args.reset {
                    None
                } else {
                    args.title
                },
            },
        },
        TabCommand::Close(args) => PlannedAction {
            target: args.target,
            action: ActionKind::TabClose,
            params: ActionParams::TabClose {
                scope: TabCloseScope::from(args.scope),
                force: args.force,
            },
        },
    }
}

#[derive(Clone, Debug, PartialEq, Eq)]
pub enum PaneCommand {
    List(TargetArgs),
    Split(PaneSplitArgs),
    Focus(TargetArgs),
    Navigate(PaneNavigateArgs),
    Close(PaneCloseArgs),
    Maximize(PaneMaximizeArgs),
    Resize(PaneResizeArgs),
    PreviousSession(TargetArgs),
    NextSession(TargetArgs),
}

/// The action that a `pane` subcommand sends.
pub open spec fn pane_command_plan(command: PaneCommand) -> PlannedAction {
    match command {
        PaneCommand::List(args) => planned(args, ActionKind::PaneList, ActionParams::Empty),
        PaneCommand::Split(args) => planned(
            args.target,
            ActionKind::PaneSplit,
            ActionParams::PaneSplit {
                direction: pane_direction_of(args.direction),
                profile: args.profile,
            },
        ),
        PaneCommand::Focus(args) => planned(args, ActionKind::PaneFocus, ActionParams::Empty),
        PaneCommand::Navigate(args) => planned(
            args.target,
            ActionKind::PaneNavigate,
            ActionParams::PaneNavigate { direction: pane_direction_of(args.direction) },
        ),
        PaneCommand::Close(args) => planned(
            args.target,
            ActionKind::PaneClose,
            ActionParams::PaneClose { force: args.force },
        ),
        PaneCommand::Maximize(args) => planned(
            args.target,
            ActionKind::PaneMaximize,
            ActionParams::PaneMaximize { enabled: args.enabled },
        ),
        PaneCommand::Resize(args) => planned(
            args.target,
            ActionKind::PaneResize,
            ActionParams::PaneResize {
                direction: pane_direction_of(args.direction),
                amount: args.amount,
            },
        ),
        PaneCommand::PreviousSession(args) => planned(
            args,
            ActionKind::PaneSessionPrevious,
            ActionParams::Empty,
        ),
        PaneCommand::NextSession(args) => planned(
            args,
            ActionKind::PaneSessionNext,
            ActionParams::Empty,
        ),
    }
}

/// Resolves a `pane` subcommand to the action it sends and that action's parameters.
pub fn pane_command_action(command: PaneCommand) -> (plan: PlannedAction)
    ensures
        plan == pane_command_plan(command),
{
    match command {
        PaneCommand::List(args) => PlannedAction {
            target: args,
            action: ActionKind::PaneList,
            params: ActionParams::Empty,
        },
        PaneCommand::Split(args) => PlannedAction {
            target: args.target,
            action: ActionKind::PaneSplit,
            params: ActionParams::PaneSplit {
                direction: PaneDirection::from(args.direction),
                profile: args.profile,
            },
        },
        PaneCommand::Focus(args) => PlannedAction {
            target: args,
            action: ActionKind::PaneFocus,
            params: ActionParams::Empty,
        },
        PaneCommand::Navigate(args) => PlannedAction {
            target: args.target,
            action: ActionKind::PaneNavigate,
            params: ActionParams::PaneNavigate { direction: PaneDirection::from(args.direction) },
        },
        PaneCommand::Close(args) => PlannedAction {
            target: args.target,
            action: ActionKind::PaneClose,
            params: ActionParams::PaneClose { force: args.force },
        },
        PaneCommand::Maximize(args) => PlannedAction {
            target: args.target,
            action: ActionKind::PaneMaximize,
            params: ActionParams::PaneMaximize { enabled: args.enabled },
        },
        PaneCommand::Resize(args) => PlannedAction {
            target: args.target,
            action: ActionKind::PaneResize,
            params: ActionParams::PaneResize {
                direction: PaneDirection::from(args.direction),
                amount: args.amount,
            },
        },
        PaneCommand::PreviousSession(args) => PlannedAction {
            target: args,
            action: ActionKind::PaneSessionPrevious,
            params: ActionParams::Empty,
        },
        PaneCommand::NextSession(args) => PlannedAction {
            target: args,
            action: ActionKind::PaneSessionNext,
            params: ActionParams::Empty,
        },
    }
}

#[derive(Clone, Debug, PartialEq, Eq)]
pub enum DriveCommand {
    List(DriveListArgs),
    Get(DriveGetArgs),
    Create(DriveCreateArgs),
    Update(DriveUpdateArgs),
    Delete(DriveObjectMutationArgs),
    Run(DriveObjectMutationArgs),
    Insert(DriveObjectMutationArgs),
}

pub open spec fn optional_drive_type_of(value: Option<crate::cli_args::DriveObjectTypeArg>) -> Option<
    DriveObjectType,
> {
    match value {
        Some(kind) => Some(drive_object_type_of(kind)),
        None => None,
    }
}

/// The action that a `drive` subcommand sends.
pub open spec fn drive_command_plan(command: DriveCommand) -> PlannedAction {
    match command {
        DriveCommand::List(args) => planned(
            args.target,
            ActionKind::DriveList,
            ActionParams::DriveList { object_type: optional_drive_type_of(args.object_type) },
        ),
        DriveCommand::Get(args) => planned(
            args.target,
            ActionKind::DriveGet,
            ActionParams::DriveGet { object_type: drive_object_type_of(args.object_type), id: args.id },
        ),
        DriveCommand::Create(args) => planned(
            args.target,
            ActionKind::DriveCreate,
            ActionParams::DriveCreate {
                object_type: drive_object_type_of(args.object_type),
                name: args.name,
                content: json_or_text(args.content),
            },
        ),
        DriveCommand::Update(args) => planned(
            args.target,
            ActionKind::DriveUpdate,
            ActionParams::DriveUpdate {
                object_type: drive_object_type_of(args.object_type),
                id: args.id,
                content: json_or_text(args.content),
            },
        ),
        DriveCommand::Delete(args) => planned(
            args.target,
            ActionKind::DriveDelete,
            ActionParams::DriveDelete {
                object_type: drive_object_type_of(args.object_type),
                id: args.id,
            },
        ),
        DriveCommand::Run(args) => planned(
            args.target,
            ActionKind::DriveRun,
            ActionParams::DriveRun { object_type: drive_object_type_of(args.object_type), id: args.id },
        ),
        DriveCommand::Insert(args) => planned(
            args.target,
            ActionKind::DriveInsert,
            ActionParams::DriveInsert {
                object_type: drive_object_type_of(args.object_type),
                id: args.id,
            },
        ),
    }
}

/// Resolves a `drive` subcommand to the action it sends and that action's parameters.
pub fn drive_command_action(command: DriveCommand) -> (plan: PlannedAction)
    ensures
        plan == drive_command_plan(command),
{
    match command {
        DriveCommand::List(args) => {
            let object_type = match args.object_type {
                Some(kind) => Some(DriveObjectType::from(kind)),
                None => None,
            };
            PlannedAction {
                target: args.target,
                action: ActionKind::DriveList,
                params: ActionParams::DriveList { object_type },
            }
        },
        DriveCommand::Get(args) => PlannedAction {
            target: args.target,
            action: ActionKind::DriveGet,
            params: ActionParams::DriveGet {
                object_type: DriveObjectType::from(args.object_type),
                id: args.id,
            },
        },
        DriveCommand::Create(args) => PlannedAction {
            target: args.target,
            action: ActionKind::DriveCreate,
            params: ActionParams::DriveCreate {
                object_type: DriveObjectType::from(args.object_type),
                name: args.name,
                content: json_value_or_string(args.content),
            },
        },
        DriveCommand::Update(args) => PlannedAction {
            target: args.target,
            action: ActionKind::DriveUpdate,
            params: ActionParams::DriveUpdate {
                object_type: DriveObjectType::from(args.object_type),
                id: args.id,
                content: json_value_or_string(args.content),
            },
        },
        DriveCommand::Delete(args) => PlannedAction {
            target: args.target,
            action: ActionKind::DriveDelete,
            params: ActionParams::DriveDelete {
                object_type: DriveObjectType::from(args.object_type),
                id: args.id,
            },
        },
        DriveCommand::Run(args) => PlannedAction {
            target: args.target,
            action: ActionKind::DriveRun,
            params: ActionParams::DriveRun {
                object_type: DriveObjectType::from(args.object_type),
                id: args.id,
            },
        },
        DriveCommand::Insert(args) => PlannedAction {
            target: args.target,
            action: ActionKind::DriveInsert,
            params: ActionParams::DriveInsert {
                object_type: DriveObjectType::from(args.object_type),
                id: args.id,
            },
        },
    }
}

#[derive(Clone, Debug, PartialEq, Eq)]
pub enum ActionCommand {
    List(TargetArgs),
    Get(ActionGetArgs),
}

/// The action that an `action` subcommand sends.
pub open spec fn action_command_plan(command: ActionCommand) -> PlannedAction {
    match command {
        ActionCommand::List(args) => planned(args, ActionKind::ActionList, ActionParams::Empty),
        ActionCommand::Get(args) => planned(
            args.target,
            ActionKind::ActionGet,
            ActionParams::ActionGet { action: args.action },
        ),
    }
}

/// Resolves an `action` subcommand to the action it sends and that action's parameters.
pub fn action_command_action(command: ActionCommand) -> (plan: PlannedAction)
    ensures
        plan == action_command_plan(command),
{
    match command {
        ActionCommand::List(args) => PlannedAction {
            target: args,
            action: ActionKind::ActionList,
            params: ActionParams::Empty,
        },
        ActionCommand::Get(args) => PlannedAction {
            target: args.target,
            action: ActionKind::ActionGet,
            params: ActionParams::ActionGet { action: args.action },
        },
    }
}

#[derive(Clone, Debug, PartialEq, Eq)]
pub enum WindowCommand {
    List(TargetArgs),
    Create(WindowCreateArgs),
    Focus(TargetArgs),
    Close(WindowCloseArgs),
}

/// The action that a `window` subcommand sends.
pub open spec fn window_command_plan(command: WindowCommand) -> PlannedAction {
    match command {
        WindowCommand::List(args) => planned(args, ActionKind::WindowList, ActionParams::Empty),
        WindowCommand::Create(args) => planned(
            args.target,
            ActionKind::WindowCreate,
            ActionParams::WindowCreate { profile: args.profile },
        ),
        WindowCommand::Focus(args) => planned(args, ActionKind::WindowFocus, ActionParams::Empty),
        WindowCommand::Close(args) => planned(
            args.target,
            ActionKind::WindowClose,
            ActionParams::WindowClose { force: args.force },
        ),
    }
}

/// Resolves a `window` subcommand to the action it sends and that action's parameters.
pub fn window_command_action(command: WindowCommand) -> (plan: PlannedAction)
    ensures
        plan == window_command_plan(command),
{
    match command {
        WindowCommand::List(args) => PlannedAction {
            target: args,
            action: ActionKind::WindowList,
            params: ActionParams::Empty,
        },
        WindowCommand::Create(args) => PlannedAction {
            target: args.target,
            action: ActionKind::WindowCreate,
            params: ActionParams::WindowCreate { profile: args.profile },
        },
        WindowCommand::Focus(args) => PlannedAction {
            target: args,
            action: ActionKind::WindowFocus,
            params: ActionParams::Empty,
        },
        WindowCommand::Close(args) => PlannedAction {
            target: args.target,
            action: ActionKind::WindowClose,
            params: ActionParams::WindowClose { force: args.force },
        },
    }
}

#[derive(Clone, Debug, PartialEq, Eq)]
pub enum SessionCommand {
    List(TargetArgs),
}

/// Resolves a `session` subcommand to the action it sends.
pub fn session_command_action(command: SessionCommand) -> (plan: PlannedAction)
    ensures
        command matches SessionCommand::List(args) && plan == planned(
            args,
            ActionKind::SessionList,
            ActionParams::Empty,
        ),
{
    match command {
        SessionCommand::List(args) => PlannedAction {
            target: args,
            action: ActionKind::SessionList,
            params: ActionParams::Empty,
        },
    }
}

#[derive(Clone, Debug, PartialEq, Eq)]
pub enum BlockCommand {
    List(LimitTargetArgs),
    Get(BlockGetArgs),
}

/// The action that a `block` subcommand sends.
pub open spec fn block_command_plan(command: BlockCommand) -> PlannedAction {
    match command {
        BlockCommand::List(args) => planned(
            args.target,
            ActionKind::BlockList,
            ActionParams::BlockList { limit: args.limit },
        ),
        BlockCommand::Get(args) => planned(
            args.target,
            ActionKind::BlockGet,
            ActionParams::BlockGet { block_id: args.block_id },
        ),
    }
}

/// Resolves a `block` subcommand to the action it sends and that action's parameters.
pub fn block_command_action(command: BlockCommand) -> (plan: PlannedAction)
    ensures
        plan == block_command_plan(command),
{
    match command {
        BlockCommand::List(args) => PlannedAction {
            target: args.target,
            action: ActionKind::BlockList,
            params: ActionParams::BlockList { limit: args.limit },
        },
        BlockCommand::Get(args) => PlannedAction {
            target: args.target,
            action: ActionKind::BlockGet,
            params: ActionParams::BlockGet { block_id: args.block_id },
        },
    }
}

#[derive(Clone, Debug, PartialEq, Eq)]
pub enum InputCommand {
    Get(TargetArgs),
    Insert(InputInsertArgs),
    Replace(InputTextArgs),
    Clear(TargetArgs),
    Mode(InputModeArgs),
    Run(InputRunArgs),
}

/// The action that an `input` subcommand sends.
pub open spec fn input_command_plan(command: InputCommand) -> PlannedAction {
    match command {
        InputCommand::Get(args) => planned(args, ActionKind::InputGet, ActionParams::Empty),
        InputCommand::Insert(args) => planned(
            args.target,
            ActionKind::InputInsert,
            ActionParams::InputInsert { text: args.text, replace: args.replace },
        ),
        InputCommand::Replace(args) => planned(
            args.target,
            ActionKind::InputReplace,
            ActionParams::InputReplace { text: args.text },
        ),
        InputCommand::Clear(args) => planned(args, ActionKind::InputClear, ActionParams::Empty),
        InputCommand::Mode(args) => planned(
            args.target,
            ActionKind::InputModeSet,
            ActionParams::InputModeSet { mode: input_mode_of(args.mode) },
        ),
        InputCommand::Run(args) => planned(
            args.target,
            ActionKind::InputRun,
            ActionParams::InputRun { command: args.command },
        ),
    }
}

/// Resolves an `input` subcommand to the action it sends and that action's parameters.
pub fn input_command_action(command: InputCommand) -> (plan: PlannedAction)
    ensures
        plan == input_command_plan(command),
{
    match command {
        InputCommand::Get(args) => PlannedAction {
            target: args,
            action: ActionKind::InputGet,
            params: ActionParams::Empty,
        },
        InputCommand::Insert(args) => PlannedAction {
            target: args.target,
            action: ActionKind::InputInsert,
            params: ActionParams::InputInsert { text: args.text, replace: args.replace },
        },
        InputCommand::Replace(args) => PlannedAction {
            target: args.target,
            action: ActionKind::InputReplace,
            params: ActionParams::InputReplace { text: args.text },
        },
        InputCommand::Clear(args) => PlannedAction {
            target: args,
            action: ActionKind::InputClear,
            params: ActionParams::Empty,
        },
        InputCommand::Mode(args) => PlannedAction {
            target: args.target,
            action: ActionKind::InputModeSet,
            params: ActionParams::InputModeSet { mode: InputMode::from(args.mode) },
        },
        InputCommand::Run(args) => PlannedAction {
            target: args.target,
            action: ActionKind::InputRun,
            params: ActionParams::InputRun { command: args.command },
        },
    }
}

#[derive(Clone, Debug, PartialEq, Eq)]
pub enum HistoryCommand {
    List(LimitTargetArgs),
}

/// Resolves a `history` subcommand to the action it sends and that action's parameters.
pub fn history_command_action(command: HistoryCommand) -> (plan: PlannedAction)
    ensures
        command matches HistoryCommand::List(args) && plan == planned(
            args.target,
            ActionKind::HistoryList,
            ActionParams::HistoryList { limit: args.limit },
        ),
{
    match command {
        HistoryCommand::List(args) => PlannedAction {
            target: args.target,
            action: ActionKind::HistoryList,
            params: ActionParams::HistoryList { limit: args.limit },
        },
    }
}

#[derive(Clone, Debug, PartialEq, Eq)]
pub enum ThemeCommand {
    List(TargetArgs),
    SetTo(ThemeSetArgs),
}

/// The action that a `theme` subcommand sends.
pub open spec fn theme_command_plan(command: ThemeCommand) -> PlannedAction {
    match command {
        ThemeCommand::List(args) => planned(args, ActionKind::ThemeList, ActionParams::Empty),
        ThemeCommand::SetTo(args) => planned(
            args.target,
            ActionKind::ThemeSet,
            ActionParams::ThemeSet { name: args.name },
        ),
    }
}

/// Resolves a `theme` subcommand to the action it sends and that action's parameters.
pub fn theme_command_action(command: ThemeCommand) -> (plan: PlannedAction)
    ensures
        plan == theme_command_plan(command),
{
    match command {
        ThemeCommand::List(args) => PlannedAction {
            target: args,
            action: ActionKind::ThemeList,
            params: ActionParams::Empty,
        },
        ThemeCommand::SetTo(args) => PlannedAction {
            target: args.target,
            action: ActionKind::ThemeSet,
            params: ActionParams::ThemeSet { name: args.name },
        },
    }
}

#[derive(Clone, Debug, PartialEq, Eq)]
pub enum AppearanceCommand {
    Get(TargetArgs),
    SetTo(AppearanceSetArgs),
    FontSize(AppearanceAdjustArgs),
    Zoom(AppearanceAdjustArgs),
}

/// The action that an `appearance` subcommand sends.
pub open spec fn appearance_command_plan(command: AppearanceCommand) -> PlannedAction {
    match command {
        AppearanceCommand::Get(args) => planned(args, ActionKind::AppearanceGet, ActionParams::Empty),
        AppearanceCommand::SetTo(args) => planned(
            args.target,
            ActionKind::AppearanceSet,
            ActionParams::AppearanceSet {
                theme: args.theme,
                follow_system_theme: args.follow_system_theme,
                light_theme: args.light_theme,
                dark_theme: args.dark_theme,
            },
        ),
        AppearanceCommand::FontSize(args) => planned(
            args.target,
            ActionKind::AppearanceFontSize,
            ActionParams::AppearanceFontSize {
                adjustment: size_adjustment_of(args.adjustment),
                value: args.value,
            },
        ),
        AppearanceCommand::Zoom(args) => planned(
            args.target,
            ActionKind::AppearanceZoom,
            ActionParams::AppearanceZoom {
                adjustment: size_adjustment_of(args.adjustment),
                value: args.value,
            },
        ),
    }
}

/// Resolves an `appearance` subcommand to the action it sends and that action's parameters.
pub fn appearance_command_action(command: AppearanceCommand) -> (plan: PlannedAction)
    ensures
        plan == appearance_command_plan(command),
{
    match command {
        AppearanceCommand::Get(args) => PlannedAction {
            target: args,
            action: ActionKind::AppearanceGet,
            params: ActionParams::Empty,
        },
        AppearanceCommand::SetTo(args) => PlannedAction {
            target: args.target,
            action: ActionKind::AppearanceSet,
            params: ActionParams::AppearanceSet {
                theme: args.theme,
                follow_system_theme: args.follow_system_theme,
                light_theme: args.light_theme,
                dark_theme: args.dark_theme,
            },
        },
        AppearanceCommand::FontSize(args) => PlannedAction {
            target: args.target,
            action: ActionKind::AppearanceFontSize,
            params: ActionParams::AppearanceFontSize {
                adjustment: SizeAdjustment::from(args.adjustment),
                value: args.value,
            },
        },
        AppearanceCommand::Zoom(args) => PlannedAction {
            target: args.target,
            action: ActionKind::AppearanceZoom,
            params: ActionParams::AppearanceZoom {
                adjustment: SizeAdjustment::from(args.adjustment),
                value: args.value,
            },
        },
    }
}

#[derive(Clone, Debug, PartialEq, Eq)]
pub enum SettingCommand {
    List(TargetArgs),
    Get(SettingGetArgs),
    SetTo(SettingSetArgsCli),
    Toggle(SettingToggleArgsCli),
}

/// The action that a `setting` subcommand sends.
pub open spec fn setting_command_plan(command: SettingCommand) -> PlannedAction {
    match command {
        SettingCommand::List(args) => planned(args, ActionKind::SettingList, ActionParams::Empty),
        SettingCommand::Get(args) => planned(
            args.target,
            ActionKind::SettingGet,
            ActionParams::SettingGet { key: args.key },
        ),
        SettingCommand::SetTo(args) => planned(
            args.target,
            ActionKind::SettingSet,
            ActionParams::SettingSet { key: args.key, value: json_or_text(args.value) },
        ),
        SettingCommand::Toggle(args) => planned(
            args.target,
            ActionKind::SettingToggle,
            ActionParams::SettingToggle { key: args.key },
        ),
    }
}

/// Resolves a `setting` subcommand to the action it sends and that action's parameters.
pub fn setting_command_action(command: SettingCommand) -> (plan: PlannedAction)
    ensures
        plan == setting_command_plan(command),
{
    match command {
        SettingCommand::List(args) => PlannedAction {
            target: args,
            action: ActionKind::SettingList,
            params: ActionParams::Empty,
        },
        SettingCommand::Get(args) => PlannedAction {
            target: args.target,
            action: ActionKind::SettingGet,
            params: ActionParams::SettingGet { key: args.key },
        },
        SettingCommand::SetTo(args) => PlannedAction {
            target: args.target,
            action: ActionKind::SettingSet,
            params: ActionParams::SettingSet { key: args.key, value: json_value_or_string(args.value) },
        },
        SettingCommand::Toggle(args) => PlannedAction {
            target: args.target,
            action: ActionKind::SettingToggle,
            params: ActionParams::SettingToggle { key: args.key },
        },
    }
}

#[derive(Clone, Debug, PartialEq, Eq)]
pub enum FileCommand {
    List(TargetArgs),
    Open(FileOpenArgs),
    Write(FileWriteArgs),
    Delete(FileDeleteArgs),
}

/// The action that a `file` subcommand sends.
pub open spec fn file_command_plan(command: FileCommand) -> PlannedAction {
    match command {
        FileCommand::List(args) => planned(args, ActionKind::FileList, ActionParams::Empty),
        FileCommand::Open(args) => planned(
            args.target,
            ActionKind::FileOpen,
            ActionParams::FileOpen { path: args.path, line: args.line, new_window: args.new_window },
        ),
        FileCommand::Write(args) => planned(
            args.target,
            ActionKind::FileWrite,
            ActionParams::FileWrite { path: args.path, contents: args.contents, create: args.create },
        ),
        FileCommand::Delete(args) => planned(
            args.target,
            ActionKind::FileDelete,
            ActionParams::FileDelete { path: args.path, recursive: args.recursive },
        ),
    }
}

/// Resolves a `file` subcommand to the action it sends and that action's parameters.
pub fn file_command_action(command: FileCommand) -> (plan: PlannedAction)
    ensures
        plan == file_command_plan(command),
{
    match command {
        FileCommand::List(args) => PlannedAction {
            target: args,
            action: ActionKind::FileList,
            params: ActionParams::Empty,
        },
        FileCommand::Open(args) => PlannedAction {
            target: args.target,
            action: ActionKind::FileOpen,
            params: ActionParams::FileOpen {
                path: args.path,
                line: args.line,
                new_window: args.new_window,
            },
        },
        FileCommand::Write(args) => PlannedAction {
            target: args.target,
            action: ActionKind::FileWrite,
            params: ActionParams::FileWrite {
                path: args.path,
                contents: args.contents,
                create: args.create,
            },
        },
        FileCommand::Delete(args) => PlannedAction {
            target: args.target,
            action: ActionKind::FileDelete,
            params: ActionParams::FileDelete { path: args.path, recursive: args.recursive },
        },
    }
}

#[derive(Clone, Debug, PartialEq, Eq)]
pub enum ProjectCommand {
    Active(TargetArgs),
    List(TargetArgs),
}

/// The action that a `project` subcommand sends.
pub open spec fn project_command_plan(command: ProjectCommand) -> PlannedAction {
    match command {
        ProjectCommand::Active(args) => planned(args, ActionKind::ProjectActive, ActionParams::Empty),
        ProjectCommand::List(args) => planned(args, ActionKind::ProjectList, ActionParams::Empty),
    }
}

/// Resolves a `project` subcommand to the action it sends.
pub fn project_command_action(command: ProjectCommand) -> (plan: PlannedAction)
    ensures
        plan == project_command_plan(command),
{
    match command {
        ProjectCommand::Active(args) => PlannedAction {
            target: args,
            action: ActionKind::ProjectActive,
            params: ActionParams::Empty,
        },
        ProjectCommand::List(args) => PlannedAction {
            target: args,
            action: ActionKind::ProjectList,
            params: ActionParams::Empty,
        },
    }
}

/// Authentication and scripting identity commands.
#[derive(Clone, Debug, PartialEq, Eq)]
pub enum AuthCommand {
    Status(TargetArgs),
    Login(TargetArgs),
    ApiKey(ApiKeySubcommand),
}

/// API-key management commands; the raw key never appears in their output.
#[derive(Clone, Debug, PartialEq, Eq)]
pub enum ApiKeySubcommand {
    SetTo(crate::cli_args::ApiKeySetArgs),
    Status(TargetArgs),
    Revoke(TargetArgs),
}

/// Each `tab` subcommand sends its own action to the instance its flags name, and the
/// relative subcommands carry their own relative target: `previous` the previous tab, `next`
/// the next one, `last` the last one; `activate` carries none.
pub proof fn lemma_tab_subcommands_keep_their_meaning(args: TargetArgs)
    ensures
        tab_command_plan(TabCommand::Previous(args)) == (PlannedAction {
            target: args,
            action: ActionKind::TabActivate,
            params: ActionParams::TabActivate { relative: Some(TabActivationTarget::Previous) },
        }),
        tab_command_plan(TabCommand::Next(args)) == (PlannedAction {
            target: args,
            action: ActionKind::TabActivate,
            params: ActionParams::TabActivate { relative: Some(TabActivationTarget::Next) },
        }),
        tab_command_plan(TabCommand::Last(args)) == (PlannedAction {
            target: args,
            action: ActionKind::TabActivate,
            params: ActionParams::TabActivate { relative: Some(TabActivationTarget::Last) },
        }),
        tab_command_plan(TabCommand::Activate(args)) == (PlannedAction {
            target: args,
            action: ActionKind::TabActivate,
            params: ActionParams::TabActivate { relative: None },
        }),
        tab_command_plan(TabCommand::List(args)) == (PlannedAction {
            target: args,
            action: ActionKind::TabList,
            params: ActionParams::Empty,
        }),
        tab_command_plan(TabCommand::Create(args)) == (PlannedAction {
            target: args,
            action: ActionKind::TabCreate,
            params: ActionParams::Empty,
        }),
{
}

/// Two different relative `tab` subcommands never plan the same request.
pub proof fn lemma_relative_tab_subcommands_differ(args: TargetArgs, first: TabCommand, second: TabCommand)
    requires
        first == TabCommand::Previous(args) || first == TabCommand::Next(args) || first == TabCommand::Last(args),
        second == TabCommand::Previous(args) || second == TabCommand::Next(args) || second == TabCommand::Last(args),
        first != second,
    ensures
        tab_command_plan(first) != tab_command_plan(second),
{
    lemma_tab_subcommands_keep_their_meaning(args);
}

/// Each `app` subcommand sends its own action, to the instance that its own
/// flags name.
pub proof fn lemma_app_subcommands_send_their_own_action(command: AppCommand)
    ensures
        app_command_plan(command).action == match command {
            AppCommand::Ping(_) => ActionKind::AppPing,
            AppCommand::Version(_) => ActionKind::AppVersion,
            AppCommand::Active(_) => ActionKind::AppActive,
            AppCommand::Inspect(_) => ActionKind::AppInspect,
            AppCommand::Focus(_) => ActionKind::AppFocus,
            AppCommand::SettingsOpen(_) => ActionKind::AppSettingsOpen,
            AppCommand::CommandPaletteOpen(_) => ActionKind::AppCommandPaletteOpen,
            AppCommand::CommandSearchOpen(_) => ActionKind::AppCommandSearchOpen,
            AppCommand::WarpDriveOpen(_) => ActionKind::AppWarpDriveOpen,
            AppCommand::WarpDriveToggle(_) => ActionKind::AppWarpDriveToggle,
            AppCommand::ResourceCenterToggle(_) => ActionKind::AppResourceCenterToggle,
            AppCommand::AiAssistantToggle(_) => ActionKind::AppAiAssistantToggle,
            AppCommand::CodeReviewToggle(_) => ActionKind::AppCodeReviewToggle,
            AppCommand::VerticalTabsToggle(_) => ActionKind::AppVerticalTabsToggle,
        },
        app_command_plan(command).target == match command {
            AppCommand::Ping(args) => args,
            AppCommand::Version(args) => args,
            AppCommand::Active(args) => args,
            AppCommand::Inspect(args) => args,
            AppCommand::Focus(args) => args,
            AppCommand::SettingsOpen(args) => args.target,
            AppCommand::CommandPaletteOpen(args) => args.target,
            AppCommand::CommandSearchOpen(args) => args.target,
            AppCommand::WarpDriveOpen(args) => args.target,
            AppCommand::WarpDriveToggle(args) => args.target,
            AppCommand::ResourceCenterToggle(args) => args.target,
            AppCommand::AiAssistantToggle(args) => args.target,
            AppCommand::CodeReviewToggle(args) => args.target,
            AppCommand::VerticalTabsToggle(args) => args.target,
        },
{
}

/// Each `tab` subcommand sends its own action, to the instance that its own
/// flags name.
pub proof fn lemma_tab_subcommands_send_their_own_action(command: TabCommand)
    ensures
        tab_command_plan(command).action == match command {
            TabCommand::List(_) => ActionKind::TabList,
            TabCommand::Create(_) => ActionKind::TabCreate,
            TabCommand::Activate(_) => ActionKind::TabActivate,
            TabCommand::Previous(_) => ActionKind::TabActivate,
            TabCommand::Next(_) => ActionKind::TabActivate,
            TabCommand::Last(_) => ActionKind::TabActivate,
            TabCommand::Move(_) => ActionKind::TabMove,
            TabCommand::Rename(_) => ActionKind::TabRename,
            TabCommand::Close(_) => ActionKind::TabClose,
        },
        tab_command_plan(command).target == match command {
            TabCommand::List(args) => args,
            TabCommand::Create(args) => args,
            TabCommand::Activate(args) => args,
            TabCommand::Previous(args) => args,
            TabCommand::Next(args) => args,
            TabCommand::Last(args) => args,
            TabCommand::Move(args) => args.target,
            TabCommand::Rename(args) => args.target,
            TabCommand::Close(args) => args.target,
        },
{
}

/// Each `pane` subcommand sends its own action, to the instance that its own
/// flags name.
pub proof fn lemma_pane_subcommands_send_their_own_action(command: PaneCommand)
    ensures
        pane_command_plan(command).action == match command {
            PaneCommand::List(_) => ActionKind::PaneList,
            PaneCommand::Split(_) => ActionKind::PaneSplit,
            PaneCommand::Focus(_) => ActionKind::PaneFocus,
            PaneCommand::Navigate(_) => ActionKind::PaneNavigate,
            PaneCommand::Close(_) => ActionKind::PaneClose,
            PaneCommand::Maximize(_) => ActionKind::PaneMaximize,
            PaneCommand::Resize(_) => ActionKind::PaneResize,
            PaneCommand::PreviousSession(_) => ActionKind::PaneSessionPrevious,
            PaneCommand::NextSession(_) => ActionKind::PaneSessionNext,
        },
        pane_command_plan(command).target == match command {
            PaneCommand::List(args) => args,
            PaneCommand::Split(args) => args.target,
            PaneCommand::Focus(args) => args,
            PaneCommand::Navigate(args) => args.target,
            PaneCommand::Close(args) => args.target,
            PaneCommand::Maximize(args) => args.target,
            PaneCommand::Resize(args) => args.target,
            PaneCommand::PreviousSession(args) => args,
            PaneCommand::NextSession(args) => args,
        },
{
}

/// Each `drive` subcommand sends its own action, to the instance that its own
/// flags name.
pub proof fn lemma_drive_subcommands_send_their_own_action(command: DriveCommand)
    ensures
        drive_command_plan(command).action == match command {
            DriveCommand::List(_) => ActionKind::DriveList,
            DriveCommand::Get(_) => ActionKind::DriveGet,
            DriveCommand::Create(_) => ActionKind::DriveCreate,
            DriveCommand::Update(_) => ActionKind::DriveUpdate,
            DriveCommand::Delete(_) => ActionKind::DriveDelete,
            DriveCommand::Run(_) => ActionKind::DriveRun,
            DriveCommand::Insert(_) => ActionKind::DriveInsert,
        },
        drive_command_plan(command).target == match command {
            DriveCommand::List(args) => args.target,
            DriveCommand::Get(args) => args.target,
            DriveCommand::Create(args) => args.target,
            DriveCommand::Update(args) => args.target,
            DriveCommand::Delete(args) => args.target,
            DriveCommand::Run(args) => args.target,
            DriveCommand::Insert(args) => args.target,
        },
{
}

/// Each `action` subcommand sends its own action, to the instance that its own
/// flags name.
pub proof fn lemma_action_subcommands_send_their_own_action(command: ActionCommand)
    ensures
        action_command_plan(command).action == match command {
            ActionCommand::List(_) => ActionKind::ActionList,
            ActionCommand::Get(_) => ActionKind::ActionGet,
        },
        action_command_plan(command).target == match command {
            ActionCommand::List(args) => args,
            ActionCommand::Get(args) => args.target,
        },
{
}

/// Each `window` subcommand sends its own action, to the instance that its own
/// flags name.
pub proof fn lemma_window_subcommands_send_their_own_action(command: WindowCommand)
    ensures
        window_command_plan(command).action == match command {
            WindowCommand::List(_) => ActionKind::WindowList,
            WindowCommand::Create(_) => ActionKind::WindowCreate,
            WindowCommand::Focus(_) => ActionKind::WindowFocus,
            WindowCommand::Close(_) => ActionKind::WindowClose,
        },
        window_command_plan(command).target == match command {
            WindowCommand::List(args) => args,
            WindowCommand::Create(args) => args.target,
            WindowCommand::Focus(args) => args,
            WindowCommand::Close(args) => args.target,
        },
{
}

/// Each `block` subcommand sends its own action, to the instance that its own
/// flags name.
pub proof fn lemma_block_subcommands_send_their_own_action(command: BlockCommand)
    ensures
        block_command_plan(command).action == match command {
            BlockCommand::List(_) => ActionKind::BlockList,
            BlockCommand::Get(_) => ActionKind::BlockGet,
        },
        block_command_plan(command).target == match command {
            BlockCommand::List(args) => args.target,
            BlockCommand::Get(args) => args.target,
        },
{
}

/// Each `input` subcommand sends its own action, to the instance that its own
/// flags name.
pub proof fn lemma_input_subcommands_send_their_own_action(command: InputCommand)
    ensures
        input_command_plan(command).action == match command {
            InputCommand::Get(_) => ActionKind::InputGet,
            InputCommand::Insert(_) => ActionKind::InputInsert,
            InputCommand::Replace(_) => ActionKind::InputReplace,
            InputCommand::Clear(_) => ActionKind::InputClear,
            InputCommand::Mode(_) => ActionKind::InputModeSet,
            InputCommand::Run(_) => ActionKind::InputRun,
        },
        input_command_plan(command).target == match command {
            InputCommand::Get(args) => args,
            InputCommand::Insert(args) => args.target,
            InputCommand::Replace(args) => args.target,
            InputCommand::Clear(args) => args,
            InputCommand::Mode(args) => args.target,
            InputCommand::Run(args) => args.target,
        },
{
}

/// Each `theme` subcommand sends its own action, to the instance that its own
/// flags name.
pub proof fn lemma_theme_subcommands_send_their_own_action(command: ThemeCommand)
    ensures
        theme_command_plan(command).action == match command {
            ThemeCommand::List(_) => ActionKind::ThemeList,
            ThemeCommand::SetTo(_) => ActionKind::ThemeSet,
        },
        theme_command_plan(command).target == match command {
            ThemeCommand::List(args) => args,
            ThemeCommand::SetTo(args) => args.target,
        },
{
}

/// Each `appearance` subcommand sends its own action, to the instance that its own
/// flags name.
pub proof fn lemma_appearance_subcommands_send_their_own_action(command: AppearanceCommand)
    ensures
        appearance_command_plan(command).action == match command {
            AppearanceCommand::Get(_) => ActionKind::AppearanceGet,
            AppearanceCommand::SetTo(_) => ActionKind::AppearanceSet,
            AppearanceCommand::FontSize(_) => ActionKind::AppearanceFontSize,
            AppearanceCommand::Zoom(_) => ActionKind::AppearanceZoom,
        },
        appearance_command_plan(command).target == match command {
            AppearanceCommand::Get(args) => args,
            AppearanceCommand::SetTo(args) => args.target,
            AppearanceCommand::FontSize(args) => args.target,
            AppearanceCommand::Zoom(args) => args.target,
        },
{
}

/// Each `setting` subcommand sends its own action, to the instance that its own
/// flags name.
pub proof fn lemma_setting_subcommands_send_their_own_action(command: SettingCommand)
    ensures
        setting_command_plan(command).action == match command {
            SettingCommand::List(_) => ActionKind::SettingList,
            SettingCommand::Get(_) => ActionKind::SettingGet,
            SettingCommand::SetTo(_) => ActionKind::SettingSet,
            SettingCommand::Toggle(_) => ActionKind::SettingToggle,
        },
        setting_command_plan(command).target == match command {
            SettingCommand::List(args) => args,
            SettingCommand::Get(args) => args.target,
            SettingCommand::SetTo(args) => args.target,
            SettingCommand::Toggle(args) => args.target,
        },
{
}

/// Each `file` subcommand sends its own action, to the instance that its own
/// flags name.
pub proof fn lemma_file_subcommands_send_their_own_action(command: FileCommand)
    ensures
        file_command_plan(command).action == match command {
            FileCommand::List(_) => ActionKind::FileList,
            FileCommand::Open(_) => ActionKind::FileOpen,
            FileCommand::Write(_) => ActionKind::FileWrite,
            FileCommand::Delete(_) => ActionKind::FileDelete,
        },
        file_command_plan(command).target == match command {
            FileCommand::List(args) => args,
            FileCommand::Open(args) => args.target,
            FileCommand::Write(args) => args.target,
            FileCommand::Delete(args) => args.target,
        },
{
}

/// Each `project` subcommand sends its own action, to the instance that its own
/// flags name.
pub proof fn lemma_project_subcommands_send_their_own_action(command: ProjectCommand)
    ensures
        project_command_plan(command).action == match command {
            ProjectCommand::Active(_) => ActionKind::ProjectActive,
            ProjectCommand::List(_) => ActionKind::ProjectList,
        },
        project_command_plan(command).target == match command {
            ProjectCommand::Active(args) => args,
            ProjectCommand::List(args) => args,
        },
{
}

} // verus!

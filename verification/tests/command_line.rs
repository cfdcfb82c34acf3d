use local_control::cli_args::{
    AppSurfaceArgs, DriveCreateArgs, DriveListArgs, DriveObjectMutationArgs, DriveObjectType, DriveUpdateArgs,
    DriveObjectTypeArg, HorizontalDirection, HorizontalDirectionArg, InputMode, InputModeArg,
    InputModeArgs, PaneDirection, PaneDirectionArg, PaneResizeArgs, PaneSplitArgs,
    SettingSetArgsCli, SizeAdjustment, SizeAdjustmentArg, AppearanceAdjustArgs,
    TabActivationTarget, TabCloseArgs, TabCloseScope, TabCloseScopeArg, TabMoveArgs,
    TabRenameArgs, TargetArgs,
};
use local_control::cli_commands::{
    classify_param, instance_selector, json_value_or_string, resolve_planned_action, ActionKind,
    ActionParams, ParamValue, PlannedAction,
};
use local_control::control_commands::{
    app_command_action, appearance_command_action, drive_command_action, input_command_action,
    pane_command_action, session_command_action, setting_command_action, tab_command_action,
    AppCommand, AppearanceCommand, DriveCommand, InputCommand, PaneCommand, SessionCommand,
    SettingCommand, TabCommand,
};
use local_control::discovery::DiscoveryRecord;
use local_control::protocol::{ControlActionKind, ErrorCode, InstanceId, PROTOCOL_VERSION};
use local_control::selection::InstanceSelector;

fn pid(pid: u32) -> TargetArgs {
    TargetArgs { instance: None, pid: Some(pid) }
}

#[test]
fn instance_flag_wins_over_pid() {
    assert_eq!(
        instance_selector(TargetArgs { instance: Some("a".to_owned()), pid: Some(3) }),
        InstanceSelector::Id(InstanceId("a".to_owned()))
    );
    assert_eq!(instance_selector(pid(3)), InstanceSelector::Pid(3));
    assert_eq!(instance_selector(TargetArgs::default()), InstanceSelector::Default);
}

#[test]
fn app_commands_map_to_their_actions() {
    let plan = app_command_action(AppCommand::Ping(pid(1)));
    assert_eq!(
        plan,
        PlannedAction { target: pid(1), action: ActionKind::AppPing, params: ActionParams::Empty }
    );
    let surface = app_command_action(AppCommand::CommandPaletteOpen(AppSurfaceArgs {
        target: TargetArgs::default(),
        query: Some("git".to_owned()),
        page: None,
    }));
    assert_eq!(surface.action, ActionKind::AppCommandPaletteOpen);
    assert_eq!(
        surface.params,
        ActionParams::AppSurface { query: Some("git".to_owned()), page: None }
    );
}

#[test]
fn tab_rename_reset_drops_the_title() {
    let reset = tab_command_action(TabCommand::Rename(TabRenameArgs {
        target: TargetArgs::default(),
        title: Some("ignored".to_owned()),
        reset: true,
    }));
    assert_eq!(reset.params, ActionParams::TabRename { title: None });
    let rename = tab_command_action(TabCommand::Rename(TabRenameArgs {
        target: TargetArgs::default(),
        title: Some("build".to_owned()),
        reset: false,
    }));
    assert_eq!(rename.params, ActionParams::TabRename { title: Some("build".to_owned()) });
}

#[test]
fn tab_commands_carry_relative_targets_and_enums() {
    assert_eq!(
        tab_command_action(TabCommand::Previous(pid(2))).params,
        ActionParams::TabActivate { relative: Some(TabActivationTarget::Previous) }
    );
    assert_eq!(
        tab_command_action(TabCommand::Activate(pid(2))).params,
        ActionParams::TabActivate { relative: None }
    );
    assert_eq!(
        tab_command_action(TabCommand::Move(TabMoveArgs {
            target: pid(2),
            direction: HorizontalDirectionArg::Left,
        }))
        .params,
        ActionParams::TabMove { direction: HorizontalDirection::Left }
    );
    assert_eq!(
        tab_command_action(TabCommand::Close(TabCloseArgs {
            target: pid(2),
            scope: TabCloseScopeArg::Others,
            force: true,
        }))
        .params,
        ActionParams::TabClose { scope: TabCloseScope::Others, force: true }
    );
}

#[test]
fn pane_commands_map_directions_and_amounts() {
    let split = pane_command_action(PaneCommand::Split(PaneSplitArgs {
        target: pid(4),
        direction: PaneDirectionArg::Down,
        profile: Some("p".to_owned()),
    }));
    assert_eq!(split.action, ActionKind::PaneSplit);
    assert_eq!(
        split.params,
        ActionParams::PaneSplit { direction: PaneDirection::Down, profile: Some("p".to_owned()) }
    );
    assert_eq!(split.target, pid(4));
    let resize = pane_command_action(PaneCommand::Resize(PaneResizeArgs {
        target: pid(4),
        direction: PaneDirectionArg::Up,
        amount: Some(3),
    }));
    assert_eq!(
        resize.params,
        ActionParams::PaneResize { direction: PaneDirection::Up, amount: Some(3) }
    );
    assert_eq!(
        pane_command_action(PaneCommand::NextSession(pid(4))).action,
        ActionKind::PaneSessionNext
    );
}

#[test]
fn drive_commands_keep_content_text_and_types() {
    let create = drive_command_action(DriveCommand::Create(DriveCreateArgs {
        target: TargetArgs::default(),
        object_type: DriveObjectTypeArg::Notebook,
        name: "n".to_owned(),
        content: "{\"a\":1}".to_owned(),
    }));
    assert_eq!(create.action, ActionKind::DriveCreate);
    assert_eq!(
        create.params,
        ActionParams::DriveCreate {
            object_type: DriveObjectType::Notebook,
            name: "n".to_owned(),
            content: ParamValue::Json("{\"a\":1}".to_owned()),
        }
    );
    assert_eq!(
        drive_command_action(DriveCommand::List(DriveListArgs {
            target: TargetArgs::default(),
            object_type: None,
        }))
        .params,
        ActionParams::DriveList { object_type: None }
    );
    assert_eq!(
        drive_command_action(DriveCommand::Run(DriveObjectMutationArgs {
            target: TargetArgs::default(),
            object_type: DriveObjectTypeArg::Workflow,
            id: "w".to_owned(),
        }))
        .params,
        ActionParams::DriveRun { object_type: DriveObjectType::Workflow, id: "w".to_owned() }
    );
}

#[test]
fn other_groups_map_their_arguments() {
    assert_eq!(
        input_command_action(InputCommand::Mode(InputModeArgs {
            target: TargetArgs::default(),
            mode: InputModeArg::Agent,
        }))
        .params,
        ActionParams::InputModeSet { mode: InputMode::Agent }
    );
    assert_eq!(
        appearance_command_action(AppearanceCommand::Zoom(AppearanceAdjustArgs {
            target: TargetArgs::default(),
            adjustment: SizeAdjustmentArg::SetTo,
            value: Some(125),
        }))
        .params,
        ActionParams::AppearanceZoom { adjustment: SizeAdjustment::SetTo, value: Some(125) }
    );
    assert_eq!(
        setting_command_action(SettingCommand::SetTo(SettingSetArgsCli {
            target: TargetArgs::default(),
            key: "k".to_owned(),
            value: "true".to_owned(),
        }))
        .params,
        ActionParams::SettingSet { key: "k".to_owned(), value: ParamValue::Json("true".to_owned()) }
    );
    assert_eq!(
        session_command_action(SessionCommand::List(pid(8))),
        PlannedAction { target: pid(8), action: ActionKind::SessionList, params: ActionParams::Empty }
    );
}

fn live(id: &str, pid: u32) -> DiscoveryRecord {
    DiscoveryRecord {
        instance_id: id.to_owned(),
        pid,
        channel: "dev".to_owned(),
        app_version: "1".to_owned(),
        protocol_version: PROTOCOL_VERSION,
        started_at_unix_ms: 0,
        outside_warp_control_enabled: true,
        endpoint: Some("http://127.0.0.1:9".to_owned()),
        implemented_actions: vec![],
    }
}

#[test]
fn planned_actions_resolve_to_an_instance_and_a_protocol_action() {
    let records = vec![live("a", 1), live("b", 2)];
    let ping = app_command_action(AppCommand::Ping(pid(2)));
    let record = resolve_planned_action(&records, &ping).unwrap();
    assert_eq!(record.instance_id, "b");
    assert_eq!(ping.action.protocol_action(), Some(ControlActionKind::AppPing));
    let ambiguous = app_command_action(AppCommand::Ping(TargetArgs::default()));
    assert_eq!(resolve_planned_action(&records, &ambiguous), Err(ErrorCode::AmbiguousInstance));
    let focus = app_command_action(AppCommand::Focus(pid(1)));
    assert_eq!(resolve_planned_action(&records, &focus).unwrap().instance_id, "a");
    assert_eq!(focus.action.name(), "app.focus");
    let nobody = app_command_action(AppCommand::Focus(pid(9)));
    assert_eq!(resolve_planned_action(&records, &nobody), Err(ErrorCode::NoInstance));
    assert_eq!(ActionKind::DriveCreate.protocol_action(), Some(ControlActionKind::DriveObjectCreate));
    assert_eq!(ActionKind::ThemeList.protocol_action(), None);
}

#[test]
fn argument_enums_convert_one_to_one() {
    assert_eq!(PaneDirection::from(PaneDirectionArg::Left), PaneDirection::Left);
    assert_eq!(InputMode::from(InputModeArg::Terminal), InputMode::Terminal);
    assert_eq!(SizeAdjustment::from(SizeAdjustmentArg::Reset), SizeAdjustment::Reset);
    assert_eq!(TabCloseScope::from(TabCloseScopeArg::Right), TabCloseScope::Right);
    assert_eq!(DriveObjectType::from(DriveObjectTypeArg::Prompt), DriveObjectType::Prompt);
    assert_eq!(HorizontalDirection::from(HorizontalDirectionArg::Right), HorizontalDirection::Right);
}

#[test]
fn every_planned_action_reaches_its_instance_by_catalog_name() {
    let records = vec![live("a", 1), live("b", 2)];
    let rename = tab_command_action(TabCommand::Rename(TabRenameArgs {
        target: pid(1),
        title: Some("build".to_owned()),
        reset: false,
    }));
    assert_eq!(rename.action, ActionKind::TabRename);
    assert_eq!(rename.action.name(), "tab.rename");
    assert_eq!(rename.action.protocol_action(), None);
    assert_eq!(resolve_planned_action(&records, &rename).unwrap().instance_id, "a");
    assert_eq!(ActionKind::AppSettingsOpen.name(), "surface.settings.open");
    assert_eq!(ActionKind::DriveRun.name(), "drive.workflow.run");
    assert_eq!(ActionKind::PaneSessionPrevious.name(), "session.previous");
}

#[test]
fn parameter_text_is_json_when_it_parses() {
    assert_eq!(json_value_or_string("true".to_owned()), ParamValue::Json("true".to_owned()));
    assert_eq!(json_value_or_string("{\"a\":1}".to_owned()), ParamValue::Json("{\"a\":1}".to_owned()));
    assert_eq!(json_value_or_string("abc".to_owned()), ParamValue::Text("abc".to_owned()));
    assert_eq!(json_value_or_string("{oops".to_owned()), ParamValue::Text("{oops".to_owned()));
    assert_eq!(classify_param("x".to_owned(), true), ParamValue::Json("x".to_owned()));
    assert_eq!(classify_param("x".to_owned(), false), ParamValue::Text("x".to_owned()));
    let update = drive_command_action(DriveCommand::Update(DriveUpdateArgs {
        target: TargetArgs::default(),
        object_type: DriveObjectTypeArg::Notebook,
        id: "n1".to_owned(),
        content: "plain words".to_owned(),
    }));
    assert_eq!(
        update.params,
        ActionParams::DriveUpdate {
            object_type: DriveObjectType::Notebook,
            id: "n1".to_owned(),
            content: ParamValue::Text("plain words".to_owned()),
        }
    );
}

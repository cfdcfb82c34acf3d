use local_control::protocol::PermissionCategory;
use local_control::view_context::{AppContext, Effect, EntityId, ModelHandle, TuiViewContext, WindowId};
use local_control::settings::{
    LocalControlSetting, LocalControlSettings, ScriptingPageAction, ScriptingPageView, SyncToCloud,
};

#[test]
fn defaults_are_disabled_and_private_local_only() {
    let settings = LocalControlSettings::default();
    assert!(!settings.outside_warp_control_enabled);
    assert!(!settings.outside_warp_permission_enabled(PermissionCategory::ReadMetadata));

    let gate = LocalControlSetting::OutsideWarpControlEnabled;
    assert!(gate.is_private());
    assert_eq!(gate.sync_to_cloud(), SyncToCloud::Never);
    assert_eq!(gate.toml_path(), None);
    let mutations = LocalControlSetting::OutsideWarpAppStateMutationsEnabled;
    assert!(mutations.is_private());
    assert_eq!(mutations.sync_to_cloud(), SyncToCloud::Never);
    assert_eq!(mutations.toml_path(), None);
}

#[test]
fn top_level_gate_controls_granular_permissions() {
    let mut settings = LocalControlSettings::default();
    settings.outside_warp_metadata_reads_enabled = true;
    assert!(!settings.outside_warp_permission_enabled(PermissionCategory::ReadMetadata));
    settings.outside_warp_control_enabled = true;
    assert!(settings.outside_warp_permission_enabled(PermissionCategory::ReadMetadata));
    assert!(!settings.outside_warp_permission_enabled(PermissionCategory::MutateAppState));
}

#[test]
fn defaults_disable_warp_control() {
    let settings = LocalControlSettings::default();
    assert!(!settings.outside_warp_enabled());
    for setting in [
        LocalControlSetting::OutsideWarpControlEnabled,
        LocalControlSetting::OutsideWarpMetadataReadsEnabled,
        LocalControlSetting::OutsideWarpUnderlyingDataReadsEnabled,
        LocalControlSetting::OutsideWarpAppStateMutationsEnabled,
        LocalControlSetting::OutsideWarpMetadataMutationsEnabled,
        LocalControlSetting::OutsideWarpUnderlyingDataMutationsEnabled,
    ] {
        assert!(!setting.default_value());
        assert!(!setting.value_in(&settings));
    }
}

#[test]
fn storage_keys_name_each_setting() {
    assert_eq!(
        LocalControlSetting::OutsideWarpControlEnabled.storage_key(),
        "LocalControlOutsideWarpEnabled"
    );
    assert_eq!(
        LocalControlSetting::OutsideWarpUnderlyingDataMutationsEnabled.storage_key(),
        "LocalControlOutsideWarpUnderlyingDataMutationsEnabled"
    );
}

#[test]
fn permission_grant_mirrors_the_switches() {
    let settings = LocalControlSettings {
        outside_warp_app_state_mutations_enabled: true,
        ..LocalControlSettings::default()
    };
    let grant = settings.outside_warp_permissions();
    assert!(grant.allows(&PermissionCategory::MutateAppState));
    assert!(!grant.allows(&PermissionCategory::ReadMetadata));
}

#[test]
fn scripting_page_switches_flip_one_setting() {
    let mut app: AppContext<(), (), &str> = AppContext::new();
    let settings_model = ModelHandle { id: EntityId(99) };
    let mut ctx = TuiViewContext::new(&mut app, WindowId(1), EntityId(2));
    let mut page =
        ScriptingPageView::new(LocalControlSettings::default(), &settings_model, "rerender", &mut ctx);
    assert!(page.switch_enabled(ScriptingPageAction::OutsideWarpControl));
    assert!(!page.switch_enabled(ScriptingPageAction::MetadataRead));
    page.handle_action(ScriptingPageAction::OutsideWarpControl, &mut ctx);
    assert!(page.settings.outside_warp_control_enabled);
    assert!(page.switch_enabled(ScriptingPageAction::MetadataRead));
    page.handle_action(ScriptingPageAction::MetadataRead, &mut ctx);
    assert!(page.settings.outside_warp_metadata_reads_enabled);
    assert!(!page.settings.outside_warp_app_state_mutations_enabled);
    page.handle_action(ScriptingPageAction::MetadataRead, &mut ctx);
    assert!(!page.settings.outside_warp_metadata_reads_enabled);
    assert!(page.settings.outside_warp_control_enabled);
    drop(ctx);
    assert_eq!(app.pending_effects().len(), 3);
    assert!(app
        .pending_effects()
        .iter()
        .all(|effect| *effect == Effect::ViewNotification { window_id: WindowId(1), view_id: EntityId(2) }));
    assert_eq!(app.subscriptions().len(), 1);
    assert_eq!(app.subscriptions()[0].0, EntityId(99));
    assert_eq!(app.subscriptions()[0].1.callback, "rerender");
}

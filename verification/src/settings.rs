use vstd::prelude::*;

use crate::auth::PermissionGrant;
use crate::protocol::PermissionCategory;
use crate::view_context::{
    queued, registered_subscription, Effect, ModelHandle, Subscription, TuiViewContext,
};

verus! {

/// The local-only Scripting settings that gate outside-Warp local control.
#[derive(Clone, Copy, Debug, PartialEq, Eq, Structural)]
pub struct LocalControlSettings {
    pub outside_warp_control_enabled: bool,
    pub outside_warp_metadata_reads_enabled: bool,
    pub outside_warp_underlying_data_reads_enabled: bool,
    pub outside_warp_app_state_mutations_enabled: bool,
    pub outside_warp_metadata_mutations_enabled: bool,
    pub outside_warp_underlying_data_mutations_enabled: bool,
}

/// The granular switch that covers `category`, regardless of the top-level gate.
pub open spec fn category_switch(settings: LocalControlSettings, category: PermissionCategory) -> bool {
    match category {
        PermissionCategory::ReadMetadata => settings.outside_warp_metadata_reads_enabled,
        PermissionCategory::ReadUnderlyingData => settings.outside_warp_underlying_data_reads_enabled,
        PermissionCategory::MutateAppState => settings.outside_warp_app_state_mutations_enabled,
        PermissionCategory::MutateMetadata => settings.outside_warp_metadata_mutations_enabled,
        PermissionCategory::MutateUnderlyingData => settings.outside_warp_underlying_data_mutations_enabled,
    }
}

/// A category is enabled for outside-Warp clients only when the top-level gate and the
/// category's own switch are both on.
pub open spec fn permission_enabled(settings: LocalControlSettings, category: PermissionCategory) -> bool {
    settings.outside_warp_control_enabled && category_switch(settings, category)
}

impl Default for LocalControlSettings {
    /// Everything is off until the user turns it on.
    fn default() -> (settings: LocalControlSettings)
        ensures
            !settings.outside_warp_control_enabled,
            forall|category: PermissionCategory| !category_switch(settings, category),
    {
        LocalControlSettings {
            outside_warp_control_enabled: false,
            outside_warp_metadata_reads_enabled: false,
            outside_warp_underlying_data_reads_enabled: false,
            outside_warp_app_state_mutations_enabled: false,
            outside_warp_metadata_mutations_enabled: false,
            outside_warp_underlying_data_mutations_enabled: false,
        }
    }
}

impl LocalControlSettings {
    pub fn outside_warp_permission_enabled(&self, category: PermissionCategory) -> (enabled: bool)
        ensures
            enabled == permission_enabled(*self, category),
    {
        if !self.outside_warp_control_enabled {
            return false;
        }
        match category {
            PermissionCategory::ReadMetadata => self.outside_warp_metadata_reads_enabled,
            PermissionCategory::ReadUnderlyingData => self.outside_warp_underlying_data_reads_enabled,
            PermissionCategory::MutateAppState => self.outside_warp_app_state_mutations_enabled,
            PermissionCategory::MutateMetadata => self.outside_warp_metadata_mutations_enabled,
            PermissionCategory::MutateUnderlyingData => self.outside_warp_underlying_data_mutations_enabled,
        }
    }

    /// Whether outside-Warp local control is switched on at all.
    pub fn outside_warp_enabled(&self) -> (enabled: bool)
        ensures
            enabled == self.outside_warp_control_enabled,
    {
        self.outside_warp_control_enabled
    }

    /// The granular switches as a credential-issuer grant.
    pub fn outside_warp_permissions(&self) -> (grant: PermissionGrant)
        ensures
            grant == (PermissionGrant {
                metadata_read: self.outside_warp_metadata_reads_enabled,
                underlying_data_read: self.outside_warp_underlying_data_reads_enabled,
                app_state_mutation: self.outside_warp_app_state_mutations_enabled,
                metadata_configuration_mutation: self.outside_warp_metadata_mutations_enabled,
                underlying_data_mutation: self.outside_warp_underlying_data_mutations_enabled,
            }),
            forall|category: PermissionCategory|
                crate::auth::grant_allows(grant, category) == #[trigger] category_switch(*self, category),
    {
        PermissionGrant {
            metadata_read: self.outside_warp_metadata_reads_enabled,
            underlying_data_read: self.outside_warp_underlying_data_reads_enabled,
            app_state_mutation: self.outside_warp_app_state_mutations_enabled,
            metadata_configuration_mutation: self.outside_warp_metadata_mutations_enabled,
            underlying_data_mutation: self.outside_warp_underlying_data_mutations_enabled,
        }
    }
}

/// With the top-level gate off no category is enabled, whatever the granular switches say.
pub proof fn lemma_top_level_gate_controls_every_category(
    settings: LocalControlSettings,
    category: PermissionCategory,
)
    requires
        !settings.outside_warp_control_enabled,
    ensures
        !permission_enabled(settings, category),
{
}

/// Where a setting may be stored and synchronised.
#[derive(Clone, Copy, Debug, PartialEq, Eq, Structural)]
pub enum SyncToCloud {
    Never,
    Globally,
}

/// The six local-control settings.
#[derive(Clone, Copy, Debug, PartialEq, Eq, Structural)]
pub enum LocalControlSetting {
    OutsideWarpControlEnabled,
    OutsideWarpMetadataReadsEnabled,
    OutsideWarpUnderlyingDataReadsEnabled,
    OutsideWarpAppStateMutationsEnabled,
    OutsideWarpMetadataMutationsEnabled,
    OutsideWarpUnderlyingDataMutationsEnabled,
}

pub open spec fn setting_storage_key(setting: LocalControlSetting) -> Seq<char> {
    match setting {
        LocalControlSetting::OutsideWarpControlEnabled => "LocalControlOutsideWarpEnabled"@,
        LocalControlSetting::OutsideWarpMetadataReadsEnabled => "LocalControlOutsideWarpMetadataReadsEnabled"@,
        LocalControlSetting::OutsideWarpUnderlyingDataReadsEnabled =>
            "LocalControlOutsideWarpUnderlyingDataReadsEnabled"@,
        LocalControlSetting::OutsideWarpAppStateMutationsEnabled =>
            "LocalControlOutsideWarpAppStateMutationsEnabled"@,
        LocalControlSetting::OutsideWarpMetadataMutationsEnabled =>
            "LocalControlOutsideWarpMetadataMutationsEnabled"@,
        LocalControlSetting::OutsideWarpUnderlyingDataMutationsEnabled =>
            "LocalControlOutsideWarpUnderlyingDataMutationsEnabled"@,
    }
}

impl LocalControlSetting {
    /// The key under which the setting is stored in private preferences.
    pub fn storage_key(self) -> (key: &'static str)
        ensures
            key@ == setting_storage_key(self),
    {
        match self {
            LocalControlSetting::OutsideWarpControlEnabled => "LocalControlOutsideWarpEnabled",
            LocalControlSetting::OutsideWarpMetadataReadsEnabled => "LocalControlOutsideWarpMetadataReadsEnabled",
            LocalControlSetting::OutsideWarpUnderlyingDataReadsEnabled =>
                "LocalControlOutsideWarpUnderlyingDataReadsEnabled",
            LocalControlSetting::OutsideWarpAppStateMutationsEnabled =>
                "LocalControlOutsideWarpAppStateMutationsEnabled",
            LocalControlSetting::OutsideWarpMetadataMutationsEnabled =>
                "LocalControlOutsideWarpMetadataMutationsEnabled",
            LocalControlSetting::OutsideWarpUnderlyingDataMutationsEnabled =>
                "LocalControlOutsideWarpUnderlyingDataMutationsEnabled",
        }
    }

    /// Every local-control setting lives in private (not user-visible) preferences.
    pub fn is_private(self) -> (private: bool)
        ensures
            private,
    {
        true
    }

    /// No local-control setting is ever synchronised to the cloud.
    pub fn sync_to_cloud(self) -> (sync: SyncToCloud)
        ensures
            sync == SyncToCloud::Never,
    {
        SyncToCloud::Never
    }

    /// No local-control setting appears in the user-editable settings file.
    pub fn toml_path(self) -> (path: Option<&'static str>)
        ensures
            path is None,
    {
        None
    }

    /// Every local-control setting defaults to off.
    pub fn default_value(self) -> (value: bool)
        ensures
            !value,
    {
        false
    }

    /// The value of this setting in `settings`.
    pub fn value_in(self, settings: &LocalControlSettings) -> (value: bool)
        ensures
            value == setting_value(*settings, self),
    {
        match self {
            LocalControlSetting::OutsideWarpControlEnabled => settings.outside_warp_control_enabled,
            LocalControlSetting::OutsideWarpMetadataReadsEnabled => settings.outside_warp_metadata_reads_enabled,
            LocalControlSetting::OutsideWarpUnderlyingDataReadsEnabled =>
                settings.outside_warp_underlying_data_reads_enabled,
            LocalControlSetting::OutsideWarpAppStateMutationsEnabled =>
                settings.outside_warp_app_state_mutations_enabled,
            LocalControlSetting::OutsideWarpMetadataMutationsEnabled =>
                settings.outside_warp_metadata_mutations_enabled,
            LocalControlSetting::OutsideWarpUnderlyingDataMutationsEnabled =>
                settings.outside_warp_underlying_data_mutations_enabled,
        }
    }
}

pub open spec fn setting_value(settings: LocalControlSettings, setting: LocalControlSetting) -> bool {
    match setting {
        LocalControlSetting::OutsideWarpControlEnabled => settings.outside_warp_control_enabled,
        LocalControlSetting::OutsideWarpMetadataReadsEnabled => settings.outside_warp_metadata_reads_enabled,
        LocalControlSetting::OutsideWarpUnderlyingDataReadsEnabled =>
            settings.outside_warp_underlying_data_reads_enabled,
        LocalControlSetting::OutsideWarpAppStateMutationsEnabled =>
            settings.outside_warp_app_state_mutations_enabled,
        LocalControlSetting::OutsideWarpMetadataMutationsEnabled =>
            settings.outside_warp_metadata_mutations_enabled,
        LocalControlSetting::OutsideWarpUnderlyingDataMutationsEnabled =>
            settings.outside_warp_underlying_data_mutations_enabled,
    }
}

/// The switches on the Settings > Scripting page.
#[derive(Clone, Copy, Debug, PartialEq, Eq, Structural)]
pub enum ScriptingPageAction {
    OutsideWarpControl,
    MetadataRead,
    UnderlyingDataRead,
    AppStateMutation,
    MetadataConfigurationMutation,
    UnderlyingDataMutation,
}

/// The setting that a Scripting page switch flips.
pub open spec fn switched_setting(action: ScriptingPageAction) -> LocalControlSetting {
    match action {
        ScriptingPageAction::OutsideWarpControl => LocalControlSetting::OutsideWarpControlEnabled,
        ScriptingPageAction::MetadataRead => LocalControlSetting::OutsideWarpMetadataReadsEnabled,
        ScriptingPageAction::UnderlyingDataRead => LocalControlSetting::OutsideWarpUnderlyingDataReadsEnabled,
        ScriptingPageAction::AppStateMutation => LocalControlSetting::OutsideWarpAppStateMutationsEnabled,
        ScriptingPageAction::MetadataConfigurationMutation =>
            LocalControlSetting::OutsideWarpMetadataMutationsEnabled,
        ScriptingPageAction::UnderlyingDataMutation => LocalControlSetting::OutsideWarpUnderlyingDataMutationsEnabled,
    }
}

/// The Settings > Scripting page: one switch per local-control setting.
#[derive(Clone, Copy, Debug, PartialEq, Eq, Structural)]
pub struct ScriptingPageView {
    pub settings: LocalControlSettings,
}

impl ScriptingPageView {
    /// The page over `settings`; it re-renders whenever the settings model behind
    /// `settings_model` changes, by registering `on_settings_changed` for its events.
    pub fn new<Ev, Ac, Cb>(
        settings: LocalControlSettings,
        settings_model: &ModelHandle,
        on_settings_changed: Cb,
        ctx: &mut TuiViewContext<'_, Ev, Ac, Cb>,
    ) -> (view: ScriptingPageView)
        ensures
            view.settings == settings,
            registered_subscription(old(ctx).app@, final(ctx).app@, settings_model.id, Subscription { window_id: old(ctx).window_id, view_id: old(ctx).view_id, callback: on_settings_changed }),
            *final(final(ctx).app) == *final(old(ctx).app),
            final(ctx).window_id == old(ctx).window_id,
            final(ctx).view_id == old(ctx).view_id,
    {
        ctx.subscribe_to_model(settings_model, on_settings_changed);
        ScriptingPageView { settings }
    }

    /// Flips the setting behind the switch that `action` names, leaves the others alone,
    /// and re-renders the page.
    pub fn handle_action<Ev, Ac, Cb>(&mut self, action: ScriptingPageAction, ctx: &mut TuiViewContext<'_, Ev, Ac, Cb>)
        ensures
            forall|setting: LocalControlSetting|
                #[trigger] setting_value(final(self).settings, setting) == if setting == switched_setting(action) {
                    !setting_value(old(self).settings, setting)
                } else {
                    setting_value(old(self).settings, setting)
                },
            queued(old(ctx).app@, final(ctx).app@, Effect::ViewNotification { window_id: old(ctx).window_id, view_id: old(ctx).view_id }),
            *final(final(ctx).app) == *final(old(ctx).app),
            final(ctx).window_id == old(ctx).window_id,
            final(ctx).view_id == old(ctx).view_id,
    {
        self.flip(action);
        ctx.notify();
    }

    fn flip(&mut self, action: ScriptingPageAction)
        ensures
            forall|setting: LocalControlSetting|
                #[trigger] setting_value(final(self).settings, setting) == if setting == switched_setting(action) {
                    !setting_value(old(self).settings, setting)
                } else {
                    setting_value(old(self).settings, setting)
                },
    {
        match action {
            ScriptingPageAction::OutsideWarpControl => {
                self.settings.outside_warp_control_enabled = !self.settings.outside_warp_control_enabled;
            },
            ScriptingPageAction::MetadataRead => {
                self.settings.outside_warp_metadata_reads_enabled =
                    !self.settings.outside_warp_metadata_reads_enabled;
            },
            ScriptingPageAction::UnderlyingDataRead => {
                self.settings.outside_warp_underlying_data_reads_enabled =
                    !self.settings.outside_warp_underlying_data_reads_enabled;
            },
            ScriptingPageAction::AppStateMutation => {
                self.settings.outside_warp_app_state_mutations_enabled =
                    !self.settings.outside_warp_app_state_mutations_enabled;
            },
            ScriptingPageAction::MetadataConfigurationMutation => {
                self.settings.outside_warp_metadata_mutations_enabled =
                    !self.settings.outside_warp_metadata_mutations_enabled;
            },
            ScriptingPageAction::UnderlyingDataMutation => {
                self.settings.outside_warp_underlying_data_mutations_enabled =
                    !self.settings.outside_warp_underlying_data_mutations_enabled;
            },
        }
    }

    /// A granular switch can be clicked only while the top-level gate is on.
    pub fn switch_enabled(&self, action: ScriptingPageAction) -> (enabled: bool)
        ensures
            enabled == (action == ScriptingPageAction::OutsideWarpControl
                || self.settings.outside_warp_control_enabled),
    {
        match action {
            ScriptingPageAction::OutsideWarpControl => true,
            _ => self.settings.outside_warp_control_enabled,
        }
    }
}

/// Flipping the same switch twice restores every setting.
pub proof fn lemma_switch_twice_restores(
    before: LocalControlSettings,
    middle: LocalControlSettings,
    after: LocalControlSettings,
    action: ScriptingPageAction,
)
    requires
        forall|setting: LocalControlSetting|
            #[trigger] setting_value(middle, setting) == if setting == switched_setting(action) {
                !setting_value(before, setting)
            } else {
                setting_value(before, setting)
            },
        forall|setting: LocalControlSetting|
            #[trigger] setting_value(after, setting) == if setting == switched_setting(action) {
                !setting_value(middle, setting)
            } else {
                setting_value(middle, setting)
            },
    ensures
        after == before,
{
    assert(setting_value(after, LocalControlSetting::OutsideWarpControlEnabled) == setting_value(before, LocalControlSetting::OutsideWarpControlEnabled));
    assert(setting_value(after, LocalControlSetting::OutsideWarpMetadataReadsEnabled) == setting_value(before, LocalControlSetting::OutsideWarpMetadataReadsEnabled));
    assert(setting_value(after, LocalControlSetting::OutsideWarpUnderlyingDataReadsEnabled) == setting_value(before, LocalControlSetting::OutsideWarpUnderlyingDataReadsEnabled));
    assert(setting_value(after, LocalControlSetting::OutsideWarpAppStateMutationsEnabled) == setting_value(before, LocalControlSetting::OutsideWarpAppStateMutationsEnabled));
    assert(setting_value(after, LocalControlSetting::OutsideWarpMetadataMutationsEnabled) == setting_value(before, LocalControlSetting::OutsideWarpMetadataMutationsEnabled));
    assert(setting_value(after, LocalControlSetting::OutsideWarpUnderlyingDataMutationsEnabled) == setting_value(before, LocalControlSetting::OutsideWarpUnderlyingDataMutationsEnabled));
}

/// Each Scripting page switch flips the setting of its own name and no other: after a flip
/// as `handle_action` makes it, a setting has changed exactly when the switch names it.
pub proof fn lemma_switches_flip_the_setting_they_name(
    before: LocalControlSettings,
    after: LocalControlSettings,
    action: ScriptingPageAction,
)
    requires
        forall|setting: LocalControlSetting|
            #[trigger] setting_value(after, setting) == if setting == switched_setting(action) {
                !setting_value(before, setting)
            } else {
                setting_value(before, setting)
            },
    ensures
        (after.outside_warp_control_enabled != before.outside_warp_control_enabled) <==> action
            == ScriptingPageAction::OutsideWarpControl,
        (after.outside_warp_metadata_reads_enabled != before.outside_warp_metadata_reads_enabled) <==> action
            == ScriptingPageAction::MetadataRead,
        (after.outside_warp_underlying_data_reads_enabled != before.outside_warp_underlying_data_reads_enabled)
            <==> action == ScriptingPageAction::UnderlyingDataRead,
        (after.outside_warp_app_state_mutations_enabled != before.outside_warp_app_state_mutations_enabled)
            <==> action == ScriptingPageAction::AppStateMutation,
        (after.outside_warp_metadata_mutations_enabled != before.outside_warp_metadata_mutations_enabled)
            <==> action == ScriptingPageAction::MetadataConfigurationMutation,
        (after.outside_warp_underlying_data_mutations_enabled != before.outside_warp_underlying_data_mutations_enabled)
            <==> action == ScriptingPageAction::UnderlyingDataMutation,
{
    assert(setting_value(after, LocalControlSetting::OutsideWarpControlEnabled) == after.outside_warp_control_enabled);
    assert(setting_value(after, LocalControlSetting::OutsideWarpMetadataReadsEnabled) == after.outside_warp_metadata_reads_enabled);
    assert(setting_value(after, LocalControlSetting::OutsideWarpUnderlyingDataReadsEnabled)
        == after.outside_warp_underlying_data_reads_enabled);
    assert(setting_value(after, LocalControlSetting::OutsideWarpAppStateMutationsEnabled)
        == after.outside_warp_app_state_mutations_enabled);
    assert(setting_value(after, LocalControlSetting::OutsideWarpMetadataMutationsEnabled)
        == after.outside_warp_metadata_mutations_enabled);
    assert(setting_value(after, LocalControlSetting::OutsideWarpUnderlyingDataMutationsEnabled)
        == after.outside_warp_underlying_data_mutations_enabled);
}

/// A permission category is open to outside-Warp clients exactly when the top-level gate
/// and the switch of the category's own name are both on; each setting reads the field of its
/// own name.
pub proof fn lemma_categories_follow_their_own_switch(settings: LocalControlSettings)
    ensures
        permission_enabled(settings, PermissionCategory::ReadMetadata) == (settings.outside_warp_control_enabled
            && settings.outside_warp_metadata_reads_enabled),
        permission_enabled(settings, PermissionCategory::ReadUnderlyingData) == (
        settings.outside_warp_control_enabled && settings.outside_warp_underlying_data_reads_enabled),
        permission_enabled(settings, PermissionCategory::MutateAppState) == (settings.outside_warp_control_enabled
            && settings.outside_warp_app_state_mutations_enabled),
        permission_enabled(settings, PermissionCategory::MutateMetadata) == (settings.outside_warp_control_enabled
            && settings.outside_warp_metadata_mutations_enabled),
        permission_enabled(settings, PermissionCategory::MutateUnderlyingData) == (
        settings.outside_warp_control_enabled && settings.outside_warp_underlying_data_mutations_enabled),
        setting_value(settings, LocalControlSetting::OutsideWarpControlEnabled) == settings.outside_warp_control_enabled,
        setting_value(settings, LocalControlSetting::OutsideWarpMetadataReadsEnabled)
            == settings.outside_warp_metadata_reads_enabled,
        setting_value(settings, LocalControlSetting::OutsideWarpUnderlyingDataReadsEnabled)
            == settings.outside_warp_underlying_data_reads_enabled,
        setting_value(settings, LocalControlSetting::OutsideWarpAppStateMutationsEnabled)
            == settings.outside_warp_app_state_mutations_enabled,
        setting_value(settings, LocalControlSetting::OutsideWarpMetadataMutationsEnabled)
            == settings.outside_warp_metadata_mutations_enabled,
        setting_value(settings, LocalControlSetting::OutsideWarpUnderlyingDataMutationsEnabled)
            == settings.outside_warp_underlying_data_mutations_enabled,
{
}

/// Every setting is stored under the key of its own name.
pub proof fn lemma_settings_are_stored_under_their_own_keys()
    ensures
        setting_storage_key(LocalControlSetting::OutsideWarpControlEnabled) == "LocalControlOutsideWarpEnabled"@,
        setting_storage_key(LocalControlSetting::OutsideWarpMetadataReadsEnabled)
            == "LocalControlOutsideWarpMetadataReadsEnabled"@,
        setting_storage_key(LocalControlSetting::OutsideWarpUnderlyingDataReadsEnabled)
            == "LocalControlOutsideWarpUnderlyingDataReadsEnabled"@,
        setting_storage_key(LocalControlSetting::OutsideWarpAppStateMutationsEnabled)
            == "LocalControlOutsideWarpAppStateMutationsEnabled"@,
        setting_storage_key(LocalControlSetting::OutsideWarpMetadataMutationsEnabled)
            == "LocalControlOutsideWarpMetadataMutationsEnabled"@,
        setting_storage_key(LocalControlSetting::OutsideWarpUnderlyingDataMutationsEnabled)
            == "LocalControlOutsideWarpUnderlyingDataMutationsEnabled"@,
{
}

} // verus!

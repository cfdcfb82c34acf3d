use vstd::prelude::*;

use crate::protocol::{ControlActionKind, InvocationContext, PermissionCategory, SupportStatus};

verus! {

/// The classification of one catalog action.
#[derive(Clone, Debug, PartialEq, Eq)]
pub struct ActionMetadata {
    pub action: ControlActionKind,
    pub support: SupportStatus,
    pub permission: PermissionCategory,
    pub requires_authenticated_user: bool,
    pub allowed_invocation_contexts: Vec<InvocationContext>,
    pub summary: &'static str,
}

pub open spec fn action_support(action: ControlActionKind) -> SupportStatus {
    match action {
        ControlActionKind::InstanceList | ControlActionKind::AppPing | ControlActionKind::AppVersion
        | ControlActionKind::TabCreate => SupportStatus::Implemented,
        _ => SupportStatus::Stub,
    }
}

pub open spec fn action_permission(action: ControlActionKind) -> PermissionCategory {
    match action {
        ControlActionKind::TabCreate => PermissionCategory::MutateAppState,
        ControlActionKind::InputRun | ControlActionKind::DriveObjectCreate => PermissionCategory::MutateUnderlyingData,
        _ => PermissionCategory::ReadMetadata,
    }
}

/// Only the underlying-data mutations need an authenticated Warp user.
pub open spec fn action_requires_authenticated_user(action: ControlActionKind) -> bool {
    action is InputRun || action is DriveObjectCreate
}

pub open spec fn action_allowed_contexts(action: ControlActionKind) -> Seq<InvocationContext> {
    if action_requires_authenticated_user(action) {
        seq![InvocationContext::InsideWarp]
    } else {
        seq![InvocationContext::OutsideWarp]
    }
}

pub open spec fn action_summary(action: ControlActionKind) -> Seq<char> {
    match action {
        ControlActionKind::InstanceList => "List locally discoverable Warp instances."@,
        ControlActionKind::AppPing => "Check whether the selected Warp instance is reachable."@,
        ControlActionKind::AppVersion => "Read version metadata from the selected Warp instance."@,
        ControlActionKind::TabCreate => "Create a terminal tab in the active window."@,
        ControlActionKind::WindowList | ControlActionKind::TabList | ControlActionKind::PaneList
        | ControlActionKind::SessionList =>
            "Planned metadata action not implemented in the foundation slice."@,
        ControlActionKind::InputRun | ControlActionKind::DriveObjectCreate =>
            "Planned underlying-data mutation that requires authenticated Warp-terminal authority."@,
    }
}

/// `metadata` is the catalog entry of `action`.
pub open spec fn is_metadata_of(metadata: ActionMetadata, action: ControlActionKind) -> bool {
    &&& metadata.action == action
    &&& metadata.support == action_support(action)
    &&& metadata.permission == action_permission(action)
    &&& metadata.requires_authenticated_user == action_requires_authenticated_user(action)
    &&& metadata.allowed_invocation_contexts@ == action_allowed_contexts(action)
    &&& metadata.summary@ == action_summary(action)
}

/// The actions the running app implements, in catalog order.
pub open spec fn implemented_action_kinds() -> Seq<ControlActionKind> {
    seq![
        ControlActionKind::InstanceList,
        ControlActionKind::AppPing,
        ControlActionKind::AppVersion,
        ControlActionKind::TabCreate,
    ]
}

/// Looks up the catalog entry of `action`.
pub fn action_metadata(action: &ControlActionKind) -> (metadata: ActionMetadata)
    ensures
        is_metadata_of(metadata, *action),
{
    let mut outside_warp: Vec<InvocationContext> = Vec::new();
    outside_warp.push(InvocationContext::OutsideWarp);
    let mut inside_warp: Vec<InvocationContext> = Vec::new();
    inside_warp.push(InvocationContext::InsideWarp);
    assert(outside_warp@ =~= seq![InvocationContext::OutsideWarp]);
    assert(inside_warp@ =~= seq![InvocationContext::InsideWarp]);
    match action {
        ControlActionKind::InstanceList => ActionMetadata {
            action: *action,
            support: SupportStatus::Implemented,
            permission: PermissionCategory::ReadMetadata,
            requires_authenticated_user: false,
            allowed_invocation_contexts: outside_warp,
            summary: "List locally discoverable Warp instances.",
        },
        ControlActionKind::AppPing => ActionMetadata {
            action: *action,
            support: SupportStatus::Implemented,
            permission: PermissionCategory::ReadMetadata,
            requires_authenticated_user: false,
            allowed_invocation_contexts: outside_warp,
            summary: "Check whether the selected Warp instance is reachable.",
        },
        ControlActionKind::AppVersion => ActionMetadata {
            action: *action,
            support: SupportStatus::Implemented,
            permission: PermissionCategory::ReadMetadata,
            requires_authenticated_user: false,
            allowed_invocation_contexts: outside_warp,
            summary: "Read version metadata from the selected Warp instance.",
        },
        ControlActionKind::TabCreate => ActionMetadata {
            action: *action,
            support: SupportStatus::Implemented,
            permission: PermissionCategory::MutateAppState,
            requires_authenticated_user: false,
            allowed_invocation_contexts: outside_warp,
            summary: "Create a terminal tab in the active window.",
        },
        ControlActionKind::WindowList | ControlActionKind::TabList | ControlActionKind::PaneList
        | ControlActionKind::SessionList => ActionMetadata {
            action: *action,
            support: SupportStatus::Stub,
            permission: PermissionCategory::ReadMetadata,
            requires_authenticated_user: false,
            allowed_invocation_contexts: outside_warp,
            summary: "Planned metadata action not implemented in the foundation slice.",
        },
        ControlActionKind::InputRun | ControlActionKind::DriveObjectCreate => ActionMetadata {
            action: *action,
            support: SupportStatus::Stub,
            permission: PermissionCategory::MutateUnderlyingData,
            requires_authenticated_user: true,
            allowed_invocation_contexts: inside_warp,
            summary: "Planned underlying-data mutation that requires authenticated Warp-terminal authority.",
        },
    }
}

/// The catalog entries of the implemented actions, in catalog order.
pub fn implemented_actions() -> (metadata: Vec<ActionMetadata>)
    ensures
        metadata@.len() == implemented_action_kinds().len(),
        forall|i: int|
            0 <= i < metadata@.len() ==> is_metadata_of(#[trigger] metadata@[i], implemented_action_kinds()[i]),
{
    let kinds = [
        ControlActionKind::InstanceList,
        ControlActionKind::AppPing,
        ControlActionKind::AppVersion,
        ControlActionKind::TabCreate,
    ];
    let mut result: Vec<ActionMetadata> = Vec::new();
    let mut i: usize = 0;
    while i < 4
        invariant
            0 <= i <= 4,
            kinds@ == implemented_action_kinds(),
            result@.len() == i,
            forall|j: int| 0 <= j < i ==> is_metadata_of(#[trigger] result@[j], implemented_action_kinds()[j]),
        decreases 4 - i,
    {
        result.push(action_metadata(&kinds[i]));
        i = i + 1;
    }
    result
}

/// The implemented list is exactly the set of catalog actions whose support status is
/// `Implemented`: nothing planned is advertised, and nothing implemented is left out.
pub proof fn lemma_implemented_list_is_exactly_the_implemented_actions(action: ControlActionKind)
    ensures
        implemented_action_kinds().contains(action) <==> action_support(action) == SupportStatus::Implemented,
{
    if action_support(action) == SupportStatus::Implemented {
        let i: int = match action {
            ControlActionKind::InstanceList => 0,
            ControlActionKind::AppPing => 1,
            ControlActionKind::AppVersion => 2,
            _ => 3,
        };
        assert(implemented_action_kinds()[i] == action);
    }
    if implemented_action_kinds().contains(action) {
        let i = choose|i: int| 0 <= i < 4 && implemented_action_kinds()[i] == action;
        assert(0 <= i < 4);
    }
}

/// Every catalog action that needs an authenticated user is confined to verified Warp-terminal
/// invocations, and every action that outside clients may request needs no authenticated user.
pub proof fn lemma_outside_warp_actions_are_logged_out_safe(action: ControlActionKind)
    ensures
        action_allowed_contexts(action).contains(InvocationContext::OutsideWarp)
            <==> !action_requires_authenticated_user(action),
{
    if action_requires_authenticated_user(action) {
        assert(action_allowed_contexts(action) =~= seq![InvocationContext::InsideWarp]);
        assert(!action_allowed_contexts(action).contains(InvocationContext::OutsideWarp));
    } else {
        assert(action_allowed_contexts(action)[0] == InvocationContext::OutsideWarp);
    }
}

/// The permission categories of the actions: every read-only action (`instance.list`,
/// `app.ping`, `app.version` and the planned listings) is a metadata read, `tab.create` is the
/// only app-state mutation, and the underlying-data mutations are exactly `input.run` and
/// `drive.object.create`; nothing is classed as an underlying-data read or a metadata
/// mutation.
pub proof fn lemma_permission_categories(action: ControlActionKind)
    ensures
        action_permission(action) == PermissionCategory::ReadMetadata <==> (action
            == ControlActionKind::InstanceList || action == ControlActionKind::AppPing || action
            == ControlActionKind::AppVersion || action == ControlActionKind::WindowList || action
            == ControlActionKind::TabList || action == ControlActionKind::PaneList || action
            == ControlActionKind::SessionList),
        action_permission(action) == PermissionCategory::MutateAppState <==> action
            == ControlActionKind::TabCreate,
        action_permission(action) == PermissionCategory::MutateUnderlyingData <==> (action
            == ControlActionKind::InputRun || action == ControlActionKind::DriveObjectCreate),
        action_permission(action) != PermissionCategory::ReadUnderlyingData,
        action_permission(action) != PermissionCategory::MutateMetadata,
{
}

/// Only `instance.list`, `app.ping`, `app.version` and `tab.create` are implemented; only
/// the underlying-data mutations need an authenticated Warp user, and they are the only
/// actions reserved to Warp's own terminal, while every other action is for outside-Warp
/// clients.
pub proof fn lemma_support_and_authority(action: ControlActionKind)
    ensures
        action_support(action) == SupportStatus::Implemented <==> (action == ControlActionKind::InstanceList
            || action == ControlActionKind::AppPing || action == ControlActionKind::AppVersion || action
            == ControlActionKind::TabCreate),
        action_requires_authenticated_user(action) <==> (action == ControlActionKind::InputRun || action
            == ControlActionKind::DriveObjectCreate),
        action_allowed_contexts(action) == if action == ControlActionKind::InputRun || action
            == ControlActionKind::DriveObjectCreate {
            seq![InvocationContext::InsideWarp]
        } else {
            seq![InvocationContext::OutsideWarp]
        },
{
}

} // verus!

use local_control::catalog::{action_metadata, implemented_actions};
use local_control::protocol::{ControlActionKind, InvocationContext, PermissionCategory, SupportStatus};

#[test]
fn tab_create_is_logged_out_safe_app_state_mutation() {
    let metadata = action_metadata(&ControlActionKind::TabCreate);
    assert_eq!(metadata.support, SupportStatus::Implemented);
    assert_eq!(metadata.permission, PermissionCategory::MutateAppState);
    assert!(!metadata.requires_authenticated_user);
    assert_eq!(metadata.allowed_invocation_contexts, vec![InvocationContext::OutsideWarp]);
}

#[test]
fn future_actions_are_planned_not_implemented() {
    let metadata = action_metadata(&ControlActionKind::WindowList);
    assert_eq!(metadata.support, SupportStatus::Stub);
    assert!(!implemented_actions()
        .iter()
        .any(|m| m.action == ControlActionKind::WindowList));
}

#[test]
fn implemented_actions_are_the_foundation_slice_in_order() {
    let actions: Vec<ControlActionKind> = implemented_actions().iter().map(|m| m.action).collect();
    assert_eq!(
        actions,
        vec![
            ControlActionKind::InstanceList,
            ControlActionKind::AppPing,
            ControlActionKind::AppVersion,
            ControlActionKind::TabCreate,
        ]
    );
}

#[test]
fn underlying_data_mutations_need_an_authenticated_user_inside_warp() {
    for action in [ControlActionKind::InputRun, ControlActionKind::DriveObjectCreate] {
        let metadata = action_metadata(&action);
        assert_eq!(metadata.permission, PermissionCategory::MutateUnderlyingData);
        assert!(metadata.requires_authenticated_user);
        assert_eq!(metadata.allowed_invocation_contexts, vec![InvocationContext::InsideWarp]);
        assert_eq!(metadata.support, SupportStatus::Stub);
    }
}

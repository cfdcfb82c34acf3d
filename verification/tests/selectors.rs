use local_control::protocol::{ErrorCode, TabSelector, TargetSelector, WindowSelector};
use local_control::selectors::validate_tab_create_target;

#[test]
fn tab_create_accepts_only_default_active_window() {
    assert_eq!(validate_tab_create_target(&TargetSelector::empty()), Ok(()));
    assert_eq!(
        validate_tab_create_target(&TargetSelector {
            window: Some(WindowSelector::Active),
            ..TargetSelector::empty()
        }),
        Ok(())
    );
    assert_eq!(
        validate_tab_create_target(&TargetSelector {
            window: Some(WindowSelector::Index(1)),
            ..TargetSelector::empty()
        }),
        Err(ErrorCode::InvalidSelector)
    );
}

#[test]
fn tab_create_refuses_lower_level_selectors() {
    assert_eq!(
        validate_tab_create_target(&TargetSelector {
            tab: Some(TabSelector::Active),
            ..TargetSelector::empty()
        }),
        Err(ErrorCode::InvalidSelector)
    );
    assert_eq!(
        local_control::resolver::validate_tab_create_target(&TargetSelector {
            window: Some(WindowSelector::Title("w".to_owned())),
            ..TargetSelector::empty()
        }),
        Err(ErrorCode::InvalidSelector)
    );
}

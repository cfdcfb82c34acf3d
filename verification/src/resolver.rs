use vstd::prelude::*;

use crate::protocol::{targets_only_default_or_active_window, ErrorCode, TargetSelector};

verus! {

/// The app-side check of a `tab.create` target; it applies the shared selector rule.
pub fn validate_tab_create_target(target: &TargetSelector) -> (result: Result<(), ErrorCode>)
    ensures
        result is Ok <==> targets_only_default_or_active_window(*target),
        result matches Err(code) ==> code == ErrorCode::InvalidSelector,
{
    crate::selectors::validate_tab_create_target(target)
}

} // verus!

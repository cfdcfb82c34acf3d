use vstd::prelude::*;

use crate::protocol::{targets_only_default_or_active_window, ErrorCode, TargetSelector};

verus! {

/// `tab.create` accepts only the default target or the active window; any other selector
/// is refused as `InvalidSelector` rather than retargeted.
pub fn validate_tab_create_target(target: &TargetSelector) -> (result: Result<(), ErrorCode>)
    ensures
        result is Ok <==> targets_only_default_or_active_window(*target),
        result matches Err(code) ==> code == ErrorCode::InvalidSelector,
{
    if target.only_default_or_active_window() {
        Ok(())
    } else {
        Err(ErrorCode::InvalidSelector)
    }
}

} // verus!

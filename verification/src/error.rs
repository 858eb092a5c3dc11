use vstd::prelude::*;

verus! {

/// A reportable, non-fatal condition raised by an interaction pass. The
/// affected entity's update for that frame is a no-op; the frame loop is
/// never terminated by one of these.
#[derive(Clone, Debug, PartialEq)]
pub enum UiError {
    /// A dropdown child's parent reference does not resolve to a live
    /// entity carrying a DropdownMenuParent. Carries the child's slot.
    UnresolvedParentReference { child_slot: usize },
    /// A settings display names a setting that is absent from the settings
    /// store or from the settings metadata, or whose current value has no
    /// label. Carries the setting's name.
    UnknownSettingName { name: String },
}

impl UiError {
    pub fn is_unresolved_parent_reference(&self) -> (r: bool)
        ensures
            r == (self is UnresolvedParentReference),
    {
        match self {
            UiError::UnresolvedParentReference { .. } => true,
            UiError::UnknownSettingName { .. } => false,
        }
    }

    pub fn is_unknown_setting_name(&self) -> (r: bool)
        ensures
            r == (self is UnknownSettingName),
    {
        match self {
            UiError::UnresolvedParentReference { .. } => false,
            UiError::UnknownSettingName { .. } => true,
        }
    }
}

} // verus!

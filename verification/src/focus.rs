use vstd::prelude::*;

verus! {

/// How a widget takes part in keyboard focus.
#[derive(Clone, Copy, Debug, PartialEq, Eq, Structural, Hash)]
pub struct FocusPolicy {
    pub focusable: bool,
    pub disabled: bool,
    pub hidden: bool,
}

/// A policy that takes focus only when enabled; `disabled` says whether it is.
pub open spec fn focus_when_enabled(disabled: bool) -> FocusPolicy {
    FocusPolicy { focusable: true, disabled, hidden: false }
}

/// The policy of something hidden from focus altogether.
pub open spec fn hidden_policy() -> FocusPolicy {
    FocusPolicy { focusable: false, disabled: false, hidden: true }
}

impl Default for FocusPolicy {
    /// Not focusable, not disabled, not hidden.
    fn default() -> (policy: Self)
        ensures
            policy == (FocusPolicy { focusable: false, disabled: false, hidden: false }),
    {
        FocusPolicy { focusable: false, disabled: false, hidden: false }
    }
}

impl FocusPolicy {
    /// An enabled, visible, focusable policy.
    pub fn focusable() -> (policy: Self)
        ensures
            policy == focus_when_enabled(false),
    {
        FocusPolicy { focusable: true, disabled: false, hidden: false }
    }

    /// A focusable policy that is disabled when `disabled` holds.
    pub fn enabled_unless(disabled: bool) -> (policy: Self)
        ensures
            policy == focus_when_enabled(disabled),
    {
        FocusPolicy { focusable: true, disabled, hidden: false }
    }

    /// The policy of a widget that is hidden and so cannot take focus.
    pub fn hidden() -> (policy: Self)
        ensures
            policy == hidden_policy(),
    {
        FocusPolicy { focusable: false, disabled: false, hidden: true }
    }
}

} // verus!

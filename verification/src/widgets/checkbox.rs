use vstd::prelude::*;

use crate::direction::DirectionSetting;
use crate::focus::{focus_when_enabled, FocusPolicy};
use crate::semantics::{plain, quiet_state, SemanticAction, SemanticRole, SemanticState, Semantics};
use crate::text_util::owned;

verus! {

/// A labelled two-state checkbox.
#[derive(Clone, Debug, PartialEq)]
pub struct Checkbox {
    label: String,
    pub checked: bool,
    pub disabled: bool,
    pub direction: DirectionSetting,
}

/// The state of a checkbox as contracts see it.
pub struct CheckboxView {
    pub label: Seq<char>,
    pub checked: bool,
    pub disabled: bool,
    pub direction: DirectionSetting,
}

/// Activation: refused while disabled, else it flips `checked` and reports that it did.
pub open spec fn checkbox_activated(before: CheckboxView, after: CheckboxView, activated: bool) -> bool {
    if before.disabled {
        !activated && after == before
    } else {
        activated && after == (CheckboxView { checked: !before.checked, ..before })
    }
}

/// Activating a checkbox twice leaves it as it was: both activations go ahead or neither does.
pub proof fn lemma_checkbox_activation_undoes_itself(a: CheckboxView, b: CheckboxView, c: CheckboxView, first: bool, second: bool)
    requires
        checkbox_activated(a, b, first),
        checkbox_activated(b, c, second),
    ensures
        c == a,
        first == second,
{
}

impl View for Checkbox {
    type V = CheckboxView;

    closed spec fn view(&self) -> CheckboxView {
        CheckboxView {
            label: self.label@,
            checked: self.checked,
            disabled: self.disabled,
            direction: self.direction,
        }
    }
}

impl Checkbox {
    /// An enabled, unchecked checkbox that inherits its direction.
    pub fn new(label: &str) -> (control: Self)
        ensures
            control@ == (CheckboxView {
                label: label@,
                checked: false,
                disabled: false,
                direction: DirectionSetting::Inherit,
            }),
    {
        Checkbox { label: owned(label), checked: false, disabled: false, direction: DirectionSetting::Inherit }
    }

    pub fn label(&self) -> (label: &str)
        ensures
            label@ == self@.label,
    {
        self.label.as_str()
    }

    pub fn set_label(&mut self, label: &str)
        ensures
            final(self)@ == (CheckboxView { label: label@, ..old(self)@ }),
    {
        self.label = owned(label);
    }

    /// Flips the checkbox unless it is disabled; reports whether it flipped.
    pub fn activate(&mut self) -> (activated: bool)
        ensures
            checkbox_activated(old(self)@, final(self)@, activated),
    {
        if self.disabled {
            return false;
        }
        self.checked = !self.checked;
        true
    }

    /// A checkbox named by its label, reporting whether it is checked and disabled.
    pub fn semantics(&self) -> (s: Semantics)
        ensures
            plain(
                s,
                SemanticRole::Checkbox,
                Some(self@.label),
                None,
                SemanticState { checked: Some(self@.checked), disabled: self@.disabled, ..quiet_state() },
                seq![SemanticAction::Focus, SemanticAction::Activate],
            ),
    {
        let mut semantics = Semantics::new(SemanticRole::Checkbox).with_name(self.label.clone()).with_action(
            SemanticAction::Focus,
        ).with_action(SemanticAction::Activate);
        semantics.state.checked = Some(self.checked);
        semantics.state.disabled = self.disabled;
        semantics
    }

    /// Focusable, and disabled when the checkbox is.
    pub fn focus_policy(&self) -> (policy: FocusPolicy)
        ensures
            policy == focus_when_enabled(self@.disabled),
    {
        FocusPolicy::enabled_unless(self.disabled)
    }
}

impl Checkbox {
    /// Sets `checked`; nothing else changes.
    pub fn set_checked(&mut self, checked: bool)
        ensures
            final(self)@ == (CheckboxView { checked: checked, ..old(self)@ }),
    {
        self.checked = checked;
    }

    /// Whether `checked` is set.
    pub fn is_checked(&self) -> (r: bool)
        ensures
            r == self@.checked,
    {
        self.checked
    }

    /// Sets `disabled`; nothing else changes.
    pub fn set_disabled(&mut self, disabled: bool)
        ensures
            final(self)@ == (CheckboxView { disabled: disabled, ..old(self)@ }),
    {
        self.disabled = disabled;
    }

    /// Whether `disabled` is set.
    pub fn is_disabled(&self) -> (r: bool)
        ensures
            r == self@.disabled,
    {
        self.disabled
    }

    /// Sets `direction`; nothing else changes.
    pub fn set_direction(&mut self, direction: DirectionSetting)
        ensures
            final(self)@ == (CheckboxView { direction: direction, ..old(self)@ }),
    {
        self.direction = direction;
    }
}

} // verus!

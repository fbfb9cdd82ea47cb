use vstd::prelude::*;

use crate::direction::DirectionSetting;
use crate::focus::{focus_when_enabled, FocusPolicy};
use crate::semantics::{plain, quiet_state, SemanticAction, SemanticRole, SemanticState, Semantics};
use crate::text_util::owned;

verus! {

/// A labelled on/off switch.
#[derive(Clone, Debug, PartialEq)]
pub struct Switch {
    label: String,
    pub checked: bool,
    pub disabled: bool,
    pub direction: DirectionSetting,
}

/// The state of a switch as contracts see it.
pub struct SwitchView {
    pub label: Seq<char>,
    pub checked: bool,
    pub disabled: bool,
    pub direction: DirectionSetting,
}

/// Activation: refused while disabled, else it flips `checked` and reports that it did.
pub open spec fn switch_activated(before: SwitchView, after: SwitchView, activated: bool) -> bool {
    if before.disabled {
        !activated && after == before
    } else {
        activated && after == (SwitchView { checked: !before.checked, ..before })
    }
}

/// Activating a switch twice leaves it as it was: both activations go ahead or neither does.
pub proof fn lemma_switch_activation_undoes_itself(a: SwitchView, b: SwitchView, c: SwitchView, first: bool, second: bool)
    requires
        switch_activated(a, b, first),
        switch_activated(b, c, second),
    ensures
        c == a,
        first == second,
{
}

impl View for Switch {
    type V = SwitchView;

    closed spec fn view(&self) -> SwitchView {
        SwitchView {
            label: self.label@,
            checked: self.checked,
            disabled: self.disabled,
            direction: self.direction,
        }
    }
}

impl Switch {
    /// An enabled, off switch that inherits its direction.
    pub fn new(label: &str) -> (control: Self)
        ensures
            control@ == (SwitchView {
                label: label@,
                checked: false,
                disabled: false,
                direction: DirectionSetting::Inherit,
            }),
    {
        Switch { label: owned(label), checked: false, disabled: false, direction: DirectionSetting::Inherit }
    }

    pub fn label(&self) -> (label: &str)
        ensures
            label@ == self@.label,
    {
        self.label.as_str()
    }

    pub fn set_label(&mut self, label: &str)
        ensures
            final(self)@ == (SwitchView { label: label@, ..old(self)@ }),
    {
        self.label = owned(label);
    }

    /// Flips the switch unless it is disabled; reports whether it flipped.
    pub fn activate(&mut self) -> (activated: bool)
        ensures
            switch_activated(old(self)@, final(self)@, activated),
    {
        if self.disabled {
            return false;
        }
        self.checked = !self.checked;
        true
    }

    /// A switch named by its label, reporting whether it is on and disabled.
    pub fn semantics(&self) -> (s: Semantics)
        ensures
            plain(
                s,
                SemanticRole::Switch,
                Some(self@.label),
                None,
                SemanticState { checked: Some(self@.checked), disabled: self@.disabled, ..quiet_state() },
                seq![SemanticAction::Focus, SemanticAction::Activate],
            ),
    {
        let mut semantics = Semantics::new(SemanticRole::Switch).with_name(self.label.clone()).with_action(
            SemanticAction::Focus,
        ).with_action(SemanticAction::Activate);
        semantics.state.checked = Some(self.checked);
        semantics.state.disabled = self.disabled;
        semantics
    }

    /// Focusable, and disabled when the switch is.
    pub fn focus_policy(&self) -> (policy: FocusPolicy)
        ensures
            policy == focus_when_enabled(self@.disabled),
    {
        FocusPolicy::enabled_unless(self.disabled)
    }
}

impl Switch {
    /// Sets `checked`; nothing else changes.
    pub fn set_checked(&mut self, checked: bool)
        ensures
            final(self)@ == (SwitchView { checked: checked, ..old(self)@ }),
    {
        self.checked = checked;
    }

    /// Whether `checked` is set.
    pub fn is_checked(&self) -> (r: bool)
        ensures
            r == self@.checked,
    {
        self.checked
    }

    /// Sets `disabled`; nothing else changes.
    pub fn set_disabled(&mut self, disabled: bool)
        ensures
            final(self)@ == (SwitchView { disabled: disabled, ..old(self)@ }),
    {
        self.disabled = disabled;
    }

    /// Whether `disabled` is set.
    pub fn is_disabled(&self) -> (r: bool)
        ensures
            r == self@.disabled,
    {
        self.disabled
    }

    /// Sets `direction`; nothing else changes.
    pub fn set_direction(&mut self, direction: DirectionSetting)
        ensures
            final(self)@ == (SwitchView { direction: direction, ..old(self)@ }),
    {
        self.direction = direction;
    }
}

} // verus!

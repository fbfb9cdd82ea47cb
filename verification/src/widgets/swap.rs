use vstd::prelude::*;

use crate::direction::DirectionSetting;
use crate::focus::{focus_when_enabled, FocusPolicy};
use crate::semantics::{plain, quiet_state, SemanticAction, SemanticRole, SemanticState, Semantics};
use crate::style::{default_style, ComponentStyle};
use crate::text_util::owned;

verus! {

/// A button that swaps between two contents, such as play and pause.
#[derive(Clone, Debug, PartialEq)]
pub struct Swap {
    label: String,
    off_content: String,
    on_content: String,
    pub on: bool,
    pub style: ComponentStyle,
    pub direction: DirectionSetting,
}

/// The state of a swap as contracts see it.
pub struct SwapView {
    pub label: Seq<char>,
    pub off_content: Seq<char>,
    pub on_content: Seq<char>,
    pub on: bool,
    pub style: ComponentStyle,
    pub direction: DirectionSetting,
}

/// Activation: refused while disabled, else it swaps the content shown.
pub open spec fn swap_activated(before: SwapView, after: SwapView, activated: bool) -> bool {
    if before.style.state.disabled {
        !activated && after == before
    } else {
        activated && after == (SwapView { on: !before.on, ..before })
    }
}

/// Activating a swap twice shows the content it showed before.
pub proof fn lemma_swap_activation_undoes_itself(a: SwapView, b: SwapView, c: SwapView, first: bool, second: bool)
    requires
        swap_activated(a, b, first),
        swap_activated(b, c, second),
    ensures
        c == a,
        c.shown() == a.shown(),
        first == second,
{
}

impl View for Swap {
    type V = SwapView;

    closed spec fn view(&self) -> SwapView {
        SwapView {
            label: self.label@,
            off_content: self.off_content@,
            on_content: self.on_content@,
            on: self.on,
            style: self.style,
            direction: self.direction,
        }
    }
}

impl SwapView {
    /// The content shown in the current state.
    pub open spec fn shown(self) -> Seq<char> {
        if self.on {
            self.on_content
        } else {
            self.off_content
        }
    }
}

impl Swap {
    /// A swap that starts off, in the default style.
    pub fn new(label: &str, off_content: &str, on_content: &str) -> (swap: Self)
        ensures
            swap@ == (SwapView {
                label: label@,
                off_content: off_content@,
                on_content: on_content@,
                on: false,
                style: default_style(),
                direction: DirectionSetting::Inherit,
            }),
    {
        Swap {
            label: owned(label),
            off_content: owned(off_content),
            on_content: owned(on_content),
            on: false,
            style: ComponentStyle::default(),
            direction: DirectionSetting::Inherit,
        }
    }

    pub fn label(&self) -> (label: &str)
        ensures
            label@ == self@.label,
    {
        self.label.as_str()
    }

    /// The content for the current state.
    pub fn content(&self) -> (content: &str)
        ensures
            content@ == self@.shown(),
    {
        if self.on {
            self.on_content.as_str()
        } else {
            self.off_content.as_str()
        }
    }

    /// Swaps the state unless disabled; reports whether it swapped.
    pub fn activate(&mut self) -> (activated: bool)
        ensures
            swap_activated(old(self)@, final(self)@, activated),
    {
        if self.style.state.disabled {
            return false;
        }
        self.on = !self.on;
        true
    }

    /// A switch named by its label, valued by the shown content, checked when on.
    pub fn semantics(&self) -> (s: Semantics)
        ensures
            plain(
                s,
                SemanticRole::Switch,
                Some(self@.label),
                Some(self@.shown()),
                SemanticState {
                    checked: Some(self@.on),
                    disabled: self@.style.state.disabled,
                    ..quiet_state()
                },
                seq![SemanticAction::Focus, SemanticAction::Activate],
            ),
    {
        let mut semantics = Semantics::new(SemanticRole::Switch).with_name(self.label.clone()).with_value(
            owned(self.content()),
        ).with_action(SemanticAction::Focus).with_action(SemanticAction::Activate);
        semantics.state.checked = Some(self.on);
        semantics.state.disabled = self.style.state.disabled;
        semantics
    }

    pub fn focus_policy(&self) -> (policy: FocusPolicy)
        ensures
            policy == focus_when_enabled(self@.style.state.disabled),
    {
        FocusPolicy::enabled_unless(self.style.state.disabled)
    }
}

impl Swap {
    /// Sets `on`; nothing else changes.
    pub fn set_on(&mut self, on: bool)
        ensures
            final(self)@ == (SwapView { on: on, ..old(self)@ }),
    {
        self.on = on;
    }

    /// Whether `on` is set.
    pub fn is_on(&self) -> (r: bool)
        ensures
            r == self@.on,
    {
        self.on
    }

    /// Sets `style`; nothing else changes.
    pub fn set_style(&mut self, style: ComponentStyle)
        ensures
            final(self)@ == (SwapView { style: style, ..old(self)@ }),
    {
        self.style = style;
    }

    /// Sets `direction`; nothing else changes.
    pub fn set_direction(&mut self, direction: DirectionSetting)
        ensures
            final(self)@ == (SwapView { direction: direction, ..old(self)@ }),
    {
        self.direction = direction;
    }
}

} // verus!

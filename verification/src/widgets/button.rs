use vstd::prelude::*;

use crate::direction::DirectionSetting;
use crate::focus::{focus_when_enabled, FocusPolicy};
use crate::semantics::{plain, quiet_state, SemanticAction, SemanticRole, SemanticState, Semantics};
use crate::style::{default_style, AdornmentPlacement, ComponentStyle};
use crate::text_util::owned;
use crate::widgets::icon::Icon;

verus! {

/// The semantics of a push button: named, focusable and activatable, maybe disabled.
pub open spec fn button_semantics(s: Semantics, name: Seq<char>, disabled: bool) -> bool {
    plain(
        s,
        SemanticRole::Button,
        Some(name),
        None,
        SemanticState { disabled, ..quiet_state() },
        seq![SemanticAction::Focus, SemanticAction::Activate],
    )
}

/// Builds the semantics of a push button.
pub fn button_semantics_for(name: String, disabled: bool) -> (s: Semantics)
    ensures
        button_semantics(s, name@, disabled),
{
    let mut semantics = Semantics::new(SemanticRole::Button).with_name(name).with_action(
        SemanticAction::Focus,
    ).with_action(SemanticAction::Activate);
    semantics.state.disabled = disabled;
    semantics
}

/// A push button with a label and an optional icon.
#[derive(Clone, Debug, PartialEq)]
pub struct Button {
    pub(crate) label: String,
    pub style: ComponentStyle,
    pub direction: DirectionSetting,
    pub(crate) icon: Option<Icon>,
}

/// The state of a button as contracts see it.
pub struct ButtonView {
    pub label: Seq<char>,
    pub style: ComponentStyle,
    pub direction: DirectionSetting,
    pub icon: Option<Icon>,
}

impl View for Button {
    type V = ButtonView;

    closed spec fn view(&self) -> ButtonView {
        ButtonView {
            label: self.label@,
            style: self.style,
            direction: self.direction,
            icon: self.icon,
        }
    }
}

impl Button {
    /// A button in the default style, without icon, inheriting its direction.
    pub fn new(label: &str) -> (button: Self)
        ensures
            button@ == (ButtonView {
                label: label@,
                style: default_style(),
                direction: DirectionSetting::Inherit,
                icon: None,
            }),
    {
        Button {
            label: owned(label),
            style: ComponentStyle::default(),
            direction: DirectionSetting::Inherit,
            icon: None,
        }
    }

    pub fn label(&self) -> (label: &str)
        ensures
            label@ == self@.label,
    {
        self.label.as_str()
    }

    pub fn set_label(&mut self, label: &str)
        ensures
            final(self)@ == (ButtonView { label: label@, ..old(self)@ }),
    {
        self.label = owned(label);
    }

    /// The button with an icon placed as given.
    pub fn with_icon(self, icon: Icon, placement: AdornmentPlacement) -> (button: Self)
        ensures
            button@ == (ButtonView {
                icon: Some(icon),
                style: ComponentStyle { adornment: placement, ..self@.style },
                ..self@
            }),
    {
        let mut button = self;
        button.icon = Some(icon);
        button.style.adornment = placement;
        button
    }

    pub fn icon(&self) -> (icon: Option<&Icon>)
        ensures
            match icon {
                Some(i) => self@.icon == Some(*i),
                None => self@.icon is None,
            },
    {
        match &self.icon {
            Some(i) => Some(i),
            None => None,
        }
    }

    pub fn set_icon(&mut self, icon: Option<Icon>)
        ensures
            final(self)@ == (ButtonView { icon, ..old(self)@ }),
    {
        self.icon = icon;
    }

    pub(crate) fn is_disabled(&self) -> (disabled: bool)
        ensures
            disabled == self@.style.state.disabled,
    {
        self.style.state.disabled
    }

    /// Named by its label; disabled with its style.
    pub fn semantics(&self) -> (s: Semantics)
        ensures
            button_semantics(s, self@.label, self@.style.state.disabled),
    {
        button_semantics_for(self.label.clone(), self.style.state.disabled)
    }

    /// Focusable, and disabled with its style.
    pub fn focus_policy(&self) -> (policy: FocusPolicy)
        ensures
            policy == focus_when_enabled(self@.style.state.disabled),
    {
        FocusPolicy::enabled_unless(self.style.state.disabled)
    }
}

/// A square button that shows only an icon; its label names it for assistive technology.
#[derive(Clone, Debug, PartialEq)]
pub struct IconButton {
    pub(crate) label: String,
    pub icon: Icon,
    pub style: ComponentStyle,
    pub direction: DirectionSetting,
}

/// The state of an icon button as contracts see it.
pub struct IconButtonView {
    pub label: Seq<char>,
    pub icon: Icon,
    pub style: ComponentStyle,
    pub direction: DirectionSetting,
}

impl View for IconButton {
    type V = IconButtonView;

    closed spec fn view(&self) -> IconButtonView {
        IconButtonView {
            label: self.label@,
            icon: self.icon,
            style: self.style,
            direction: self.direction,
        }
    }
}

impl IconButton {
    pub fn new(icon: Icon, label: &str) -> (button: Self)
        ensures
            button@ == (IconButtonView {
                label: label@,
                icon,
                style: default_style(),
                direction: DirectionSetting::Inherit,
            }),
    {
        IconButton {
            label: owned(label),
            icon,
            style: ComponentStyle::default(),
            direction: DirectionSetting::Inherit,
        }
    }

    pub fn label(&self) -> (label: &str)
        ensures
            label@ == self@.label,
    {
        self.label.as_str()
    }

    pub fn set_label(&mut self, label: &str)
        ensures
            final(self)@ == (IconButtonView { label: label@, ..old(self)@ }),
    {
        self.label = owned(label);
    }

    /// Named by its label, not by its icon; disabled with its style.
    pub fn semantics(&self) -> (s: Semantics)
        ensures
            button_semantics(s, self@.label, self@.style.state.disabled),
    {
        button_semantics_for(self.label.clone(), self.style.state.disabled)
    }

    pub fn focus_policy(&self) -> (policy: FocusPolicy)
        ensures
            policy == focus_when_enabled(self@.style.state.disabled),
    {
        FocusPolicy::enabled_unless(self.style.state.disabled)
    }
}

impl Button {
    /// Sets `style`; nothing else changes.
    pub fn set_style(&mut self, style: ComponentStyle)
        ensures
            final(self)@ == (ButtonView { style: style, ..old(self)@ }),
    {
        self.style = style;
    }

    /// Sets `direction`; nothing else changes.
    pub fn set_direction(&mut self, direction: DirectionSetting)
        ensures
            final(self)@ == (ButtonView { direction: direction, ..old(self)@ }),
    {
        self.direction = direction;
    }
}

impl IconButton {
    /// Sets `icon`; nothing else changes.
    pub fn set_icon(&mut self, icon: Icon)
        ensures
            final(self)@ == (IconButtonView { icon: icon, ..old(self)@ }),
    {
        self.icon = icon;
    }

    /// Sets `style`; nothing else changes.
    pub fn set_style(&mut self, style: ComponentStyle)
        ensures
            final(self)@ == (IconButtonView { style: style, ..old(self)@ }),
    {
        self.style = style;
    }

    /// Sets `direction`; nothing else changes.
    pub fn set_direction(&mut self, direction: DirectionSetting)
        ensures
            final(self)@ == (IconButtonView { direction: direction, ..old(self)@ }),
    {
        self.direction = direction;
    }
}

} // verus!

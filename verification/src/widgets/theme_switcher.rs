use vstd::prelude::*;

use crate::direction::DirectionSetting;
use crate::focus::{focus_when_enabled, FocusPolicy};
use crate::semantics::{plain, quiet_state, SemanticAction, SemanticRole, SemanticState, Semantics};
use crate::style::{default_style, ComponentStyle, ThemeMode};
use crate::text_util::owned;

verus! {

/// The mode that follows in the cycle system → light → dark → system.
pub open spec fn next_mode(mode: ThemeMode) -> ThemeMode {
    match mode {
        ThemeMode::System => ThemeMode::Light,
        ThemeMode::Light => ThemeMode::Dark,
        ThemeMode::Dark => ThemeMode::System,
    }
}

/// The label shown for a mode.
pub open spec fn mode_name(mode: ThemeMode) -> Seq<char> {
    match mode {
        ThemeMode::System => "System"@,
        ThemeMode::Light => "Light"@,
        ThemeMode::Dark => "Dark"@,
    }
}

/// A button that cycles the theme mode.
#[derive(Clone, Debug, PartialEq)]
pub struct ThemeSwitcher {
    label: String,
    pub mode: ThemeMode,
    pub style: ComponentStyle,
    pub direction: DirectionSetting,
}

/// The state of a theme switcher as contracts see it.
pub struct ThemeSwitcherView {
    pub label: Seq<char>,
    pub mode: ThemeMode,
    pub style: ComponentStyle,
    pub direction: DirectionSetting,
}

impl View for ThemeSwitcher {
    type V = ThemeSwitcherView;

    closed spec fn view(&self) -> ThemeSwitcherView {
        ThemeSwitcherView {
            label: self.label@,
            mode: self.mode,
            style: self.style,
            direction: self.direction,
        }
    }
}

impl ThemeSwitcher {
    /// A switcher that starts by following the system.
    pub fn new(label: &str) -> (switcher: Self)
        ensures
            switcher@ == (ThemeSwitcherView {
                label: label@,
                mode: ThemeMode::System,
                style: default_style(),
                direction: DirectionSetting::Inherit,
            }),
    {
        ThemeSwitcher {
            label: owned(label),
            mode: ThemeMode::System,
            style: ComponentStyle::default(),
            direction: DirectionSetting::Inherit,
        }
    }

    pub fn label(&self) -> (label: &str)
        ensures
            label@ == self@.label,
    {
        self.label.as_str()
    }

    /// "System", "Light" or "Dark".
    pub fn mode_label(&self) -> (label: &'static str)
        ensures
            label@ == mode_name(self@.mode),
    {
        match self.mode {
            ThemeMode::System => "System",
            ThemeMode::Light => "Light",
            ThemeMode::Dark => "Dark",
        }
    }

    /// Moves to the next mode unless disabled, and returns it.
    pub fn activate(&mut self) -> (mode: Option<ThemeMode>)
        ensures
            if old(self)@.style.state.disabled {
                mode is None && final(self)@ == old(self)@
            } else {
                mode == Some(next_mode(old(self)@.mode)) && final(self)@ == (ThemeSwitcherView {
                    mode: next_mode(old(self)@.mode),
                    ..old(self)@
                })
            },
    {
        if self.style.state.disabled {
            return None;
        }
        self.mode = match self.mode {
            ThemeMode::System => ThemeMode::Light,
            ThemeMode::Light => ThemeMode::Dark,
            ThemeMode::Dark => ThemeMode::System,
        };
        Some(self.mode)
    }

    /// A button named by its label and valued by the mode's name.
    pub fn semantics(&self) -> (s: Semantics)
        ensures
            plain(
                s,
                SemanticRole::Button,
                Some(self@.label),
                Some(mode_name(self@.mode)),
                SemanticState { disabled: self@.style.state.disabled, ..quiet_state() },
                seq![SemanticAction::Focus, SemanticAction::Activate],
            ),
    {
        let mut semantics = Semantics::new(SemanticRole::Button).with_name(self.label.clone()).with_value(
            owned(self.mode_label()),
        ).with_action(SemanticAction::Focus).with_action(SemanticAction::Activate);
        semantics.state.disabled = self.style.state.disabled;
        semantics
    }

    pub fn focus_policy(&self) -> (policy: FocusPolicy)
        ensures
            policy == focus_when_enabled(self@.style.state.disabled),
    {
        FocusPolicy::enabled_unless(self.style.state.disabled)
    }
}


/// Each activation moves to another mode, and three activations come back to the
/// mode they started from: System, Light, Dark, then System again.
pub proof fn lemma_modes_cycle_in_three(mode: ThemeMode)
    ensures
        next_mode(mode) != mode,
        next_mode(next_mode(mode)) != mode,
        next_mode(next_mode(next_mode(mode))) == mode,
{
}

impl ThemeSwitcher {
    /// Sets `mode`; nothing else changes.
    pub fn set_mode(&mut self, mode: ThemeMode)
        ensures
            final(self)@ == (ThemeSwitcherView { mode: mode, ..old(self)@ }),
    {
        self.mode = mode;
    }

    /// Sets `style`; nothing else changes.
    pub fn set_style(&mut self, style: ComponentStyle)
        ensures
            final(self)@ == (ThemeSwitcherView { style: style, ..old(self)@ }),
    {
        self.style = style;
    }

    /// Sets `direction`; nothing else changes.
    pub fn set_direction(&mut self, direction: DirectionSetting)
        ensures
            final(self)@ == (ThemeSwitcherView { direction: direction, ..old(self)@ }),
    {
        self.direction = direction;
    }
}

} // verus!

use vstd::prelude::*;

use crate::focus::{hidden_policy, focus_when_enabled, FocusPolicy};
use crate::input::{Key, KeyState, KeyboardEvent};
use crate::semantics::{plain, quiet_state, SemanticRole, SemanticState, Semantics};
use crate::text_util::owned;

use crate::direction::DirectionSetting;
use crate::widgets::tooltip::TooltipPlacement;

verus! {

/// What a request to the popover did.
#[derive(Clone, Copy, Debug, PartialEq, Eq, Structural, Hash)]
pub enum PopoverAction {
    NoChange,
    Opened,
    Dismissed,
}

/// A non-modal panel anchored to another widget.
#[derive(Clone, Debug, PartialEq)]
pub struct Popover {
    label: String,
    pub open: bool,
    pub placement: TooltipPlacement,
    pub direction: DirectionSetting,
}

/// The state of a popover as contracts see it.
pub struct PopoverView {
    pub label: Seq<char>,
    pub open: bool,
    pub placement: TooltipPlacement,
    pub direction: DirectionSetting,
}

impl View for Popover {
    type V = PopoverView;

    closed spec fn view(&self) -> PopoverView {
        PopoverView { label: self.label@, open: self.open, placement: self.placement, direction: self.direction }
    }
}

/// Escape pressed for the first time, without repeat.
pub open spec fn is_escape_press(event: KeyboardEvent) -> bool {
    event.state == KeyState::Pressed && !event.repeat && event.key == Key::Escape
}

impl Popover {
    /// A closed popover placed at the block end of its anchor.
    pub fn new(label: &str) -> (popover: Self)
        ensures
            popover@ == (PopoverView { label: label@, open: false, placement: TooltipPlacement::BlockEnd, direction: DirectionSetting::Inherit }),
    {
        Popover { label: owned(label), open: false, placement: TooltipPlacement::BlockEnd, direction: DirectionSetting::Inherit }
    }

    pub fn label(&self) -> (label: &str)
        ensures
            label@ == self@.label,
    {
        self.label.as_str()
    }

    /// Opens a closed popover; an open one stays as it is.
    pub fn open(&mut self) -> (action: PopoverAction)
        ensures
            if old(self)@.open {
                action == PopoverAction::NoChange && final(self)@ == old(self)@
            } else {
                action == PopoverAction::Opened && final(self)@ == (PopoverView { open: true, ..old(self)@ })
            },
    {
        if self.open {
            PopoverAction::NoChange
        } else {
            self.open = true;
            PopoverAction::Opened
        }
    }

    /// Closes an open popover; otherwise nothing changes.
    pub fn dismiss(&mut self) -> (action: PopoverAction)
        ensures
            if old(self)@.open {
                action == PopoverAction::Dismissed && final(self)@ == (PopoverView { open: false, ..old(self)@ })
            } else {
                action == PopoverAction::NoChange && final(self)@ == old(self)@
            },
    {
        if self.open {
            self.open = false;
            PopoverAction::Dismissed
        } else {
            PopoverAction::NoChange
        }
    }

    /// Escape dismisses an open popover; every other event is ignored.
    pub fn handle_key(&mut self, event: &KeyboardEvent) -> (action: PopoverAction)
        ensures
            if old(self)@.open && is_escape_press(*event) {
                if old(self)@.open {
                    action == PopoverAction::Dismissed && final(self)@ == (PopoverView { open: false, ..old(self)@ })
                } else {
                    action == PopoverAction::NoChange && final(self)@ == old(self)@
                }
            } else {
                action == PopoverAction::NoChange && final(self)@ == old(self)@
            },
    {
        let escape = match event.key {
            Key::Escape => true,
            _ => false,
        };
        if self.open && event.state == KeyState::Pressed && !event.repeat && escape {
            self.dismiss()
        } else {
            PopoverAction::NoChange
        }
    }

    /// A dialog named by its label, hidden while closed.
    pub fn semantics(&self) -> (s: Semantics)
        ensures
            plain(
                s,
                SemanticRole::Dialog,
                Some(self@.label),
                None,
                SemanticState { hidden: !self@.open, ..quiet_state() },
                seq![],
            ),
    {
        let mut semantics = Semantics::new(SemanticRole::Dialog).with_name(self.label.clone());
        semantics.state.hidden = !self.open;
        semantics
    }

    /// Focusable while open; hidden from focus while closed.
    pub fn focus_policy(&self) -> (policy: FocusPolicy)
        ensures
            policy == (if self@.open {
                focus_when_enabled(false)
            } else {
                hidden_policy()
            }),
    {
        if self.open {
            FocusPolicy::focusable()
        } else {
            FocusPolicy::hidden()
        }
    }
}

impl Popover {
    /// Sets `open`; nothing else changes.
    pub fn set_open(&mut self, open: bool)
        ensures
            final(self)@ == (PopoverView { open: open, ..old(self)@ }),
    {
        self.open = open;
    }

    /// Whether `open` is set.
    pub fn is_open(&self) -> (r: bool)
        ensures
            r == self@.open,
    {
        self.open
    }

    /// Sets `placement`; nothing else changes.
    pub fn set_placement(&mut self, placement: TooltipPlacement)
        ensures
            final(self)@ == (PopoverView { placement: placement, ..old(self)@ }),
    {
        self.placement = placement;
    }
}

impl Popover {
    /// Sets `direction`; nothing else changes.
    pub fn set_direction(&mut self, direction: DirectionSetting)
        ensures
            final(self)@ == (PopoverView { direction: direction, ..old(self)@ }),
    {
        self.direction = direction;
    }
}

} // verus!

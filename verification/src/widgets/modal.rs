use vstd::prelude::*;

use crate::focus::{hidden_policy, focus_when_enabled, FocusPolicy};
use crate::input::{Key, KeyState, KeyboardEvent};
use crate::semantics::{plain, quiet_state, SemanticRole, SemanticState, Semantics};
use crate::text_util::owned;

verus! {

/// What a request to the modal did.
#[derive(Clone, Copy, Debug, PartialEq, Eq, Structural, Hash)]
pub enum ModalAction {
    NoChange,
    Opened,
    Dismissed,
}

/// A modal dialog over a scrim.
#[derive(Clone, Debug, PartialEq)]
pub struct Modal {
    label: String,
    pub open: bool,
    pub dismissible: bool,
}

/// The state of a modal as contracts see it.
pub struct ModalView {
    pub label: Seq<char>,
    pub open: bool,
    pub dismissible: bool,
}

impl View for Modal {
    type V = ModalView;

    closed spec fn view(&self) -> ModalView {
        ModalView { label: self.label@, open: self.open, dismissible: self.dismissible }
    }
}

/// Escape pressed for the first time, without repeat.
pub open spec fn is_escape_press(event: KeyboardEvent) -> bool {
    event.state == KeyState::Pressed && !event.repeat && event.key == Key::Escape
}

impl Modal {
    /// A closed modal that the user may dismiss.
    pub fn new(label: &str) -> (modal: Self)
        ensures
            modal@ == (ModalView { label: label@, open: false, dismissible: true }),
    {
        Modal { label: owned(label), open: false, dismissible: true }
    }

    pub fn label(&self) -> (label: &str)
        ensures
            label@ == self@.label,
    {
        self.label.as_str()
    }

    /// Opens a closed modal; an open one stays as it is.
    pub fn open(&mut self) -> (action: ModalAction)
        ensures
            if old(self)@.open {
                action == ModalAction::NoChange && final(self)@ == old(self)@
            } else {
                action == ModalAction::Opened && final(self)@ == (ModalView { open: true, ..old(self)@ })
            },
    {
        if self.open {
            ModalAction::NoChange
        } else {
            self.open = true;
            ModalAction::Opened
        }
    }

    /// Closes an open dismissible modal; otherwise nothing changes.
    pub fn dismiss(&mut self) -> (action: ModalAction)
        ensures
            if old(self)@.open && old(self)@.dismissible {
                action == ModalAction::Dismissed && final(self)@ == (ModalView { open: false, ..old(self)@ })
            } else {
                action == ModalAction::NoChange && final(self)@ == old(self)@
            },
    {
        if self.open && self.dismissible {
            self.open = false;
            ModalAction::Dismissed
        } else {
            ModalAction::NoChange
        }
    }

    /// Escape dismisses a dismissible modal; every other event is ignored.
    pub fn handle_key(&mut self, event: &KeyboardEvent) -> (action: ModalAction)
        ensures
            if is_escape_press(*event) {
                if old(self)@.open && old(self)@.dismissible {
                    action == ModalAction::Dismissed && final(self)@ == (ModalView { open: false, ..old(self)@ })
                } else {
                    action == ModalAction::NoChange && final(self)@ == old(self)@
                }
            } else {
                action == ModalAction::NoChange && final(self)@ == old(self)@
            },
    {
        let escape = match event.key {
            Key::Escape => true,
            _ => false,
        };
        if event.state == KeyState::Pressed && !event.repeat && escape {
            self.dismiss()
        } else {
            ModalAction::NoChange
        }
    }

    /// A dialog named by its label, hidden while closed.
    pub fn semantics(&self) -> (s: Semantics)
        ensures
            plain(
                s,
                SemanticRole::Dialog,
                Some(self@.label),
                None,
                SemanticState { hidden: !self@.open, ..quiet_state() },
                seq![],
            ),
    {
        let mut semantics = Semantics::new(SemanticRole::Dialog).with_name(self.label.clone());
        semantics.state.hidden = !self.open;
        semantics
    }

    /// Focusable while open; hidden from focus while closed.
    pub fn focus_policy(&self) -> (policy: FocusPolicy)
        ensures
            policy == (if self@.open {
                focus_when_enabled(false)
            } else {
                hidden_policy()
            }),
    {
        if self.open {
            FocusPolicy::focusable()
        } else {
            FocusPolicy::hidden()
        }
    }
}

impl Modal {
    /// Sets `open`; nothing else changes.
    pub fn set_open(&mut self, open: bool)
        ensures
            final(self)@ == (ModalView { open: open, ..old(self)@ }),
    {
        self.open = open;
    }

    /// Whether `open` is set.
    pub fn is_open(&self) -> (r: bool)
        ensures
            r == self@.open,
    {
        self.open
    }
}

impl Modal {
    /// Sets `dismissible`; nothing else changes.
    pub fn set_dismissible(&mut self, dismissible: bool)
        ensures
            final(self)@ == (ModalView { dismissible: dismissible, ..old(self)@ }),
    {
        self.dismissible = dismissible;
    }

    /// Whether `dismissible` is set.
    pub fn is_dismissible(&self) -> (r: bool)
        ensures
            r == self@.dismissible,
    {
        self.dismissible
    }
}

} // verus!

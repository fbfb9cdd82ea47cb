use vstd::prelude::*;

use crate::focus::{hidden_policy, focus_when_enabled, FocusPolicy};
use crate::input::{Key, KeyState, KeyboardEvent};
use crate::semantics::{plain, quiet_state, SemanticRole, SemanticState, Semantics};
use crate::text_util::owned;

use crate::direction::DirectionSetting;

verus! {

/// The logical edge a drawer enters from.
#[derive(Clone, Copy, Debug, PartialEq, Eq, Structural, Hash)]
pub enum DrawerEdge {
    InlineStart,
    InlineEnd,
}

/// What a request to the drawer did.
#[derive(Clone, Copy, Debug, PartialEq, Eq, Structural, Hash)]
pub enum DrawerAction {
    NoChange,
    Opened,
    Dismissed,
}

/// A panel that slides in from a logical edge of the viewport.
#[derive(Clone, Debug, PartialEq)]
pub struct Drawer {
    label: String,
    pub open: bool,
    pub dismissible: bool,
    pub edge: DrawerEdge,
    pub direction: DirectionSetting,
}

/// The state of a drawer as contracts see it.
pub struct DrawerView {
    pub label: Seq<char>,
    pub open: bool,
    pub dismissible: bool,
    pub edge: DrawerEdge,
    pub direction: DirectionSetting,
}

impl View for Drawer {
    type V = DrawerView;

    closed spec fn view(&self) -> DrawerView {
        DrawerView { label: self.label@, open: self.open, dismissible: self.dismissible, edge: self.edge, direction: self.direction }
    }
}

/// Escape pressed for the first time, without repeat.
pub open spec fn is_escape_press(event: KeyboardEvent) -> bool {
    event.state == KeyState::Pressed && !event.repeat && event.key == Key::Escape
}

impl Drawer {
    /// A closed drawer at the inline start that the user may dismiss.
    pub fn new(label: &str) -> (drawer: Self)
        ensures
            drawer@ == (DrawerView { label: label@, open: false, dismissible: true, edge: DrawerEdge::InlineStart, direction: DirectionSetting::Inherit }),
    {
        Drawer { label: owned(label), open: false, dismissible: true, edge: DrawerEdge::InlineStart, direction: DirectionSetting::Inherit }
    }

    pub fn label(&self) -> (label: &str)
        ensures
            label@ == self@.label,
    {
        self.label.as_str()
    }

    /// Opens a closed drawer; an open one stays as it is.
    pub fn open(&mut self) -> (action: DrawerAction)
        ensures
            if old(self)@.open {
                action == DrawerAction::NoChange && final(self)@ == old(self)@
            } else {
                action == DrawerAction::Opened && final(self)@ == (DrawerView { open: true, ..old(self)@ })
            },
    {
        if self.open {
            DrawerAction::NoChange
        } else {
            self.open = true;
            DrawerAction::Opened
        }
    }

    /// Closes an open dismissible drawer; otherwise nothing changes.
    pub fn dismiss(&mut self) -> (action: DrawerAction)
        ensures
            if old(self)@.open && old(self)@.dismissible {
                action == DrawerAction::Dismissed && final(self)@ == (DrawerView { open: false, ..old(self)@ })
            } else {
                action == DrawerAction::NoChange && final(self)@ == old(self)@
            },
    {
        if self.open && self.dismissible {
            self.open = false;
            DrawerAction::Dismissed
        } else {
            DrawerAction::NoChange
        }
    }

    /// Escape dismisses a dismissible drawer; every other event is ignored.
    pub fn handle_key(&mut self, event: &KeyboardEvent) -> (action: DrawerAction)
        ensures
            if is_escape_press(*event) {
                if old(self)@.open && old(self)@.dismissible {
                    action == DrawerAction::Dismissed && final(self)@ == (DrawerView { open: false, ..old(self)@ })
                } else {
                    action == DrawerAction::NoChange && final(self)@ == old(self)@
                }
            } else {
                action == DrawerAction::NoChange && final(self)@ == old(self)@
            },
    {
        let escape = match event.key {
            Key::Escape => true,
            _ => false,
        };
        if event.state == KeyState::Pressed && !event.repeat && escape {
            self.dismiss()
        } else {
            DrawerAction::NoChange
        }
    }

    /// A dialog named by its label, hidden while closed.
    pub fn semantics(&self) -> (s: Semantics)
        ensures
            plain(
                s,
                SemanticRole::Dialog,
                Some(self@.label),
                None,
                SemanticState { hidden: !self@.open, ..quiet_state() },
                seq![],
            ),
    {
        let mut semantics = Semantics::new(SemanticRole::Dialog).with_name(self.label.clone());
        semantics.state.hidden = !self.open;
        semantics
    }

    /// Focusable while open; hidden from focus while closed.
    pub fn focus_policy(&self) -> (policy: FocusPolicy)
        ensures
            policy == (if self@.open {
                focus_when_enabled(false)
            } else {
                hidden_policy()
            }),
    {
        if self.open {
            FocusPolicy::focusable()
        } else {
            FocusPolicy::hidden()
        }
    }
}

impl Drawer {
    /// Sets `open`; nothing else changes.
    pub fn set_open(&mut self, open: bool)
        ensures
            final(self)@ == (DrawerView { open: open, ..old(self)@ }),
    {
        self.open = open;
    }

    /// Whether `open` is set.
    pub fn is_open(&self) -> (r: bool)
        ensures
            r == self@.open,
    {
        self.open
    }

    /// Sets `dismissible`; nothing else changes.
    pub fn set_dismissible(&mut self, dismissible: bool)
        ensures
            final(self)@ == (DrawerView { dismissible: dismissible, ..old(self)@ }),
    {
        self.dismissible = dismissible;
    }

    /// Whether `dismissible` is set.
    pub fn is_dismissible(&self) -> (r: bool)
        ensures
            r == self@.dismissible,
    {
        self.dismissible
    }

    /// Sets `edge`; nothing else changes.
    pub fn set_edge(&mut self, edge: DrawerEdge)
        ensures
            final(self)@ == (DrawerView { edge: edge, ..old(self)@ }),
    {
        self.edge = edge;
    }
}

impl Drawer {
    /// Sets `direction`; nothing else changes.
    pub fn set_direction(&mut self, direction: DirectionSetting)
        ensures
            final(self)@ == (DrawerView { direction: direction, ..old(self)@ }),
    {
        self.direction = direction;
    }
}

} // verus!

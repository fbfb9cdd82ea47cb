use vstd::prelude::*;

use crate::direction::DirectionSetting;
use crate::focus::{focus_when_enabled, hidden_policy, FocusPolicy};
use crate::input::{ArrowKey, Key, KeyState, KeyboardEvent};
use crate::semantics::{quiet_state, SemanticState, Semantics};
use crate::widgets::dropdown::closes_menu;
use crate::widgets::menu::{menu_key, menu_semantics, Menu, MenuAction};

verus! {

/// What a context menu did with a request.
#[derive(Clone, Copy, Debug, PartialEq, Eq, Structural, Hash)]
pub enum ContextMenuAction {
    NoChange,
    Opened,
    ActiveChanged(usize),
    Activated(usize),
    Dismissed,
}

/// The context menu's report for what its menu did.
pub open spec fn context_report(action: MenuAction) -> ContextMenuAction {
    match action {
        MenuAction::NoChange => ContextMenuAction::NoChange,
        MenuAction::ActiveChanged(i) => ContextMenuAction::ActiveChanged(i),
        MenuAction::Activated(i) => ContextMenuAction::Activated(i),
        MenuAction::Dismissed => ContextMenuAction::Dismissed,
    }
}

/// The menu action behind a report of the open context menu.
pub open spec fn context_menu_action(action: ContextMenuAction) -> MenuAction {
    match action {
        ContextMenuAction::ActiveChanged(i) => MenuAction::ActiveChanged(i),
        ContextMenuAction::Activated(i) => MenuAction::Activated(i),
        ContextMenuAction::Dismissed => MenuAction::Dismissed,
        _ => MenuAction::NoChange,
    }
}

/// What a context menu does with one key event: a closed one ignores it; an open one
/// hands it to its menu and closes when the menu activates an item or is dismissed.
pub open spec fn context_menu_key(
    before: ContextMenu,
    after: ContextMenu,
    event: KeyboardEvent,
    action: ContextMenuAction,
) -> bool {
    &&& after.direction == before.direction
    &&& if !before.open {
        action == ContextMenuAction::NoChange && after == before
    } else {
        &&& menu_key(before.menu@, after.menu@, event, context_menu_action(action))
        &&& action == context_report(context_menu_action(action))
        &&& after.open == !closes_menu(context_menu_action(action))
    }
}

/// An open context menu closes on Escape, reporting it dismissed, and on Enter or Space,
/// reporting the active item activated; its arrows, Home and End move the active item
/// and keep it open. A closed one ignores every key.
pub proof fn lemma_context_menu_activates_and_dismisses(
    before: ContextMenu,
    after: ContextMenu,
    event: KeyboardEvent,
    action: ContextMenuAction,
)
    requires
        context_menu_key(before, after, event, action),
    ensures
        !before.open ==> action == ContextMenuAction::NoChange && after == before,
        before.open && event.state == KeyState::Pressed && !event.repeat && event.key == Key::Escape
            ==> action == ContextMenuAction::Dismissed && !after.open && after.menu@ == before.menu@,
        before.open && event.state == KeyState::Pressed && !event.repeat && (event.key == Key::Enter
            || event.key == Key::Space) ==> action == ContextMenuAction::Activated(
            before.menu@.active as usize,
        ) && !after.open && after.menu@ == before.menu@,
        before.open && event.state == KeyState::Pressed && !event.repeat && (event.key == Key::Home
            || event.key == Key::End || event.key == Key::Arrow(ArrowKey::Up) || event.key == Key::Arrow(
            ArrowKey::Down,
        )) ==> action == ContextMenuAction::ActiveChanged(after.menu@.active as usize) && after.open,
{
    if before.open && event.state == KeyState::Pressed && !event.repeat {
        let m = context_menu_action(action);
        if event.key == Key::Home || event.key == Key::End || event.key == Key::Arrow(ArrowKey::Up)
            || event.key == Key::Arrow(ArrowKey::Down) {
            assert(m is ActiveChanged);
        }
    }
}

/// A menu that opens at a pointer position.
#[derive(Debug, PartialEq)]
pub struct ContextMenu {
    pub menu: Menu,
    pub open: bool,
    pub direction: DirectionSetting,
}

impl ContextMenu {
    /// A closed context menu.
    pub fn new(menu: Menu) -> (context: Self)
        ensures
            context.menu == menu,
            !context.open,
            context.direction == DirectionSetting::Inherit,
    {
        ContextMenu { menu, open: false, direction: DirectionSetting::Inherit }
    }

    /// Opens the menu.
    pub fn open_at(&mut self) -> (action: ContextMenuAction)
        ensures
            action == ContextMenuAction::Opened,
            *final(self) == (ContextMenu { open: true, ..*old(self) }),
    {
        self.open = true;
        ContextMenuAction::Opened
    }

    /// Closes the menu; reports whether it was open.
    pub fn dismiss(&mut self) -> (was_open: bool)
        ensures
            was_open == old(self).open,
            *final(self) == (ContextMenu { open: false, ..*old(self) }),
    {
        let was_open = self.open;
        self.open = false;
        was_open
    }

    /// A closed menu ignores keys; an open one hands them to its menu and closes when
    /// the menu activates an item or is dismissed.
    pub fn handle_key(&mut self, event: &KeyboardEvent) -> (action: ContextMenuAction)
        ensures
            context_menu_key(*old(self), *final(self), *event, action),
    {
        if !self.open {
            return ContextMenuAction::NoChange;
        }
        let m = self.menu.handle_key(event);
        assert(menu_key(old(self).menu@, self.menu@, *event, m));
        match m {
            MenuAction::NoChange => {
                ContextMenuAction::NoChange
            },
            MenuAction::ActiveChanged(index) => ContextMenuAction::ActiveChanged(index),
            MenuAction::Activated(index) => {
                self.open = false;
                ContextMenuAction::Activated(index)
            },
            MenuAction::Dismissed => {
                self.open = false;
                ContextMenuAction::Dismissed
            },
        }
    }

    /// The menu's semantics, hidden while closed.
    pub fn semantics(&self) -> (s: Semantics)
        ensures
            menu_semantics(
                Semantics { state: quiet_state(), ..s },
                self.menu@.label,
                self.menu@.items,
                self.menu@.active,
            ),
            s.state == (SemanticState { hidden: !self.open, ..quiet_state() }),
    {
        let mut semantics = self.menu.semantics();
        semantics.state.hidden = !self.open;
        semantics
    }

    /// The menu's policy while open; hidden from focus while closed.
    pub fn focus_policy(&self) -> (policy: FocusPolicy)
        ensures
            policy == (if self.open {
                focus_when_enabled(false)
            } else {
                hidden_policy()
            }),
    {
        if self.open {
            self.menu.focus_policy()
        } else {
            FocusPolicy::hidden()
        }
    }
}

} // verus!

use vstd::prelude::*;

use crate::direction::DirectionSetting;
use crate::focus::{focus_when_enabled, FocusPolicy};
use crate::input::{ArrowKey, Key, KeyState, KeyboardEvent};
use crate::semantics::{
    opt_view, quiet_state, SemanticAction, SemanticRole, SemanticState, Semantics,
};
use crate::widgets::button::Button;
use crate::widgets::menu::{menu_item_semantics, menu_key, Menu, MenuAction};

verus! {

/// What a dropdown did with a request.
#[derive(Clone, Copy, Debug, PartialEq, Eq, Structural, Hash)]
pub enum DropdownAction {
    NoChange,
    Opened,
    Closed,
    ActiveChanged(usize),
    Activated(usize),
}

/// The dropdown's report for what its open menu did.
pub open spec fn dropdown_report(action: MenuAction) -> DropdownAction {
    match action {
        MenuAction::NoChange => DropdownAction::NoChange,
        MenuAction::ActiveChanged(i) => DropdownAction::ActiveChanged(i),
        MenuAction::Activated(i) => DropdownAction::Activated(i),
        MenuAction::Dismissed => DropdownAction::Closed,
    }
}

/// The menu action behind a report of the open dropdown.
pub open spec fn menu_action_of(action: DropdownAction) -> MenuAction {
    match action {
        DropdownAction::ActiveChanged(i) => MenuAction::ActiveChanged(i),
        DropdownAction::Activated(i) => MenuAction::Activated(i),
        DropdownAction::Closed => MenuAction::Dismissed,
        _ => MenuAction::NoChange,
    }
}

/// A menu action that ends the menu's session: activation or dismissal.
pub open spec fn closes_menu(action: MenuAction) -> bool {
    action is Activated || action is Dismissed
}

/// What a dropdown does with one key event: a closed one opens on Enter, Space or Down;
/// an open one hands the key to its menu and closes when the menu activates an item or
/// is dismissed. A disabled trigger, released keys and repeats do nothing.
pub open spec fn dropdown_key(before: Dropdown, after: Dropdown, event: KeyboardEvent, action: DropdownAction) -> bool {
    &&& after.trigger == before.trigger
    &&& after.direction == before.direction
    &&& if before.trigger@.style.state.disabled || event.state != KeyState::Pressed || event.repeat {
        action == DropdownAction::NoChange && after == before
    } else if !before.open {
        after.menu == before.menu && if event.key == Key::Enter || event.key == Key::Space
            || event.key == Key::Arrow(ArrowKey::Down) {
            action == DropdownAction::Opened && after.open
        } else {
            action == DropdownAction::NoChange && !after.open
        }
    } else {
        &&& menu_key(before.menu@, after.menu@, event, menu_action_of(action))
        &&& action == dropdown_report(menu_action_of(action))
        &&& after.open == !closes_menu(menu_action_of(action))
    }
}

/// On an enabled dropdown: a closed one opens on Enter, Space or Down and on no other
/// key, leaving its menu alone; an open one closes on Escape, reporting so, and on
/// Enter or Space, reporting the active item as activated; its arrows, Home and End
/// move the active item and keep it open.
pub proof fn lemma_dropdown_opens_activates_and_closes(
    before: Dropdown,
    after: Dropdown,
    event: KeyboardEvent,
    action: DropdownAction,
)
    requires
        dropdown_key(before, after, event, action),
        !before.trigger@.style.state.disabled,
        event.state == KeyState::Pressed,
        !event.repeat,
    ensures
        !before.open && (event.key == Key::Enter || event.key == Key::Space || event.key == Key::Arrow(
            ArrowKey::Down,
        )) ==> action == DropdownAction::Opened && after.open && after.menu == before.menu,
        !before.open && !(event.key == Key::Enter || event.key == Key::Space || event.key
            == Key::Arrow(ArrowKey::Down)) ==> action == DropdownAction::NoChange && !after.open
            && after.menu == before.menu,
        before.open && event.key == Key::Escape ==> action == DropdownAction::Closed && !after.open
            && after.menu@ == before.menu@,
        before.open && (event.key == Key::Enter || event.key == Key::Space) ==> action
            == DropdownAction::Activated(before.menu@.active as usize) && !after.open && after.menu@
            == before.menu@,
        before.open && (event.key == Key::Home || event.key == Key::End || event.key == Key::Arrow(
            ArrowKey::Up,
        ) || event.key == Key::Arrow(ArrowKey::Down)) ==> action == DropdownAction::ActiveChanged(
            after.menu@.active as usize,
        ) && after.open,
{
    if before.open {
        let m = menu_action_of(action);
        if event.key == Key::Home || event.key == Key::End || event.key == Key::Arrow(ArrowKey::Up)
            || event.key == Key::Arrow(ArrowKey::Down) {
            assert(m is ActiveChanged);
        }
    }
}

/// A button that opens a menu below it.
#[derive(Debug, PartialEq)]
pub struct Dropdown {
    pub trigger: Button,
    pub menu: Menu,
    pub open: bool,
    pub direction: DirectionSetting,
}

impl Dropdown {
    /// A closed dropdown.
    pub fn new(trigger: Button, menu: Menu) -> (dropdown: Self)
        ensures
            dropdown.trigger == trigger,
            dropdown.menu == menu,
            !dropdown.open,
            dropdown.direction == DirectionSetting::Inherit,
    {
        Dropdown { trigger, menu, open: false, direction: DirectionSetting::Inherit }
    }

    /// A closed dropdown opens on Enter, Space or Down; an open one hands the key to its
    /// menu and closes when the menu activates an item or is dismissed. A disabled
    /// trigger, released keys and repeats do nothing.
    pub fn handle_key(&mut self, event: &KeyboardEvent) -> (action: DropdownAction)
        ensures
            dropdown_key(*old(self), *final(self), *event, action),
    {
        if self.trigger.is_disabled() || event.state != KeyState::Pressed || event.repeat {
            return DropdownAction::NoChange;
        }
        if !self.open {
            let opens = match event.key {
                Key::Enter => true,
                Key::Space => true,
                Key::Arrow(ArrowKey::Down) => true,
                _ => false,
            };
            if opens {
                self.open = true;
                return DropdownAction::Opened;
            }
            return DropdownAction::NoChange;
        }
        let m = self.menu.handle_key(event);
        assert(menu_key(old(self).menu@, self.menu@, *event, m));
        match m {
            MenuAction::NoChange => {
                DropdownAction::NoChange
            },
            MenuAction::ActiveChanged(index) => DropdownAction::ActiveChanged(index),
            MenuAction::Activated(index) => {
                self.open = false;
                DropdownAction::Activated(index)
            },
            MenuAction::Dismissed => {
                self.open = false;
                DropdownAction::Closed
            },
        }
    }

    /// A button named by the trigger's label that shows a menu, with its expansion; while
    /// open it carries the menu's items as virtual children and the active one marked.
    pub fn semantics(&self) -> (s: Semantics)
        ensures
            s.role == SemanticRole::Button,
            opt_view(s.name) == Some(self.trigger@.label),
            s.value is None,
            s.placeholder is None,
            s.numeric_value is None,
            s.editable_text is None,
            s.state == (SemanticState {
                disabled: self.trigger@.style.state.disabled,
                expanded: Some(self.open),
                ..quiet_state()
            }),
            s.actions@ == seq![SemanticAction::Focus, SemanticAction::ShowMenu],
            if self.open {
                &&& s.virtual_children@.len() == self.menu@.items.len()
                &&& forall|i: int|
                    0 <= i < self.menu@.items.len() ==> menu_item_semantics(
                        #[trigger] s.virtual_children@[i],
                        self.menu@.items[i],
                    )
                &&& s.active_virtual_child == Some(self.menu@.active as usize)
            } else {
                s.virtual_children@.len() == 0 && s.active_virtual_child is None
            },
    {
        let mut semantics = Semantics::new(SemanticRole::Button).with_name(
            crate::text_util::owned(self.trigger.label()),
        ).with_action(SemanticAction::Focus).with_action(SemanticAction::ShowMenu);
        semantics.state.disabled = self.trigger.is_disabled();
        semantics.state.expanded = Some(self.open);
        if self.open {
            let menu_semantics = self.menu.semantics();
            semantics.virtual_children = menu_semantics.virtual_children;
            semantics.set_active_virtual_child(self.menu.active_index());
        }
        assert(semantics.actions@ =~= seq![SemanticAction::Focus, SemanticAction::ShowMenu]);
        semantics
    }

    /// The trigger's policy.
    pub fn focus_policy(&self) -> (policy: FocusPolicy)
        ensures
            policy == focus_when_enabled(self.trigger@.style.state.disabled),
    {
        self.trigger.focus_policy()
    }
}

} // verus!

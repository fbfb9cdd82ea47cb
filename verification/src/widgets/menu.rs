use vstd::prelude::*;

use crate::cyclic::{cycled, lemma_cycled_full, lemma_cycled_step, step_index};
use crate::direction::DirectionSetting;
use crate::focus::{focus_when_enabled, FocusPolicy};
use crate::input::{ArrowKey, Key, KeyState, KeyboardEvent};
use crate::semantics::{
    opt_view, plain, quiet_state, SemanticAction, SemanticRole, SemanticState, Semantics,
};
use crate::text_util::owned;

verus! {

/// One entry of a menu.
#[derive(Debug, PartialEq, Eq)]
pub struct MenuItem {
    pub label: String,
    pub disabled: bool,
    pub selected: bool,
}

/// The actions of a menu item: focus, and activation unless it is disabled.
pub open spec fn item_actions(disabled: bool) -> Seq<SemanticAction> {
    if disabled {
        seq![SemanticAction::Focus]
    } else {
        seq![SemanticAction::Focus, SemanticAction::Activate]
    }
}

/// The semantics of a menu item.
pub open spec fn menu_item_semantics(s: Semantics, item: MenuItem) -> bool {
    plain(
        s,
        SemanticRole::MenuItem,
        Some(item.label@),
        None,
        SemanticState { disabled: item.disabled, selected: item.selected, ..quiet_state() },
        item_actions(item.disabled),
    )
}

impl MenuItem {
    /// An enabled, unselected item.
    pub fn new(label: &str) -> (item: Self)
        ensures
            item.label@ == label@,
            !item.disabled,
            !item.selected,
    {
        MenuItem { label: owned(label), disabled: false, selected: false }
    }

    /// A menu item named by its label; activatable unless disabled.
    pub fn semantics(&self) -> (s: Semantics)
        ensures
            menu_item_semantics(s, *self),
    {
        let mut semantics = Semantics::new(SemanticRole::MenuItem).with_name(
            self.label.clone(),
        ).with_action(SemanticAction::Focus);
        if !self.disabled {
            semantics.add_action(SemanticAction::Activate);
        }
        semantics.state.disabled = self.disabled;
        semantics.state.selected = self.selected;
        semantics
    }
}

/// Why a menu cannot be built.
#[derive(Clone, Copy, Debug, PartialEq, Eq, Structural, Hash)]
pub enum MenuError {
    EmptyItems,
    NoEnabledItems,
}

/// What a menu did with a request.
#[derive(Clone, Copy, Debug, PartialEq, Eq, Structural, Hash)]
pub enum MenuAction {
    NoChange,
    ActiveChanged(usize),
    Activated(usize),
    Dismissed,
}

/// `i` is the first enabled item.
pub open spec fn is_first_enabled(items: Seq<MenuItem>, i: int) -> bool {
    &&& 0 <= i < items.len()
    &&& !items[i].disabled
    &&& forall|j: int| 0 <= j < i ==> #[trigger] items[j].disabled
}

/// `i` is the last enabled item.
pub open spec fn is_last_enabled(items: Seq<MenuItem>, i: int) -> bool {
    &&& 0 <= i < items.len()
    &&& !items[i].disabled
    &&& forall|j: int| i < j < items.len() ==> #[trigger] items[j].disabled
}

/// Some item is enabled.
pub open spec fn has_enabled(items: Seq<MenuItem>) -> bool {
    exists|j: int| 0 <= j < items.len() && !#[trigger] items[j].disabled
}

/// `i` is the first enabled item met when stepping around the ring from `start`
/// (not counting `start` itself before a full turn).
pub open spec fn is_next_enabled(items: Seq<MenuItem>, start: int, forward: bool, i: int) -> bool {
    let n = items.len() as int;
    exists|k: int|
        #![trigger cycled(start, k, n, forward)]
        1 <= k <= n && i == cycled(start, k, n, forward) && !items[i].disabled && forall|j: int|
            1 <= j < k ==> #[trigger] items[cycled(start, j, n, forward)].disabled
}

impl Clone for MenuItem {
    fn clone(&self) -> (copy: Self)
        ensures
            copy == *self,
    {
        MenuItem { label: self.label.clone(), disabled: self.disabled, selected: self.selected }
    }
}

/// A copy of each item.
pub fn clone_items(items: &Vec<MenuItem>) -> (copy: Vec<MenuItem>)
    ensures
        copy@ == items@,
{
    let mut copy: Vec<MenuItem> = Vec::new();
    let mut i: usize = 0;
    while i < items.len()
        invariant
            i <= items@.len(),
            copy@ == items@.subrange(0, i as int),
        decreases items@.len() - i,
    {
        copy.push(items[i].clone());
        i = i + 1;
        assert(copy@ == items@.subrange(0, i as int));
    }
    assert(items@.subrange(0, items@.len() as int) == items@);
    copy
}

/// A labelled list of items with a roving active item that is always enabled.
#[derive(Debug, PartialEq)]
pub struct Menu {
    label: String,
    items: Vec<MenuItem>,
    active: usize,
    pub direction: DirectionSetting,
}

/// The state of a menu as contracts see it.
pub struct MenuView {
    pub label: Seq<char>,
    pub items: Seq<MenuItem>,
    pub active: int,
    pub direction: DirectionSetting,
}

impl MenuView {
    /// The menu has items, and its active item is one of them and enabled.
    pub open spec fn well_formed(self) -> bool {
        &&& self.items.len() > 0
        &&& 0 <= self.active < self.items.len()
        &&& !self.items[self.active].disabled
    }
}

impl View for Menu {
    type V = MenuView;

    closed spec fn view(&self) -> MenuView {
        MenuView {
            label: self.label@,
            items: self.items@,
            active: self.active as int,
            direction: self.direction,
        }
    }
}

/// The semantics of a menu with the given name, items and active index.
pub open spec fn menu_semantics(s: Semantics, name: Seq<char>, items: Seq<MenuItem>, active: int) -> bool {
    &&& s.role == SemanticRole::Menu
    &&& opt_view(s.name) == Some(name)
    &&& s.value is None
    &&& s.placeholder is None
    &&& s.numeric_value is None
    &&& s.editable_text is None
    &&& s.state == quiet_state()
    &&& s.actions@.len() == 0
    &&& s.virtual_children@.len() == items.len()
    &&& forall|i: int|
        0 <= i < items.len() ==> menu_item_semantics(#[trigger] s.virtual_children@[i], items[i])
    &&& s.active_virtual_child == Some(active as usize)
}

/// What `Menu::handle_key` does for one event.
pub open spec fn menu_key(before: MenuView, after: MenuView, event: KeyboardEvent, action: MenuAction) -> bool {
    let unchanged = after == before;
    let moved = |i: int| action == MenuAction::ActiveChanged(i as usize) && after == (MenuView { active: i, ..before });
    if event.state != KeyState::Pressed || event.repeat {
        action == MenuAction::NoChange && unchanged
    } else {
        match event.key {
            Key::Arrow(ArrowKey::Down) => exists|i: int|
                #![trigger is_next_enabled(before.items, before.active, true, i)]
                is_next_enabled(before.items, before.active, true, i) && moved(i),
            Key::Arrow(ArrowKey::Up) => exists|i: int|
                #![trigger is_next_enabled(before.items, before.active, false, i)]
                is_next_enabled(before.items, before.active, false, i) && moved(i),
            Key::Home => exists|i: int|
                #![trigger is_first_enabled(before.items, i)]
                is_first_enabled(before.items, i) && moved(i),
            Key::End => exists|i: int|
                #![trigger is_last_enabled(before.items, i)]
                is_last_enabled(before.items, i) && moved(i),
            Key::Enter => action == MenuAction::Activated(before.active as usize) && unchanged,
            Key::Space => action == MenuAction::Activated(before.active as usize) && unchanged,
            Key::Escape => action == MenuAction::Dismissed && unchanged,
            _ => action == MenuAction::NoChange && unchanged,
        }
    }
}

fn first_enabled(items: &Vec<MenuItem>) -> (i: Option<usize>)
    ensures
        match i {
            Some(i) => is_first_enabled(items@, i as int),
            None => !has_enabled(items@),
        },
{
    let mut i: usize = 0;
    while i < items.len()
        invariant
            i <= items@.len(),
            forall|j: int| 0 <= j < i ==> #[trigger] items@[j].disabled,
        decreases items@.len() - i,
    {
        if !items[i].disabled {
            return Some(i);
        }
        i = i + 1;
    }
    None
}

fn last_enabled(items: &Vec<MenuItem>) -> (i: Option<usize>)
    ensures
        match i {
            Some(i) => is_last_enabled(items@, i as int),
            None => !has_enabled(items@),
        },
{
    let mut k: usize = items.len();
    while k > 0
        invariant
            k <= items@.len(),
            forall|j: int| k <= j < items@.len() ==> #[trigger] items@[j].disabled,
        decreases k,
    {
        if !items[k - 1].disabled {
            return Some(k - 1);
        }
        k = k - 1;
    }
    None
}

impl Clone for Menu {
    fn clone(&self) -> (copy: Self)
        ensures
            copy@ == self@,
    {
        proof {
            use_type_invariant(self);
        }
        Menu {
            label: self.label.clone(),
            items: clone_items(&self.items),
            active: self.active,
            direction: self.direction,
        }
    }
}

impl Menu {
    #[verifier::type_invariant]
    closed spec fn active_is_enabled(self) -> bool {
        self@.well_formed()
    }

    /// A menu whose active item is the first enabled one; refuses an empty list and a
    /// list with no enabled item.
    pub fn new(label: &str, items: Vec<MenuItem>) -> (result: Result<Self, MenuError>)
        ensures
            items@.len() == 0 ==> result == Err::<Menu, MenuError>(MenuError::EmptyItems),
            items@.len() > 0 && !has_enabled(items@) ==> result == Err::<Menu, MenuError>(
                MenuError::NoEnabledItems,
            ),
            has_enabled(items@) ==> (result matches Ok(menu) && menu@.label == label@
                && menu@.items == items@ && is_first_enabled(items@, menu@.active)
                && menu@.direction == DirectionSetting::Inherit && menu@.well_formed()),
    {
        if items.len() == 0 {
            return Err(MenuError::EmptyItems);
        }
        match first_enabled(&items) {
            None => Err(MenuError::NoEnabledItems),
            Some(active) => Ok(
                Menu { label: owned(label), items, active, direction: DirectionSetting::Inherit },
            ),
        }
    }

    pub fn label(&self) -> (label: &str)
        ensures
            label@ == self@.label,
    {
        self.label.as_str()
    }

    pub fn items(&self) -> (items: &[MenuItem])
        ensures
            items@ == self@.items,
    {
        self.items.as_slice()
    }

    pub fn active_index(&self) -> (index: usize)
        ensures
            index == self@.active,
            self@.well_formed(),
    {
        proof {
            use_type_invariant(self);
        }
        self.active
    }

    /// Activates the item at `index` if it exists and is enabled, making it active.
    pub fn activate(&mut self, index: usize) -> (action: MenuAction)
        ensures
            if index < old(self)@.items.len() && !old(self)@.items[index as int].disabled {
                action == MenuAction::Activated(index) && final(self)@ == (MenuView {
                    active: index as int,
                    ..old(self)@
                })
            } else {
                action == MenuAction::NoChange && final(self)@ == old(self)@
            },
            final(self)@.well_formed(),
    {
        proof {
            use_type_invariant(&*self);
        }
        if index >= self.items.len() || self.items[index].disabled {
            return MenuAction::NoChange;
        }
        self.active = index;
        MenuAction::Activated(index)
    }

    /// Arrow keys move the active item to the next enabled one, wrapping around;
    /// Home and End go to the first and last enabled item; Enter and Space activate the
    /// active item; Escape dismisses. Released and repeated keys do nothing.
    pub fn handle_key(&mut self, event: &KeyboardEvent) -> (action: MenuAction)
        ensures
            menu_key(old(self)@, final(self)@, *event, action),
            final(self)@.well_formed(),
    {
        proof {
            use_type_invariant(&*self);
        }
        if event.state != KeyState::Pressed || event.repeat {
            return MenuAction::NoChange;
        }
        match event.key {
            Key::Arrow(ArrowKey::Down) => self.move_active(true),
            Key::Arrow(ArrowKey::Up) => self.move_active(false),
            Key::Home => self.select_edge(true),
            Key::End => self.select_edge(false),
            Key::Enter => MenuAction::Activated(self.active),
            Key::Space => MenuAction::Activated(self.active),
            Key::Escape => MenuAction::Dismissed,
            _ => MenuAction::NoChange,
        }
    }

    /// A menu named by its label, with one virtual child per item and the active item
    /// marked.
    pub fn semantics(&self) -> (s: Semantics)
        ensures
            menu_semantics(s, self@.label, self@.items, self@.active),
    {
        let mut semantics = Semantics::new(SemanticRole::Menu).with_name(self.label.clone());
        let mut i: usize = 0;
        while i < self.items.len()
            invariant
                i <= self.items@.len(),
                semantics.role == SemanticRole::Menu,
                opt_view(semantics.name) == Some(self@.label),
                semantics.value is None,
                semantics.placeholder is None,
                semantics.numeric_value is None,
                semantics.editable_text is None,
                semantics.state == quiet_state(),
                semantics.actions@.len() == 0,
                semantics.active_virtual_child is None,
                semantics.virtual_children@.len() == i,
                forall|j: int|
                    0 <= j < i ==> menu_item_semantics(
                        #[trigger] semantics.virtual_children@[j],
                        self@.items[j],
                    ),
            decreases self.items@.len() - i,
        {
            semantics = semantics.with_virtual_child(self.items[i].semantics());
            i = i + 1;
        }
        semantics.set_active_virtual_child(self.active);
        semantics
    }

    /// The semantics of the item at `index`, if there is one.
    pub fn item_semantics(&self, index: usize) -> (s: Option<Semantics>)
        ensures
            match s {
                Some(s) => index < self@.items.len() && menu_item_semantics(
                    s,
                    self@.items[index as int],
                ),
                None => index >= self@.items.len(),
            },
    {
        if index < self.items.len() {
            Some(self.items[index].semantics())
        } else {
            None
        }
    }

    /// A menu always takes focus.
    pub fn focus_policy(&self) -> (policy: FocusPolicy)
        ensures
            policy == focus_when_enabled(false),
    {
        FocusPolicy::focusable()
    }

    fn move_active(&mut self, forward: bool) -> (action: MenuAction)
        ensures
            exists|i: int|
                #![trigger is_next_enabled(old(self)@.items, old(self)@.active, forward, i)]
                is_next_enabled(old(self)@.items, old(self)@.active, forward, i) && action
                    == MenuAction::ActiveChanged(i as usize) && final(self)@ == (MenuView {
                    active: i,
                    ..old(self)@
                }),
    {
        proof {
            use_type_invariant(&*self);
        }
        let count = self.items.len();
        let start = self.active;
        let mut index = start;
        let mut k: usize = 0;
        proof {
            lemma_cycled_full(start as int, count as int, forward);
        }
        while k < count
            invariant
                self@ == old(self)@,
                self@.well_formed(),
                count == self@.items.len(),
                start == self@.active,
                k <= count,
                index < count,
                index == cycled(start as int, k as int, count as int, forward),
                forall|j: int|
                    1 <= j <= k ==> #[trigger] self@.items[cycled(
                        start as int,
                        j,
                        count as int,
                        forward,
                    )].disabled,
            decreases count - k,
        {
            proof {
                lemma_cycled_step(start as int, k as int, count as int, forward);
            }
            index = step_index(index, count, forward);
            k = k + 1;
            if !self.items[index].disabled {
                self.active = index;
                assert(is_next_enabled(old(self)@.items, start as int, forward, index as int));
                return MenuAction::ActiveChanged(index);
            }
        }
        proof {
            lemma_cycled_full(start as int, count as int, forward);
            assert(self@.items[cycled(start as int, count as int, count as int, forward)].disabled);
        }
        MenuAction::NoChange
    }

    fn select_edge(&mut self, first: bool) -> (action: MenuAction)
        ensures
            exists|i: int|
                #![trigger is_first_enabled(old(self)@.items, i)]
                #![trigger is_last_enabled(old(self)@.items, i)]
                (if first {
                    is_first_enabled(old(self)@.items, i)
                } else {
                    is_last_enabled(old(self)@.items, i)
                }) && action == MenuAction::ActiveChanged(i as usize) && final(self)@ == (
                MenuView { active: i, ..old(self)@ }),
    {
        proof {
            use_type_invariant(&*self);
        }
        let found = if first {
            first_enabled(&self.items)
        } else {
            last_enabled(&self.items)
        };
        match found {
            Some(i) => {
                self.active = i;
                MenuAction::ActiveChanged(i)
            },
            None => {
                assert(!has_enabled(self@.items));
                assert(!self@.items[self@.active].disabled);
                MenuAction::NoChange
            },
        }
    }
}


/// What each refusal of a menu says.
pub open spec fn menu_error_text(error: MenuError) -> Seq<char> {
    match error {
        MenuError::EmptyItems => "menu requires at least one item"@,
        MenuError::NoEnabledItems => "menu requires an enabled item"@,
    }
}

impl MenuError {
    pub fn message(&self) -> (text: &'static str)
        ensures
            text@ == menu_error_text(*self),
    {
        match self {
            MenuError::EmptyItems => "menu requires at least one item",
            MenuError::NoEnabledItems => "menu requires an enabled item",
        }
    }
}

impl Menu {
    /// Sets `direction`; nothing else changes.
    pub fn set_direction(&mut self, direction: DirectionSetting)
        ensures
            final(self)@ == (MenuView { direction: direction, ..old(self)@ }),
    {
        proof {
            use_type_invariant(&*self);
        }
        self.direction = direction;
    }
}

/// A pressed End makes the last enabled item active and Home the first: no enabled item
/// comes after the one End picks, nor before the one Home picks.
pub proof fn lemma_menu_home_and_end_reach_the_edges(
    before: MenuView,
    after: MenuView,
    event: KeyboardEvent,
    action: MenuAction,
)
    requires
        menu_key(before, after, event, action),
        event.state == KeyState::Pressed,
        !event.repeat,
        event.key == Key::Home || event.key == Key::End,
    ensures
        after == (MenuView { active: after.active, ..before }),
        action == MenuAction::ActiveChanged(after.active as usize),
        0 <= after.active < before.items.len(),
        !before.items[after.active].disabled,
        event.key == Key::End ==> forall|j: int|
            after.active < j < before.items.len() ==> (#[trigger] before.items[j]).disabled,
        event.key == Key::Home ==> forall|j: int| 0 <= j < after.active ==> (#[trigger] before.items[j]).disabled,
{
}

/// Home and End pick different items whenever two items are enabled.
pub proof fn lemma_menu_home_and_end_differ(
    before: MenuView,
    home: MenuView,
    end: MenuView,
    home_event: KeyboardEvent,
    end_event: KeyboardEvent,
    home_action: MenuAction,
    end_action: MenuAction,
    j: int,
    k: int,
)
    requires
        menu_key(before, home, home_event, home_action),
        menu_key(before, end, end_event, end_action),
        home_event.state == KeyState::Pressed,
        !home_event.repeat,
        home_event.key == Key::Home,
        end_event.state == KeyState::Pressed,
        !end_event.repeat,
        end_event.key == Key::End,
        0 <= j < k < before.items.len(),
        !before.items[j].disabled,
        !before.items[k].disabled,
    ensures
        home.active <= j,
        k <= end.active,
        home.active < end.active,
{
    lemma_menu_home_and_end_reach_the_edges(before, home, home_event, home_action);
    lemma_menu_home_and_end_reach_the_edges(before, end, end_event, end_action);
}

/// Down makes the next item active when it is enabled, and Up the previous one; whatever
/// they pick is enabled.
pub proof fn lemma_menu_arrows_step_to_enabled_neighbours(
    before: MenuView,
    after: MenuView,
    event: KeyboardEvent,
    action: MenuAction,
)
    requires
        menu_key(before, after, event, action),
        event.state == KeyState::Pressed,
        !event.repeat,
        event.key == Key::Arrow(ArrowKey::Down) || event.key == Key::Arrow(ArrowKey::Up),
        0 <= before.active < before.items.len(),
    ensures
        after == (MenuView { active: after.active, ..before }),
        action == MenuAction::ActiveChanged(after.active as usize),
        0 <= after.active < before.items.len(),
        !before.items[after.active].disabled,
        event.key == Key::Arrow(ArrowKey::Down) && before.active + 1 < before.items.len()
            && !before.items[before.active + 1].disabled ==> after.active == before.active + 1,
        event.key == Key::Arrow(ArrowKey::Up) && before.active > 0 && !before.items[before.active
            - 1].disabled ==> after.active == before.active - 1,
{
    let n = before.items.len() as int;
    let a = before.active;
    let forward = event.key == Key::Arrow(ArrowKey::Down);
    let k = choose|k: int|
        #![trigger cycled(a, k, n, forward)]
        1 <= k <= n && after.active == cycled(a, k, n, forward) && !before.items[after.active].disabled
            && forall|j: int| 1 <= j < k ==> #[trigger] before.items[cycled(a, j, n, forward)].disabled;
    lemma_cycled_step(a, k - 1, n, forward);
    lemma_cycled_step(a, 0, n, forward);
    lemma_cycled_full(a, n, forward);
    if forward && a + 1 < n && !before.items[a + 1].disabled {
        vstd::arithmetic::div_mod::lemma_small_mod((a + 1) as nat, n as nat);
        if k > 1 {
            assert(before.items[cycled(a, 1, n, forward)].disabled);
        }
    }
    if !forward && a > 0 && !before.items[a - 1].disabled {
        vstd::arithmetic::div_mod::lemma_small_mod((a - 1) as nat, n as nat);
        if k > 1 {
            assert(before.items[cycled(a, 1, n, forward)].disabled);
        }
    }
}

/// Enter and Space activate the active item and Escape dismisses the menu; none of them
/// changes the menu.
pub proof fn lemma_menu_enter_activates_and_escape_dismisses(
    before: MenuView,
    after: MenuView,
    event: KeyboardEvent,
    action: MenuAction,
)
    requires
        menu_key(before, after, event, action),
        event.state == KeyState::Pressed,
        !event.repeat,
        event.key == Key::Enter || event.key == Key::Space || event.key == Key::Escape,
    ensures
        after == before,
        event.key == Key::Escape ==> action == MenuAction::Dismissed,
        event.key != Key::Escape ==> action == MenuAction::Activated(before.active as usize),
{
}

} // verus!

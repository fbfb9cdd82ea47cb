use vstd::prelude::*;

use crate::cyclic::{cycled, step_index};
use crate::direction::{Direction, DirectionSetting};
use crate::focus::{focus_when_enabled, FocusPolicy};
use crate::input::{ArrowKey, Key, KeyState, KeyboardEvent};
use crate::semantics::{
    opt_view, plain, quiet_state, SemanticAction, SemanticRole, SemanticState, Semantics,
};
use crate::style::{default_style, style_of, ComponentStyle, VisualVariant};
use crate::text_util::{
    any_blank, decimal, decimal_string, has_blank, join, joined, owned, push_char, str_views,
    to_strings, views,
};

verus! {

/// The style a navigation control draws with: its own, marked disabled when it is.
pub open spec fn disabled_style(style: ComponentStyle, disabled: bool) -> ComponentStyle {
    ComponentStyle { state: crate::style::ComponentState { disabled, ..style.state }, ..style }
}

/// A link to a destination, activatable unless disabled.
#[derive(Clone, Debug, PartialEq)]
pub struct Link {
    pub(crate) label: String,
    pub(crate) destination: String,
    pub disabled: bool,
    pub style: ComponentStyle,
    pub direction: DirectionSetting,
}

/// The state of a link as contracts see it.
pub struct LinkView {
    pub label: Seq<char>,
    pub destination: Seq<char>,
    pub disabled: bool,
    pub style: ComponentStyle,
    pub direction: DirectionSetting,
}

impl View for Link {
    type V = LinkView;

    closed spec fn view(&self) -> LinkView {
        LinkView {
            label: self.label@,
            destination: self.destination@,
            disabled: self.disabled,
            style: self.style,
            direction: self.direction,
        }
    }
}

impl Link {
    /// An enabled link in the transparent variant, inheriting its direction.
    pub fn new(label: &str, destination: &str) -> (link: Self)
        ensures
            link@ == (LinkView {
                label: label@,
                destination: destination@,
                disabled: false,
                style: style_of(VisualVariant::Transparent),
                direction: DirectionSetting::Inherit,
            }),
    {
        Link {
            label: owned(label),
            destination: owned(destination),
            disabled: false,
            style: ComponentStyle::with_variant(VisualVariant::Transparent),
            direction: DirectionSetting::Inherit,
        }
    }

    pub fn label(&self) -> (label: &str)
        ensures
            label@ == self@.label,
    {
        self.label.as_str()
    }

    pub fn destination(&self) -> (destination: &str)
        ensures
            destination@ == self@.destination,
    {
        self.destination.as_str()
    }

    /// Whether following the link goes ahead: it does unless the link is disabled.
    pub fn activate(&self) -> (followed: bool)
        ensures
            followed == !self@.disabled,
    {
        !self.disabled
    }

    /// A link named by its label and valued by its destination.
    pub fn semantics(&self) -> (s: Semantics)
        ensures
            plain(
                s,
                SemanticRole::Link,
                Some(self@.label),
                Some(self@.destination),
                SemanticState { disabled: self@.disabled, ..quiet_state() },
                seq![SemanticAction::Focus, SemanticAction::Activate],
            ),
    {
        let mut semantics = Semantics::new(SemanticRole::Link).with_name(self.label.clone()).with_value(
            self.destination.clone(),
        ).with_action(SemanticAction::Focus).with_action(SemanticAction::Activate);
        semantics.state.disabled = self.disabled;
        semantics
    }

    pub fn focus_policy(&self) -> (policy: FocusPolicy)
        ensures
            policy == focus_when_enabled(self@.disabled),
    {
        FocusPolicy::enabled_unless(self.disabled)
    }

    /// The style the link draws with.
    pub fn resolved_style(&self) -> (style: ComponentStyle)
        ensures
            style == disabled_style(self@.style, self@.disabled),
    {
        let mut style = self.style;
        style.state.disabled = self.disabled;
        style
    }
}

/// Breadcrumbs were given no items, or a blank one.
#[derive(Clone, Copy, Debug, PartialEq, Eq, Structural, Hash)]
pub struct BreadcrumbError;

impl BreadcrumbError {
    pub fn message(&self) -> (text: &'static str)
        ensures
            text@ == "breadcrumbs require at least one non-empty item"@,
    {
        "breadcrumbs require at least one non-empty item"
    }
}

/// What stands between two breadcrumbs in the given direction.
pub open spec fn breadcrumb_separator(direction: Direction) -> Seq<char> {
    match direction {
        Direction::Ltr => "  ›  "@,
        Direction::Rtl => "  ‹  "@,
    }
}

/// The path to the current page, from its root; no item is blank.
#[derive(Debug, PartialEq)]
pub struct Breadcrumbs {
    pub(crate) items: Vec<String>,
    pub style: ComponentStyle,
    pub direction: DirectionSetting,
}

/// The state of breadcrumbs as contracts see it.
pub struct BreadcrumbsView {
    pub items: Seq<Seq<char>>,
    pub style: ComponentStyle,
    pub direction: DirectionSetting,
}

impl BreadcrumbsView {
    /// There is an item, and none is blank.
    pub open spec fn well_formed(self) -> bool {
        self.items.len() > 0 && !any_blank(self.items)
    }
}

impl View for Breadcrumbs {
    type V = BreadcrumbsView;

    closed spec fn view(&self) -> BreadcrumbsView {
        BreadcrumbsView { items: views(self.items@), style: self.style, direction: self.direction }
    }
}

impl Clone for Breadcrumbs {
    fn clone(&self) -> (copy: Self)
        ensures
            copy@ == self@,
    {
        proof {
            use_type_invariant(self);
        }
        let items = self.items.clone();
        assert(items@ =~= self.items@);
        Breadcrumbs { items, style: self.style, direction: self.direction }
    }
}

impl Breadcrumbs {
    #[verifier::type_invariant]
    closed spec fn items_present(self) -> bool {
        self@.well_formed()
    }

    /// Refuses an empty path and a path with a blank item.
    pub fn new(items: &[&str]) -> (result: Result<Self, BreadcrumbError>)
        ensures
            result is Err <==> (items@.len() == 0 || any_blank(str_views(items@))),
            result matches Ok(b) ==> b@ == (BreadcrumbsView {
                items: str_views(items@),
                style: style_of(VisualVariant::Transparent),
                direction: DirectionSetting::Inherit,
            }),
    {
        let strings = to_strings(items);
        if strings.len() == 0 || has_blank(&strings) {
            return Err(BreadcrumbError);
        }
        Ok(
            Breadcrumbs {
                items: strings,
                style: ComponentStyle::with_variant(VisualVariant::Transparent),
                direction: DirectionSetting::Inherit,
            },
        )
    }

    pub fn items(&self) -> (items: &[String])
        ensures
            views(items@) == self@.items,
            self@.well_formed(),
    {
        proof {
            use_type_invariant(self);
        }
        self.items.as_slice()
    }

    /// A list named "Breadcrumbs" with one link per item.
    pub fn semantics(&self) -> (s: Semantics)
        ensures
            s.role == SemanticRole::List,
            opt_view(s.name) == Some("Breadcrumbs"@),
            s.value is None,
            s.placeholder is None,
            s.numeric_value is None,
            s.editable_text is None,
            s.state == quiet_state(),
            s.actions@.len() == 0,
            s.active_virtual_child is None,
            s.virtual_children@.len() == self@.items.len(),
            forall|i: int|
                0 <= i < self@.items.len() ==> plain(
                    #[trigger] s.virtual_children@[i],
                    SemanticRole::Link,
                    Some(self@.items[i]),
                    None,
                    quiet_state(),
                    seq![],
                ),
    {
        let mut semantics = Semantics::new(SemanticRole::List).with_name(owned("Breadcrumbs"));
        let mut i: usize = 0;
        while i < self.items.len()
            invariant
                i <= self@.items.len(),
                self@.items == views(self.items@),
                semantics.role == SemanticRole::List,
                opt_view(semantics.name) == Some("Breadcrumbs"@),
                semantics.value is None,
                semantics.placeholder is None,
                semantics.numeric_value is None,
                semantics.editable_text is None,
                semantics.state == quiet_state(),
                semantics.actions@.len() == 0,
                semantics.active_virtual_child is None,
                semantics.virtual_children@.len() == i,
                forall|j: int|
                    0 <= j < i ==> plain(
                        #[trigger] semantics.virtual_children@[j],
                        SemanticRole::Link,
                        Some(self@.items[j]),
                        None,
                        quiet_state(),
                        seq![],
                    ),
            decreases self@.items.len() - i,
        {
            let child = Semantics::new(SemanticRole::Link).with_name(self.items[i].clone());
            semantics = semantics.with_virtual_child(child);
            i = i + 1;
        }
        semantics
    }

    /// The items joined by an arrow pointing along the direction.
    pub fn display_text(&self, direction: Direction) -> (text: String)
        ensures
            text@ == joined(self@.items, breadcrumb_separator(direction)),
    {
        let separator = match direction {
            Direction::Ltr => "  ›  ",
            Direction::Rtl => "  ‹  ",
        };
        join(self.items.as_slice(), separator)
    }
}

/// A selection control was given no items.
#[derive(Clone, Copy, Debug, PartialEq, Eq, Structural, Hash)]
pub struct NavigationSelectionError;

impl NavigationSelectionError {
    pub fn message(&self) -> (text: &'static str)
        ensures
            text@ == "navigation selection requires at least one item"@,
    {
        "navigation selection requires at least one item"
    }
}

/// A labelled list of items, one of which is active.
#[derive(Debug, PartialEq)]
pub(crate) struct SelectionCore {
    label: String,
    items: Vec<String>,
    active: usize,
}

/// The items and the active one, as contracts see them.
pub struct SelectionCoreView {
    pub label: Seq<char>,
    pub items: Seq<Seq<char>>,
    pub active: int,
}

impl SelectionCoreView {
    /// There is an item, and the active index is one of them.
    pub open spec fn well_formed(self) -> bool {
        self.items.len() > 0 && 0 <= self.active < self.items.len()
    }

    /// The selection one item further on, wrapping around at either end.
    pub open spec fn stepped(self, forward: bool) -> SelectionCoreView {
        SelectionCoreView { active: cycled(self.active, 1, self.items.len() as int, forward), ..self }
    }

    /// The selection with the item at `index` active.
    pub open spec fn at(self, index: int) -> SelectionCoreView {
        SelectionCoreView { active: index, ..self }
    }
}

impl View for SelectionCore {
    type V = SelectionCoreView;

    closed spec fn view(&self) -> SelectionCoreView {
        SelectionCoreView { label: self.label@, items: views(self.items@), active: self.active as int }
    }
}

/// A step along the items: refused when disabled, else it moves and reports a change.
pub open spec fn selection_step(
    before: SelectionCoreView,
    after: SelectionCoreView,
    forward: bool,
    disabled: bool,
    changed: bool,
) -> bool {
    if disabled {
        !changed && after == before
    } else {
        changed && after == before.stepped(forward)
    }
}

/// What a selection control does with one key event. Right steps forward in a
/// left-to-right layout and backward in a right-to-left one, Left the other way; Home
/// and End jump to the first and last item. Released keys, other keys, and Home or End
/// while disabled change nothing.
pub open spec fn selection_key(
    before: SelectionCoreView,
    after: SelectionCoreView,
    event: KeyboardEvent,
    direction: Direction,
    disabled: bool,
    changed: bool,
) -> bool {
    let unchanged = !changed && after == before;
    if event.state != KeyState::Pressed {
        unchanged
    } else {
        match event.key {
            Key::Arrow(ArrowKey::Right) => selection_step(
                before,
                after,
                direction == Direction::Ltr,
                disabled,
                changed,
            ),
            Key::Arrow(ArrowKey::Left) => selection_step(
                before,
                after,
                direction != Direction::Ltr,
                disabled,
                changed,
            ),
            Key::Home => if disabled {
                unchanged
            } else {
                changed == (before.active != 0) && after == before.at(0)
            },
            Key::End => if disabled {
                unchanged
            } else {
                changed == (before.active != before.items.len() - 1) && after == before.at(
                    before.items.len() - 1,
                )
            },
            _ => unchanged,
        }
    }
}

/// The semantics of a selection control: its role, named by its label and valued by
/// the active item, with one virtual child per item and the active one selected.
pub open spec fn selection_semantics(
    s: Semantics,
    core: SelectionCoreView,
    role: SemanticRole,
    item_role: SemanticRole,
    disabled: bool,
) -> bool {
    &&& s.role == role
    &&& opt_view(s.name) == Some(core.label)
    &&& opt_view(s.value) == Some(core.items[core.active])
    &&& s.placeholder is None
    &&& s.numeric_value is None
    &&& s.editable_text is None
    &&& s.state == (SemanticState { disabled, ..quiet_state() })
    &&& s.actions@ == seq![
        SemanticAction::Focus,
        SemanticAction::Increment,
        SemanticAction::Decrement,
    ]
    &&& s.active_virtual_child is None
    &&& s.virtual_children@.len() == core.items.len()
    &&& forall|i: int|
        0 <= i < core.items.len() ==> plain(
            #[trigger] s.virtual_children@[i],
            item_role,
            Some(core.items[i]),
            None,
            SemanticState { selected: i == core.active, ..quiet_state() },
            seq![],
        )
}

/// The items as shown, the active one in square brackets.
pub open spec fn marked_items(items: Seq<Seq<char>>, active: int) -> Seq<Seq<char>> {
    Seq::new(
        items.len(),
        |i: int|
            if i == active {
                seq!['['] + items[i] + seq![']']
            } else {
                items[i]
            },
    )
}

/// What stands between two items of a selection control in the given direction.
pub open spec fn selection_separator(direction: Direction) -> Seq<char> {
    match direction {
        Direction::Ltr => "  →  "@,
        Direction::Rtl => "  ←  "@,
    }
}

impl Clone for SelectionCore {
    fn clone(&self) -> (copy: Self)
        ensures
            copy@ == self@,
    {
        proof {
            use_type_invariant(self);
        }
        let items = self.items.clone();
        assert(items@ =~= self.items@);
        SelectionCore { label: self.label.clone(), items, active: self.active }
    }
}

impl SelectionCore {
    #[verifier::type_invariant]
    closed spec fn active_in_range(self) -> bool {
        self@.well_formed()
    }

    /// The first item active; refuses an empty list.
    pub(crate) fn new(label: &str, items: Vec<String>) -> (result: Result<
        Self,
        NavigationSelectionError,
    >)
        ensures
            result is Err <==> items@.len() == 0,
            result matches Ok(core) ==> core@ == (SelectionCoreView {
                label: label@,
                items: views(items@),
                active: 0,
            }),
    {
        if items.len() == 0 {
            return Err(NavigationSelectionError);
        }
        Ok(SelectionCore { label: owned(label), items, active: 0 })
    }

    pub(crate) fn active(&self) -> (active: usize)
        ensures
            active == self@.active,
            self@.well_formed(),
            self@.items.len() <= usize::MAX,
    {
        proof {
            use_type_invariant(self);
        }
        let _count = self.items.len();
        self.active
    }

    pub(crate) fn label_text(&self) -> (label: String)
        ensures
            label@ == self@.label,
    {
        self.label.clone()
    }

    pub(crate) fn active_item(&self) -> (item: &str)
        ensures
            item@ == self@.items[self@.active],
            self@.well_formed(),
    {
        proof {
            use_type_invariant(self);
        }
        self.items[self.active].as_str()
    }

    pub(crate) fn step(&mut self, forward: bool, disabled: bool) -> (changed: bool)
        ensures
            selection_step(old(self)@, final(self)@, forward, disabled, changed),
            final(self)@.well_formed(),
    {
        proof {
            use_type_invariant(&*self);
        }
        if disabled {
            return false;
        }
        self.active = step_index(self.active, self.items.len(), forward);
        true
    }

    pub(crate) fn handle_key(&mut self, event: &KeyboardEvent, direction: Direction, disabled: bool) -> (changed: bool)
        ensures
            selection_key(old(self)@, final(self)@, *event, direction, disabled, changed),
            final(self)@.well_formed(),
    {
        proof {
            use_type_invariant(&*self);
        }
        if event.state != KeyState::Pressed {
            return false;
        }
        match event.key {
            Key::Arrow(ArrowKey::Right) => self.step(direction == Direction::Ltr, disabled),
            Key::Arrow(ArrowKey::Left) => self.step(direction != Direction::Ltr, disabled),
            Key::Home => {
                if disabled {
                    return false;
                }
                let changed = self.active != 0;
                self.active = 0;
                changed
            },
            Key::End => {
                if disabled {
                    return false;
                }
                let last = self.items.len() - 1;
                let changed = self.active != last;
                self.active = last;
                changed
            },
            _ => false,
        }
    }

    pub(crate) fn semantics(&self, role: SemanticRole, item_role: SemanticRole, disabled: bool) -> (s: Semantics)
        ensures
            selection_semantics(s, self@, role, item_role, disabled),
    {
        proof {
            use_type_invariant(self);
        }
        let mut semantics = Semantics::new(role).with_name(self.label.clone()).with_value(
            self.items[self.active].clone(),
        ).with_action(SemanticAction::Focus).with_action(SemanticAction::Increment).with_action(
            SemanticAction::Decrement,
        );
        semantics.state.disabled = disabled;
        let mut i: usize = 0;
        while i < self.items.len()
            invariant
                self@.well_formed(),
                i <= self@.items.len(),
                self@.items == views(self.items@),
                semantics.role == role,
                opt_view(semantics.name) == Some(self@.label),
                opt_view(semantics.value) == Some(self@.items[self@.active]),
                semantics.placeholder is None,
                semantics.numeric_value is None,
                semantics.editable_text is None,
                semantics.state == (SemanticState { disabled, ..quiet_state() }),
                semantics.actions@ == seq![
                    SemanticAction::Focus,
                    SemanticAction::Increment,
                    SemanticAction::Decrement,
                ],
                semantics.active_virtual_child is None,
                semantics.virtual_children@.len() == i,
                forall|j: int|
                    0 <= j < i ==> plain(
                        #[trigger] semantics.virtual_children@[j],
                        item_role,
                        Some(self@.items[j]),
                        None,
                        SemanticState { selected: j == self@.active, ..quiet_state() },
                        seq![],
                    ),
            decreases self@.items.len() - i,
        {
            let mut child = Semantics::new(item_role).with_name(self.items[i].clone());
            child.state.selected = i == self.active;
            semantics = semantics.with_virtual_child(child);
            i = i + 1;
        }
        semantics
    }

    pub(crate) fn display_text(&self, direction: Direction) -> (text: String)
        ensures
            text@ == joined(marked_items(self@.items, self@.active), selection_separator(direction)),
    {
        let mut shown: Vec<String> = Vec::new();
        let mut i: usize = 0;
        while i < self.items.len()
            invariant
                i <= self@.items.len(),
                self@.items == views(self.items@),
                shown@.len() == i,
                forall|j: int|
                    0 <= j < i ==> #[trigger] views(shown@)[j] == marked_items(
                        self@.items,
                        self@.active,
                    )[j],
            decreases self@.items.len() - i,
        {
            let ghost before = shown@;
            if i == self.active {
                let mut marked = String::new();
                push_char(&mut marked, '[');
                marked.append(self.items[i].as_str());
                push_char(&mut marked, ']');
                assert(marked@ == seq!['['] + self@.items[i as int] + seq![']']);
                shown.push(marked);
            } else {
                shown.push(self.items[i].clone());
            }
            proof {
                assert forall|j: int| 0 <= j < i + 1 implies #[trigger] views(shown@)[j]
                    == marked_items(self@.items, self@.active)[j] by {
                    if j < i {
                        assert(shown@[j] == before[j]);
                        assert(views(before)[j] == marked_items(self@.items, self@.active)[j]);
                    }
                }
            }
            i = i + 1;
        }
        assert(views(shown@) =~= marked_items(self@.items, self@.active));
        let separator = match direction {
            Direction::Ltr => "  →  ",
            Direction::Rtl => "  ←  ",
        };
        join(shown.as_slice(), separator)
    }
}


/// The state of a selection control as contracts see it.
pub struct SelectionNavigationView {
    pub core: SelectionCoreView,
    pub disabled: bool,
    pub style: ComponentStyle,
    pub direction: DirectionSetting,
}

/// A freshly built selection control: enabled, its first item active, in the default
/// style, inheriting its direction.
pub open spec fn fresh_selection(label: Seq<char>, items: Seq<Seq<char>>) -> SelectionNavigationView {
    SelectionNavigationView {
        core: SelectionCoreView { label, items, active: 0 },
        disabled: false,
        style: default_style(),
        direction: DirectionSetting::Inherit,
    }
}

/// The same control with another selection, everything else kept.
pub open spec fn with_core(view: SelectionNavigationView, core: SelectionCoreView) -> SelectionNavigationView {
    SelectionNavigationView { core, ..view }
}

/// The steps of a process, one of them current.
#[derive(Clone, Debug, PartialEq)]
pub struct Steps {
    pub(crate) core: SelectionCore,
    pub disabled: bool,
    pub style: ComponentStyle,
    pub direction: DirectionSetting,
}

impl View for Steps {
    type V = SelectionNavigationView;

    closed spec fn view(&self) -> SelectionNavigationView {
        SelectionNavigationView {
            core: self.core@,
            disabled: self.disabled,
            style: self.style,
            direction: self.direction,
        }
    }
}

impl Steps {
    /// Enabled, its first item active; refuses an empty list.
    pub fn new(label: &str, items: &[&str]) -> (result: Result<Self, NavigationSelectionError>)
        ensures
            result is Err <==> items@.len() == 0,
            result matches Ok(nav) ==> nav@ == fresh_selection(label@, str_views(items@)),
    {
        Steps::with_items(label, to_strings(items))
    }

    /// Enabled, its first item active; refuses an empty list.
    pub fn with_items(label: &str, items: Vec<String>) -> (result: Result<Self, NavigationSelectionError>)
        ensures
            result is Err <==> items@.len() == 0,
            result matches Ok(nav) ==> nav@ == fresh_selection(label@, views(items@)),
    {
        match SelectionCore::new(label, items) {
            Ok(core) => Ok(
                Steps {
                    core,
                    disabled: false,
                    style: ComponentStyle::default(),
                    direction: DirectionSetting::Inherit,
                },
            ),
            Err(error) => Err(error),
        }
    }

    pub fn active_index(&self) -> (index: usize)
        ensures
            index == self@.core.active,
            self@.core.well_formed(),
            self@.core.items.len() <= usize::MAX,
    {
        self.core.active()
    }

    pub fn active_item(&self) -> (item: &str)
        ensures
            item@ == self@.core.items[self@.core.active],
            self@.core.well_formed(),
    {
        self.core.active_item()
    }

    /// Moves to the next item, from the last back to the first, unless disabled.
    pub fn next_item(&mut self) -> (changed: bool)
        ensures
            selection_step(old(self)@.core, final(self)@.core, true, old(self)@.disabled, changed),
            final(self)@ == with_core(old(self)@, final(self)@.core),
            final(self)@.core.well_formed(),
    {
        let disabled = self.disabled;
        self.core.step(true, disabled)
    }

    /// Moves to the previous item, from the first back to the last, unless disabled.
    pub fn previous_item(&mut self) -> (changed: bool)
        ensures
            selection_step(old(self)@.core, final(self)@.core, false, old(self)@.disabled, changed),
            final(self)@ == with_core(old(self)@, final(self)@.core),
            final(self)@.core.well_formed(),
    {
        let disabled = self.disabled;
        self.core.step(false, disabled)
    }

    /// Arrows step along the items as the layout direction reads; Home and End jump
    /// to either end.
    pub fn handle_key(&mut self, event: &KeyboardEvent, direction: Direction) -> (changed: bool)
        ensures
            selection_key(old(self)@.core, final(self)@.core, *event, direction, old(self)@.disabled, changed),
            final(self)@ == with_core(old(self)@, final(self)@.core),
            final(self)@.core.well_formed(),
    {
        let disabled = self.disabled;
        self.core.handle_key(event, direction, disabled)
    }

    pub fn semantics(&self) -> (s: Semantics)
        ensures
            selection_semantics(s, self@.core, SemanticRole::List, SemanticRole::ListItem, self@.disabled),
    {
        self.core.semantics(SemanticRole::List, SemanticRole::ListItem, self.disabled)
    }

    pub fn focus_policy(&self) -> (policy: FocusPolicy)
        ensures
            policy == focus_when_enabled(self@.disabled),
    {
        FocusPolicy::enabled_unless(self.disabled)
    }

    /// The style the control draws with.
    pub fn resolved_style(&self) -> (style: ComponentStyle)
        ensures
            style == disabled_style(self@.style, self@.disabled),
    {
        let mut style = self.style;
        style.state.disabled = self.disabled;
        style
    }

    /// The items in reading order, the active one in brackets.
    pub fn display_text(&self, direction: Direction) -> (text: String)
        ensures
            text@ == joined(
                marked_items(self@.core.items, self@.core.active),
                selection_separator(direction),
            ),
    {
        self.core.display_text(direction)
    }
}

/// A row of tabs, one of them shown.
#[derive(Clone, Debug, PartialEq)]
pub struct Tabs {
    pub(crate) core: SelectionCore,
    pub disabled: bool,
    pub style: ComponentStyle,
    pub direction: DirectionSetting,
}

impl View for Tabs {
    type V = SelectionNavigationView;

    closed spec fn view(&self) -> SelectionNavigationView {
        SelectionNavigationView {
            core: self.core@,
            disabled: self.disabled,
            style: self.style,
            direction: self.direction,
        }
    }
}

impl Tabs {
    /// Enabled, its first item active; refuses an empty list.
    pub fn new(label: &str, items: &[&str]) -> (result: Result<Self, NavigationSelectionError>)
        ensures
            result is Err <==> items@.len() == 0,
            result matches Ok(nav) ==> nav@ == fresh_selection(label@, str_views(items@)),
    {
        Tabs::with_items(label, to_strings(items))
    }

    /// Enabled, its first item active; refuses an empty list.
    pub fn with_items(label: &str, items: Vec<String>) -> (result: Result<Self, NavigationSelectionError>)
        ensures
            result is Err <==> items@.len() == 0,
            result matches Ok(nav) ==> nav@ == fresh_selection(label@, views(items@)),
    {
        match SelectionCore::new(label, items) {
            Ok(core) => Ok(
                Tabs {
                    core,
                    disabled: false,
                    style: ComponentStyle::default(),
                    direction: DirectionSetting::Inherit,
                },
            ),
            Err(error) => Err(error),
        }
    }

    pub fn active_index(&self) -> (index: usize)
        ensures
            index == self@.core.active,
            self@.core.well_formed(),
            self@.core.items.len() <= usize::MAX,
    {
        self.core.active()
    }

    pub fn active_item(&self) -> (item: &str)
        ensures
            item@ == self@.core.items[self@.core.active],
            self@.core.well_formed(),
    {
        self.core.active_item()
    }

    /// Moves to the next item, from the last back to the first, unless disabled.
    pub fn next_item(&mut self) -> (changed: bool)
        ensures
            selection_step(old(self)@.core, final(self)@.core, true, old(self)@.disabled, changed),
            final(self)@ == with_core(old(self)@, final(self)@.core),
            final(self)@.core.well_formed(),
    {
        let disabled = self.disabled;
        self.core.step(true, disabled)
    }

    /// Moves to the previous item, from the first back to the last, unless disabled.
    pub fn previous_item(&mut self) -> (changed: bool)
        ensures
            selection_step(old(self)@.core, final(self)@.core, false, old(self)@.disabled, changed),
            final(self)@ == with_core(old(self)@, final(self)@.core),
            final(self)@.core.well_formed(),
    {
        let disabled = self.disabled;
        self.core.step(false, disabled)
    }

    /// Arrows step along the items as the layout direction reads; Home and End jump
    /// to either end.
    pub fn handle_key(&mut self, event: &KeyboardEvent, direction: Direction) -> (changed: bool)
        ensures
            selection_key(old(self)@.core, final(self)@.core, *event, direction, old(self)@.disabled, changed),
            final(self)@ == with_core(old(self)@, final(self)@.core),
            final(self)@.core.well_formed(),
    {
        let disabled = self.disabled;
        self.core.handle_key(event, direction, disabled)
    }

    pub fn semantics(&self) -> (s: Semantics)
        ensures
            selection_semantics(s, self@.core, SemanticRole::TabList, SemanticRole::Tab, self@.disabled),
    {
        self.core.semantics(SemanticRole::TabList, SemanticRole::Tab, self.disabled)
    }

    pub fn focus_policy(&self) -> (policy: FocusPolicy)
        ensures
            policy == focus_when_enabled(self@.disabled),
    {
        FocusPolicy::enabled_unless(self.disabled)
    }

    /// The style the control draws with.
    pub fn resolved_style(&self) -> (style: ComponentStyle)
        ensures
            style == disabled_style(self@.style, self@.disabled),
    {
        let mut style = self.style;
        style.state.disabled = self.disabled;
        style
    }

    /// The items in reading order, the active one in brackets.
    pub fn display_text(&self, direction: Direction) -> (text: String)
        ensures
            text@ == joined(
                marked_items(self@.core.items, self@.core.active),
                selection_separator(direction),
            ),
    {
        self.core.display_text(direction)
    }
}

/// A dock of destinations, one of them current.
#[derive(Clone, Debug, PartialEq)]
pub struct Dock {
    pub(crate) core: SelectionCore,
    pub disabled: bool,
    pub style: ComponentStyle,
    pub direction: DirectionSetting,
}

impl View for Dock {
    type V = SelectionNavigationView;

    closed spec fn view(&self) -> SelectionNavigationView {
        SelectionNavigationView {
            core: self.core@,
            disabled: self.disabled,
            style: self.style,
            direction: self.direction,
        }
    }
}

impl Dock {
    /// Enabled, its first item active; refuses an empty list.
    pub fn new(label: &str, items: &[&str]) -> (result: Result<Self, NavigationSelectionError>)
        ensures
            result is Err <==> items@.len() == 0,
            result matches Ok(nav) ==> nav@ == fresh_selection(label@, str_views(items@)),
    {
        Dock::with_items(label, to_strings(items))
    }

    /// Enabled, its first item active; refuses an empty list.
    pub fn with_items(label: &str, items: Vec<String>) -> (result: Result<Self, NavigationSelectionError>)
        ensures
            result is Err <==> items@.len() == 0,
            result matches Ok(nav) ==> nav@ == fresh_selection(label@, views(items@)),
    {
        match SelectionCore::new(label, items) {
            Ok(core) => Ok(
                Dock {
                    core,
                    disabled: false,
                    style: ComponentStyle::default(),
                    direction: DirectionSetting::Inherit,
                },
            ),
            Err(error) => Err(error),
        }
    }

    pub fn active_index(&self) -> (index: usize)
        ensures
            index == self@.core.active,
            self@.core.well_formed(),
            self@.core.items.len() <= usize::MAX,
    {
        self.core.active()
    }

    pub fn active_item(&self) -> (item: &str)
        ensures
            item@ == self@.core.items[self@.core.active],
            self@.core.well_formed(),
    {
        self.core.active_item()
    }

    /// Moves to the next item, from the last back to the first, unless disabled.
    pub fn next_item(&mut self) -> (changed: bool)
        ensures
            selection_step(old(self)@.core, final(self)@.core, true, old(self)@.disabled, changed),
            final(self)@ == with_core(old(self)@, final(self)@.core),
            final(self)@.core.well_formed(),
    {
        let disabled = self.disabled;
        self.core.step(true, disabled)
    }

    /// Moves to the previous item, from the first back to the last, unless disabled.
    pub fn previous_item(&mut self) -> (changed: bool)
        ensures
            selection_step(old(self)@.core, final(self)@.core, false, old(self)@.disabled, changed),
            final(self)@ == with_core(old(self)@, final(self)@.core),
            final(self)@.core.well_formed(),
    {
        let disabled = self.disabled;
        self.core.step(false, disabled)
    }

    /// Arrows step along the items as the layout direction reads; Home and End jump
    /// to either end.
    pub fn handle_key(&mut self, event: &KeyboardEvent, direction: Direction) -> (changed: bool)
        ensures
            selection_key(old(self)@.core, final(self)@.core, *event, direction, old(self)@.disabled, changed),
            final(self)@ == with_core(old(self)@, final(self)@.core),
            final(self)@.core.well_formed(),
    {
        let disabled = self.disabled;
        self.core.handle_key(event, direction, disabled)
    }

    pub fn semantics(&self) -> (s: Semantics)
        ensures
            selection_semantics(s, self@.core, SemanticRole::List, SemanticRole::ListItem, self@.disabled),
    {
        self.core.semantics(SemanticRole::List, SemanticRole::ListItem, self.disabled)
    }

    pub fn focus_policy(&self) -> (policy: FocusPolicy)
        ensures
            policy == focus_when_enabled(self@.disabled),
    {
        FocusPolicy::enabled_unless(self.disabled)
    }

    /// The style the control draws with.
    pub fn resolved_style(&self) -> (style: ComponentStyle)
        ensures
            style == disabled_style(self@.style, self@.disabled),
    {
        let mut style = self.style;
        style.state.disabled = self.disabled;
        style
    }

    /// The items in reading order, the active one in brackets.
    pub fn display_text(&self, direction: Direction) -> (text: String)
        ensures
            text@ == joined(
                marked_items(self@.core.items, self@.core.active),
                selection_separator(direction),
            ),
    {
        self.core.display_text(direction)
    }
}

/// A bar of site sections, one of them current.
#[derive(Clone, Debug, PartialEq)]
pub struct Navbar {
    pub(crate) core: SelectionCore,
    pub disabled: bool,
    pub style: ComponentStyle,
    pub direction: DirectionSetting,
}

impl View for Navbar {
    type V = SelectionNavigationView;

    closed spec fn view(&self) -> SelectionNavigationView {
        SelectionNavigationView {
            core: self.core@,
            disabled: self.disabled,
            style: self.style,
            direction: self.direction,
        }
    }
}

impl Navbar {
    /// Enabled, its first item active; refuses an empty list.
    pub fn new(label: &str, items: &[&str]) -> (result: Result<Self, NavigationSelectionError>)
        ensures
            result is Err <==> items@.len() == 0,
            result matches Ok(nav) ==> nav@ == fresh_selection(label@, str_views(items@)),
    {
        Navbar::with_items(label, to_strings(items))
    }

    /// Enabled, its first item active; refuses an empty list.
    pub fn with_items(label: &str, items: Vec<String>) -> (result: Result<Self, NavigationSelectionError>)
        ensures
            result is Err <==> items@.len() == 0,
            result matches Ok(nav) ==> nav@ == fresh_selection(label@, views(items@)),
    {
        match SelectionCore::new(label, items) {
            Ok(core) => Ok(
                Navbar {
                    core,
                    disabled: false,
                    style: ComponentStyle::default(),
                    direction: DirectionSetting::Inherit,
                },
            ),
            Err(error) => Err(error),
        }
    }

    pub fn active_index(&self) -> (index: usize)
        ensures
            index == self@.core.active,
            self@.core.well_formed(),
            self@.core.items.len() <= usize::MAX,
    {
        self.core.active()
    }

    pub fn active_item(&self) -> (item: &str)
        ensures
            item@ == self@.core.items[self@.core.active],
            self@.core.well_formed(),
    {
        self.core.active_item()
    }

    /// Moves to the next item, from the last back to the first, unless disabled.
    pub fn next_item(&mut self) -> (changed: bool)
        ensures
            selection_step(old(self)@.core, final(self)@.core, true, old(self)@.disabled, changed),
            final(self)@ == with_core(old(self)@, final(self)@.core),
            final(self)@.core.well_formed(),
    {
        let disabled = self.disabled;
        self.core.step(true, disabled)
    }

    /// Moves to the previous item, from the first back to the last, unless disabled.
    pub fn previous_item(&mut self) -> (changed: bool)
        ensures
            selection_step(old(self)@.core, final(self)@.core, false, old(self)@.disabled, changed),
            final(self)@ == with_core(old(self)@, final(self)@.core),
            final(self)@.core.well_formed(),
    {
        let disabled = self.disabled;
        self.core.step(false, disabled)
    }

    /// Arrows step along the items as the layout direction reads; Home and End jump
    /// to either end.
    pub fn handle_key(&mut self, event: &KeyboardEvent, direction: Direction) -> (changed: bool)
        ensures
            selection_key(old(self)@.core, final(self)@.core, *event, direction, old(self)@.disabled, changed),
            final(self)@ == with_core(old(self)@, final(self)@.core),
            final(self)@.core.well_formed(),
    {
        let disabled = self.disabled;
        self.core.handle_key(event, direction, disabled)
    }

    pub fn semantics(&self) -> (s: Semantics)
        ensures
            selection_semantics(s, self@.core, SemanticRole::List, SemanticRole::ListItem, self@.disabled),
    {
        self.core.semantics(SemanticRole::List, SemanticRole::ListItem, self.disabled)
    }

    pub fn focus_policy(&self) -> (policy: FocusPolicy)
        ensures
            policy == focus_when_enabled(self@.disabled),
    {
        FocusPolicy::enabled_unless(self.disabled)
    }

    /// The style the control draws with.
    pub fn resolved_style(&self) -> (style: ComponentStyle)
        ensures
            style == disabled_style(self@.style, self@.disabled),
    {
        let mut style = self.style;
        style.state.disabled = self.disabled;
        style
    }

    /// The items in reading order, the active one in brackets.
    pub fn display_text(&self, direction: Direction) -> (text: String)
        ensures
            text@ == joined(
                marked_items(self@.core.items, self@.core.active),
                selection_separator(direction),
            ),
    {
        self.core.display_text(direction)
    }
}


/// The labels of `count` pages: their numbers from one, in decimal.
pub open spec fn page_labels(count: nat) -> Seq<Seq<char>> {
    Seq::new(count, |i: int| decimal((i + 1) as nat))
}

/// Numbered pages, one of which is current; its selection behaves as that of steps.
#[derive(Clone, Debug, PartialEq)]
pub struct Pagination {
    pub(crate) selection: Steps,
}

impl View for Pagination {
    type V = SelectionNavigationView;

    closed spec fn view(&self) -> SelectionNavigationView {
        self.selection@
    }
}

impl Pagination {
    /// Pages numbered from one to `page_count`, the first current; refuses zero pages.
    pub fn new(label: &str, page_count: usize) -> (result: Result<Self, NavigationSelectionError>)
        ensures
            result is Err <==> page_count == 0,
            result matches Ok(p) ==> p@ == fresh_selection(label@, page_labels(page_count as nat)),
    {
        let mut pages: Vec<String> = Vec::new();
        let mut i: usize = 0;
        while i < page_count
            invariant
                i <= page_count,
                pages@.len() == i,
                forall|j: int| 0 <= j < i ==> #[trigger] views(pages@)[j] == page_labels(page_count as nat)[j],
            decreases page_count - i,
        {
            let ghost before = pages@;
            pages.push(decimal_string((i + 1) as u64));
            proof {
                assert forall|j: int| 0 <= j < i + 1 implies #[trigger] views(pages@)[j]
                    == page_labels(page_count as nat)[j] by {
                    if j < i {
                        assert(pages@[j] == before[j]);
                        assert(views(before)[j] == page_labels(page_count as nat)[j]);
                    }
                }
            }
            i = i + 1;
        }
        assert(views(pages@) =~= page_labels(page_count as nat));
        match Steps::with_items(label, pages) {
            Ok(selection) => Ok(Pagination { selection }),
            Err(error) => Err(error),
        }
    }

    /// The current page, counted from one.
    pub fn selected_page(&self) -> (page: usize)
        ensures
            page == self@.core.active + 1,
            self@.core.well_formed(),
    {
        self.selection.active_index() + 1
    }

    /// Moves to the next page, from the last back to the first, unless disabled.
    pub fn next_page(&mut self) -> (changed: bool)
        ensures
            selection_step(old(self)@.core, final(self)@.core, true, old(self)@.disabled, changed),
            final(self)@ == with_core(old(self)@, final(self)@.core),
            final(self)@.core.well_formed(),
    {
        self.selection.next_item()
    }

    /// Moves to the previous page, from the first back to the last, unless disabled.
    pub fn previous_page(&mut self) -> (changed: bool)
        ensures
            selection_step(old(self)@.core, final(self)@.core, false, old(self)@.disabled, changed),
            final(self)@ == with_core(old(self)@, final(self)@.core),
            final(self)@.core.well_formed(),
    {
        self.selection.previous_item()
    }

    pub fn handle_key(&mut self, event: &KeyboardEvent, direction: Direction) -> (changed: bool)
        ensures
            selection_key(old(self)@.core, final(self)@.core, *event, direction, old(self)@.disabled, changed),
            final(self)@ == with_core(old(self)@, final(self)@.core),
            final(self)@.core.well_formed(),
    {
        self.selection.handle_key(event, direction)
    }

    /// The semantics of the underlying steps: a list of pages.
    pub fn semantics(&self) -> (s: Semantics)
        ensures
            selection_semantics(s, self@.core, SemanticRole::List, SemanticRole::ListItem, self@.disabled),
    {
        self.selection.semantics()
    }

    pub fn focus_policy(&self) -> (policy: FocusPolicy)
        ensures
            policy == focus_when_enabled(self@.disabled),
    {
        self.selection.focus_policy()
    }

    /// The style, to change in place.
    pub fn style_mut(&mut self) -> (style: &mut ComponentStyle)
        ensures
            *style == old(self)@.style,
            final(self)@ == (SelectionNavigationView { style: *final(style), ..old(self)@ }),
    {
        &mut self.selection.style
    }

    /// The page numbers in reading order, the current one in brackets.
    pub fn display_text(&self, direction: Direction) -> (text: String)
        ensures
            text@ == joined(
                marked_items(self@.core.items, self@.core.active),
                selection_separator(direction),
            ),
    {
        self.selection.display_text(direction)
    }
}

/// `k` steps along the items in one direction.
pub open spec fn stepped_times(v: SelectionCoreView, k: nat, forward: bool) -> SelectionCoreView
    decreases k,
{
    if k == 0 {
        v
    } else {
        stepped_times(v, (k - 1) as nat, forward).stepped(forward)
    }
}

/// A step forward and a step back, in either order, leave the selection where it was.
pub proof fn lemma_step_round_trip(v: SelectionCoreView)
    requires
        v.well_formed(),
    ensures
        v.stepped(true).stepped(false) == v,
        v.stepped(false).stepped(true) == v,
        v.stepped(true).well_formed(),
        v.stepped(false).well_formed(),
{
    let n = v.items.len() as int;
    let a = v.active;
    if a + 1 < n {
        vstd::arithmetic::div_mod::lemma_small_mod((a + 1) as nat, n as nat);
        vstd::arithmetic::div_mod::lemma_small_mod(a as nat, n as nat);
    } else {
        vstd::arithmetic::div_mod::lemma_mod_self_0(n);
        vstd::arithmetic::div_mod::lemma_mod_add_multiples_vanish(-1, n);
        vstd::arithmetic::div_mod::lemma_small_mod((n - 1) as nat, n as nat);
    }
    if a > 0 {
        vstd::arithmetic::div_mod::lemma_small_mod((a - 1) as nat, n as nat);
        vstd::arithmetic::div_mod::lemma_small_mod(a as nat, n as nat);
    } else {
        vstd::arithmetic::div_mod::lemma_mod_add_multiples_vanish(-1, n);
        vstd::arithmetic::div_mod::lemma_small_mod((n - 1) as nat, n as nat);
        vstd::arithmetic::div_mod::lemma_mod_self_0(n);
    }
}

/// `k` steps in one direction land `k` places further round the ring of items.
pub proof fn lemma_stepped_times(v: SelectionCoreView, k: nat, forward: bool)
    requires
        v.well_formed(),
    ensures
        stepped_times(v, k, forward) == v.at(cycled(v.active, k as int, v.items.len() as int, forward)),
        stepped_times(v, k, forward).well_formed(),
    decreases k,
{
    let n = v.items.len() as int;
    crate::cyclic::lemma_cycled_step(v.active, k as int, n, forward);
    if k == 0 {
        crate::cyclic::lemma_cycled_full(v.active, n, forward);
    } else {
        lemma_stepped_times(v, (k - 1) as nat, forward);
        crate::cyclic::lemma_cycled_step(v.active, k - 1, n, forward);
    }
}

/// Stepping once per item in the same direction comes back to the starting item.
pub proof fn lemma_full_cycle_returns(v: SelectionCoreView, forward: bool)
    requires
        v.well_formed(),
    ensures
        stepped_times(v, v.items.len(), forward) == v,
{
    lemma_stepped_times(v, v.items.len(), forward);
    crate::cyclic::lemma_cycled_full(v.active, v.items.len() as int, forward);
}

/// A right-to-left layout mirrors the arrows: Right there does what Left does left to
/// right, and the other way round.
pub proof fn lemma_arrows_mirror(
    before: SelectionCoreView,
    after: SelectionCoreView,
    disabled: bool,
    changed: bool,
)
    ensures
        selection_key(before, after, KeyboardEvent { key: Key::Arrow(ArrowKey::Right), state: KeyState::Pressed, modifiers: crate::input::KeyModifiers { shift: false, control: false, alt: false, meta: false }, repeat: false }, Direction::Rtl, disabled, changed)
            == selection_key(before, after, KeyboardEvent { key: Key::Arrow(ArrowKey::Left), state: KeyState::Pressed, modifiers: crate::input::KeyModifiers { shift: false, control: false, alt: false, meta: false }, repeat: false }, Direction::Ltr, disabled, changed),
{
}


/// A disabled selection control ignores every key event.
pub proof fn lemma_disabled_selection_ignores_keys(
    before: SelectionCoreView,
    after: SelectionCoreView,
    event: KeyboardEvent,
    direction: Direction,
    changed: bool,
)
    requires
        selection_key(before, after, event, direction, true, changed),
    ensures
        !changed,
        after == before,
{
}

/// Home and End always land on the first and the last item, and a key never leaves
/// the selection out of range.
pub proof fn lemma_keys_keep_selection_in_range(
    before: SelectionCoreView,
    after: SelectionCoreView,
    event: KeyboardEvent,
    direction: Direction,
    disabled: bool,
    changed: bool,
)
    requires
        before.well_formed(),
        selection_key(before, after, event, direction, disabled, changed),
    ensures
        after.well_formed(),
        after.label == before.label,
        after.items == before.items,
{
    lemma_step_round_trip(before);
}

impl Link {
    /// Sets `disabled`; nothing else changes.
    pub fn set_disabled(&mut self, disabled: bool)
        ensures
            final(self)@ == (LinkView { disabled: disabled, ..old(self)@ }),
    {
        self.disabled = disabled;
    }

    /// Whether `disabled` is set.
    pub fn is_disabled(&self) -> (r: bool)
        ensures
            r == self@.disabled,
    {
        self.disabled
    }

    /// Sets `style`; nothing else changes.
    pub fn set_style(&mut self, style: ComponentStyle)
        ensures
            final(self)@ == (LinkView { style: style, ..old(self)@ }),
    {
        self.style = style;
    }

    /// Sets `direction`; nothing else changes.
    pub fn set_direction(&mut self, direction: DirectionSetting)
        ensures
            final(self)@ == (LinkView { direction: direction, ..old(self)@ }),
    {
        self.direction = direction;
    }
}

impl Breadcrumbs {
    /// Sets `style`; nothing else changes.
    pub fn set_style(&mut self, style: ComponentStyle)
        ensures
            final(self)@ == (BreadcrumbsView { style: style, ..old(self)@ }),
    {
        proof {
            use_type_invariant(&*self);
        }
        self.style = style;
    }
}

impl Steps {
    /// Sets `disabled`; nothing else changes.
    pub fn set_disabled(&mut self, disabled: bool)
        ensures
            final(self)@ == (SelectionNavigationView { disabled: disabled, ..old(self)@ }),
    {
        self.disabled = disabled;
    }

    /// Whether `disabled` is set.
    pub fn is_disabled(&self) -> (r: bool)
        ensures
            r == self@.disabled,
    {
        self.disabled
    }

    /// Sets `style`; nothing else changes.
    pub fn set_style(&mut self, style: ComponentStyle)
        ensures
            final(self)@ == (SelectionNavigationView { style: style, ..old(self)@ }),
    {
        self.style = style;
    }

    /// Sets `direction`; nothing else changes.
    pub fn set_direction(&mut self, direction: DirectionSetting)
        ensures
            final(self)@ == (SelectionNavigationView { direction: direction, ..old(self)@ }),
    {
        self.direction = direction;
    }
}

impl Tabs {
    /// Sets `disabled`; nothing else changes.
    pub fn set_disabled(&mut self, disabled: bool)
        ensures
            final(self)@ == (SelectionNavigationView { disabled: disabled, ..old(self)@ }),
    {
        self.disabled = disabled;
    }

    /// Whether `disabled` is set.
    pub fn is_disabled(&self) -> (r: bool)
        ensures
            r == self@.disabled,
    {
        self.disabled
    }

    /// Sets `style`; nothing else changes.
    pub fn set_style(&mut self, style: ComponentStyle)
        ensures
            final(self)@ == (SelectionNavigationView { style: style, ..old(self)@ }),
    {
        self.style = style;
    }

    /// Sets `direction`; nothing else changes.
    pub fn set_direction(&mut self, direction: DirectionSetting)
        ensures
            final(self)@ == (SelectionNavigationView { direction: direction, ..old(self)@ }),
    {
        self.direction = direction;
    }
}

impl Dock {
    /// Sets `disabled`; nothing else changes.
    pub fn set_disabled(&mut self, disabled: bool)
        ensures
            final(self)@ == (SelectionNavigationView { disabled: disabled, ..old(self)@ }),
    {
        self.disabled = disabled;
    }

    /// Whether `disabled` is set.
    pub fn is_disabled(&self) -> (r: bool)
        ensures
            r == self@.disabled,
    {
        self.disabled
    }

    /// Sets `style`; nothing else changes.
    pub fn set_style(&mut self, style: ComponentStyle)
        ensures
            final(self)@ == (SelectionNavigationView { style: style, ..old(self)@ }),
    {
        self.style = style;
    }

    /// Sets `direction`; nothing else changes.
    pub fn set_direction(&mut self, direction: DirectionSetting)
        ensures
            final(self)@ == (SelectionNavigationView { direction: direction, ..old(self)@ }),
    {
        self.direction = direction;
    }
}

impl Navbar {
    /// Sets `disabled`; nothing else changes.
    pub fn set_disabled(&mut self, disabled: bool)
        ensures
            final(self)@ == (SelectionNavigationView { disabled: disabled, ..old(self)@ }),
    {
        self.disabled = disabled;
    }

    /// Whether `disabled` is set.
    pub fn is_disabled(&self) -> (r: bool)
        ensures
            r == self@.disabled,
    {
        self.disabled
    }

    /// Sets `style`; nothing else changes.
    pub fn set_style(&mut self, style: ComponentStyle)
        ensures
            final(self)@ == (SelectionNavigationView { style: style, ..old(self)@ }),
    {
        self.style = style;
    }

    /// Sets `direction`; nothing else changes.
    pub fn set_direction(&mut self, direction: DirectionSetting)
        ensures
            final(self)@ == (SelectionNavigationView { direction: direction, ..old(self)@ }),
    {
        self.direction = direction;
    }
}

impl Breadcrumbs {
    /// Sets `direction`; nothing else changes.
    pub fn set_direction(&mut self, direction: DirectionSetting)
        ensures
            final(self)@ == (BreadcrumbsView { direction: direction, ..old(self)@ }),
    {
        proof {
            use_type_invariant(&*self);
        }
        self.direction = direction;
    }
}

} // verus!

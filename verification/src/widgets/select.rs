use vstd::prelude::*;

use crate::direction::DirectionSetting;
use crate::focus::{focus_when_enabled, FocusPolicy};
use crate::input::{ArrowKey, Key, KeyState, KeyboardEvent};
use crate::semantics::{
    opt_view, plain, quiet_state, SemanticAction, SemanticRole, SemanticState, Semantics,
};
use crate::style::{style_of, ComponentStyle, VisualVariant};
use crate::text_util::owned;
use crate::widgets::menu::item_actions;

verus! {

/// One choice of a select: what it shows and the value it stands for.
#[derive(Debug, PartialEq, Eq)]
pub struct SelectOption {
    pub label: String,
    pub value: String,
    pub disabled: bool,
}

impl Clone for SelectOption {
    fn clone(&self) -> (copy: Self)
        ensures
            copy == *self,
    {
        SelectOption {
            label: self.label.clone(),
            value: self.value.clone(),
            disabled: self.disabled,
        }
    }
}

impl SelectOption {
    /// An enabled option.
    pub fn new(label: &str, value: &str) -> (option: Self)
        ensures
            option.label@ == label@,
            option.value@ == value@,
            !option.disabled,
    {
        SelectOption { label: owned(label), value: owned(value), disabled: false }
    }
}

/// Why a select cannot be built or changed.
#[derive(Clone, Copy, Debug, PartialEq, Eq, Structural, Hash)]
pub enum SelectError {
    EmptyOptions,
    NoEnabledOptions,
    InvalidSelection,
}

/// What a select did with a request.
#[derive(Clone, Copy, Debug, PartialEq, Eq, Structural, Hash)]
pub enum SelectAction {
    NoChange,
    Opened,
    Closed,
    Changed,
    Submitted,
}

impl Default for SelectAction {
    fn default() -> (action: Self)
        ensures
            action == SelectAction::NoChange,
    {
        SelectAction::NoChange
    }
}

/// Some option is enabled.
pub open spec fn has_enabled_option(options: Seq<SelectOption>) -> bool {
    exists|j: int| 0 <= j < options.len() && !#[trigger] options[j].disabled
}

/// `i` is the first enabled option.
pub open spec fn is_first_enabled_option(options: Seq<SelectOption>, i: int) -> bool {
    &&& 0 <= i < options.len()
    &&& !options[i].disabled
    &&& forall|j: int| 0 <= j < i ==> #[trigger] options[j].disabled
}

/// `i` is the last enabled option.
pub open spec fn is_last_enabled_option(options: Seq<SelectOption>, i: int) -> bool {
    &&& 0 <= i < options.len()
    &&& !options[i].disabled
    &&& forall|j: int| i < j < options.len() ==> #[trigger] options[j].disabled
}

/// `i` is the nearest enabled option past `from` in the given direction, without wrapping.
pub open spec fn is_nearest_enabled(options: Seq<SelectOption>, from: int, forward: bool, i: int) -> bool {
    &&& 0 <= i < options.len()
    &&& !options[i].disabled
    &&& if forward {
        from < i && forall|j: int| from < j < i ==> #[trigger] options[j].disabled
    } else {
        i < from && forall|j: int| i < j < from ==> #[trigger] options[j].disabled
    }
}

/// No enabled option lies past `from` in the given direction.
pub open spec fn none_beyond(options: Seq<SelectOption>, from: int, forward: bool) -> bool {
    if forward {
        forall|j: int| from < j < options.len() ==> #[trigger] options[j].disabled
    } else {
        forall|j: int| 0 <= j < from ==> #[trigger] options[j].disabled
    }
}

/// A labelled choice among options, one of which is selected and enabled.
#[derive(Debug, PartialEq)]
pub struct Select {
    pub(crate) label: String,
    pub(crate) options: Vec<SelectOption>,
    pub(crate) selected: usize,
    pub open: bool,
    pub style: ComponentStyle,
    pub direction: DirectionSetting,
}

/// The state of a select as contracts see it.
pub struct SelectView {
    pub label: Seq<char>,
    pub options: Seq<SelectOption>,
    pub selected: int,
    pub open: bool,
    pub style: ComponentStyle,
    pub direction: DirectionSetting,
}

impl SelectView {
    /// The select has options, and its selected option is one of them and enabled.
    pub open spec fn well_formed(self) -> bool {
        &&& self.options.len() > 0
        &&& 0 <= self.selected < self.options.len()
        &&& !self.options[self.selected].disabled
    }
}

impl View for Select {
    type V = SelectView;

    closed spec fn view(&self) -> SelectView {
        SelectView {
            label: self.label@,
            options: self.options@,
            selected: self.selected as int,
            open: self.open,
            style: self.style,
            direction: self.direction,
        }
    }
}

/// What `Select::handle_key` does for one event.
pub open spec fn select_key(before: SelectView, after: SelectView, event: KeyboardEvent, action: SelectAction) -> bool {
    let unchanged = action == SelectAction::NoChange && after == before;
    let changed_to = |i: int|
        action == SelectAction::Changed && after == (SelectView { selected: i, ..before });
    if before.style.state.disabled || event.state != KeyState::Pressed || event.repeat {
        unchanged
    } else {
        match event.key {
            Key::Enter | Key::Space => if before.open {
                action == SelectAction::Submitted && after == (SelectView { open: false, ..before })
            } else {
                action == SelectAction::Opened && after == (SelectView { open: true, ..before })
            },
            Key::Escape => if before.open {
                action == SelectAction::Closed && after == (SelectView { open: false, ..before })
            } else {
                unchanged
            },
            Key::Arrow(ArrowKey::Down) => if none_beyond(before.options, before.selected, true) {
                unchanged
            } else {
                exists|i: int|
                    #![trigger is_nearest_enabled(before.options, before.selected, true, i)]
                    is_nearest_enabled(before.options, before.selected, true, i) && changed_to(i)
            },
            Key::Arrow(ArrowKey::Up) => if none_beyond(before.options, before.selected, false) {
                unchanged
            } else {
                exists|i: int|
                    #![trigger is_nearest_enabled(before.options, before.selected, false, i)]
                    is_nearest_enabled(before.options, before.selected, false, i) && changed_to(i)
            },
            Key::Home => exists|i: int|
                #![trigger is_first_enabled_option(before.options, i)]
                is_first_enabled_option(before.options, i) && if i == before.selected {
                    unchanged
                } else {
                    changed_to(i)
                },
            Key::End => exists|i: int|
                #![trigger is_last_enabled_option(before.options, i)]
                is_last_enabled_option(before.options, i) && if i == before.selected {
                    unchanged
                } else {
                    changed_to(i)
                },
            _ => unchanged,
        }
    }
}

/// The semantics of one option of an open select.
pub open spec fn option_semantics(s: Semantics, option: SelectOption, selected: bool) -> bool {
    plain(
        s,
        SemanticRole::ListBoxOption,
        Some(option.label@),
        None,
        SemanticState { disabled: option.disabled, selected, ..quiet_state() },
        item_actions(option.disabled),
    )
}

fn first_enabled_option(options: &Vec<SelectOption>) -> (i: Option<usize>)
    ensures
        match i {
            Some(i) => is_first_enabled_option(options@, i as int),
            None => !has_enabled_option(options@),
        },
{
    let mut i: usize = 0;
    while i < options.len()
        invariant
            i <= options@.len(),
            forall|j: int| 0 <= j < i ==> #[trigger] options@[j].disabled,
        decreases options@.len() - i,
    {
        if !options[i].disabled {
            return Some(i);
        }
        i = i + 1;
    }
    None
}

fn last_enabled_option(options: &Vec<SelectOption>) -> (i: Option<usize>)
    ensures
        match i {
            Some(i) => is_last_enabled_option(options@, i as int),
            None => !has_enabled_option(options@),
        },
{
    let mut k: usize = options.len();
    while k > 0
        invariant
            k <= options@.len(),
            forall|j: int| k <= j < options@.len() ==> #[trigger] options@[j].disabled,
        decreases k,
    {
        if !options[k - 1].disabled {
            return Some(k - 1);
        }
        k = k - 1;
    }
    None
}

impl Select {
    #[verifier::type_invariant]
    closed spec fn selection_is_enabled(self) -> bool {
        self@.well_formed()
    }

    /// A closed select in the outline variant whose selection is the first enabled
    /// option; refuses an empty list and a list with no enabled option.
    pub fn new(label: &str, options: Vec<SelectOption>) -> (result: Result<Self, SelectError>)
        ensures
            options@.len() == 0 ==> result == Err::<Select, SelectError>(SelectError::EmptyOptions),
            options@.len() > 0 && !has_enabled_option(options@) ==> result == Err::<
                Select,
                SelectError,
            >(SelectError::NoEnabledOptions),
            has_enabled_option(options@) ==> (result matches Ok(select) && select@.label == label@
                && select@.options == options@ && is_first_enabled_option(
                options@,
                select@.selected,
            ) && !select@.open && select@.style == style_of(VisualVariant::Outline)
                && select@.direction == DirectionSetting::Inherit && select@.well_formed()),
    {
        if options.len() == 0 {
            return Err(SelectError::EmptyOptions);
        }
        match first_enabled_option(&options) {
            None => Err(SelectError::NoEnabledOptions),
            Some(selected) => Ok(
                Select {
                    label: owned(label),
                    options,
                    selected,
                    open: false,
                    style: ComponentStyle::with_variant(VisualVariant::Outline),
                    direction: DirectionSetting::Inherit,
                },
            ),
        }
    }

    pub fn label(&self) -> (label: &str)
        ensures
            label@ == self@.label,
    {
        self.label.as_str()
    }

    pub fn options(&self) -> (options: &[SelectOption])
        ensures
            options@ == self@.options,
    {
        self.options.as_slice()
    }

    pub fn selected_index(&self) -> (index: usize)
        ensures
            index == self@.selected,
            self@.well_formed(),
    {
        proof {
            use_type_invariant(self);
        }
        self.selected
    }

    /// The selected option.
    pub fn selected(&self) -> (option: &SelectOption)
        ensures
            *option == self@.options[self@.selected],
    {
        proof {
            use_type_invariant(self);
        }
        &self.options[self.selected]
    }

    /// Selects an existing, enabled option; reports whether the selection moved.
    pub fn select(&mut self, index: usize) -> (result: Result<bool, SelectError>)
        ensures
            if index < old(self)@.options.len() && !old(self)@.options[index as int].disabled {
                result == Ok::<bool, SelectError>(index != old(self)@.selected) && final(self)@
                    == (SelectView { selected: index as int, ..old(self)@ })
            } else {
                result == Err::<bool, SelectError>(SelectError::InvalidSelection) && final(self)@
                    == old(self)@
            },
            final(self)@.well_formed(),
    {
        proof {
            use_type_invariant(&*self);
        }
        if index >= self.options.len() || self.options[index].disabled {
            return Err(SelectError::InvalidSelection);
        }
        let changed = self.selected != index;
        self.selected = index;
        Ok(changed)
    }

    /// Enter and Space open a closed select and submit an open one; Escape closes an
    /// open one; Up and Down move to the nearest enabled option without wrapping; Home
    /// and End go to the first and last enabled option. A disabled select, released
    /// keys and repeats do nothing.
    pub fn handle_key(&mut self, event: &KeyboardEvent) -> (action: SelectAction)
        ensures
            select_key(old(self)@, final(self)@, *event, action),
            final(self)@.well_formed(),
    {
        proof {
            use_type_invariant(&*self);
        }
        if self.style.state.disabled || event.state != KeyState::Pressed || event.repeat {
            return SelectAction::NoChange;
        }
        match event.key {
            Key::Enter | Key::Space => {
                if self.open {
                    self.open = false;
                    SelectAction::Submitted
                } else {
                    self.open = true;
                    SelectAction::Opened
                }
            },
            Key::Escape => {
                if self.open {
                    self.open = false;
                    SelectAction::Closed
                } else {
                    SelectAction::NoChange
                }
            },
            Key::Arrow(ArrowKey::Down) => self.move_selection(true),
            Key::Arrow(ArrowKey::Up) => self.move_selection(false),
            Key::Home => self.select_edge(true),
            Key::End => self.select_edge(false),
            _ => SelectAction::NoChange,
        }
    }

    /// A combo box named by its label and valued by the selected option's label, with
    /// its expansion; while open, one virtual child per option and the selected one
    /// marked active.
    pub fn semantics(&self) -> (s: Semantics)
        ensures
            s.role == SemanticRole::ComboBox,
            opt_view(s.name) == Some(self@.label),
            opt_view(s.value) == Some(self@.options[self@.selected].label@),
            s.placeholder is None,
            s.numeric_value is None,
            s.editable_text is None,
            s.state == (SemanticState {
                disabled: self@.style.state.disabled,
                expanded: Some(self@.open),
                ..quiet_state()
            }),
            s.actions@ == seq![SemanticAction::Focus, SemanticAction::ShowMenu],
            if self@.open {
                &&& s.virtual_children@.len() == self@.options.len()
                &&& forall|i: int|
                    0 <= i < self@.options.len() ==> option_semantics(
                        #[trigger] s.virtual_children@[i],
                        self@.options[i],
                        i == self@.selected,
                    )
                &&& s.active_virtual_child == Some(self@.selected as usize)
            } else {
                s.virtual_children@.len() == 0 && s.active_virtual_child is None
            },
    {
        proof {
            use_type_invariant(self);
        }
        let mut semantics = Semantics::new(SemanticRole::ComboBox).with_name(
            self.label.clone(),
        ).with_value(self.options[self.selected].label.clone()).with_action(
            SemanticAction::Focus,
        ).with_action(SemanticAction::ShowMenu);
        semantics.state.disabled = self.style.state.disabled;
        semantics.state.expanded = Some(self.open);
        if self.open {
            let mut i: usize = 0;
            while i < self.options.len()
                invariant
                    self@.well_formed(),
                    i <= self@.options.len(),
                    semantics.role == SemanticRole::ComboBox,
                    opt_view(semantics.name) == Some(self@.label),
                    opt_view(semantics.value) == Some(self@.options[self@.selected].label@),
                    semantics.placeholder is None,
                    semantics.numeric_value is None,
                    semantics.editable_text is None,
                    semantics.state == (SemanticState {
                        disabled: self@.style.state.disabled,
                        expanded: Some(self@.open),
                        ..quiet_state()
                    }),
                    semantics.actions@ == seq![SemanticAction::Focus, SemanticAction::ShowMenu],
                    semantics.active_virtual_child is None,
                    semantics.virtual_children@.len() == i,
                    forall|j: int|
                        0 <= j < i ==> option_semantics(
                            #[trigger] semantics.virtual_children@[j],
                            self@.options[j],
                            j == self@.selected,
                        ),
                decreases self@.options.len() - i,
            {
                let option = &self.options[i];
                let mut child = Semantics::new(SemanticRole::ListBoxOption).with_name(
                    option.label.clone(),
                ).with_action(SemanticAction::Focus);
                if !option.disabled {
                    child.add_action(SemanticAction::Activate);
                }
                child.state.disabled = option.disabled;
                child.state.selected = i == self.selected;
                semantics = semantics.with_virtual_child(child);
                i = i + 1;
            }
            semantics.set_active_virtual_child(self.selected);
        }
        semantics
    }

    /// Focusable, and disabled with its style.
    pub fn focus_policy(&self) -> (policy: FocusPolicy)
        ensures
            policy == focus_when_enabled(self@.style.state.disabled),
    {
        FocusPolicy::enabled_unless(self.style.state.disabled)
    }

    fn move_selection(&mut self, forward: bool) -> (action: SelectAction)
        ensures
            if none_beyond(old(self)@.options, old(self)@.selected, forward) {
                action == SelectAction::NoChange && final(self)@ == old(self)@
            } else {
                exists|i: int|
                    #![trigger is_nearest_enabled(old(self)@.options, old(self)@.selected, forward, i)]
                    is_nearest_enabled(old(self)@.options, old(self)@.selected, forward, i)
                        && action == SelectAction::Changed && final(self)@ == (SelectView {
                        selected: i,
                        ..old(self)@
                    })
            },
    {
        proof {
            use_type_invariant(&*self);
        }
        let from = self.selected;
        let count = self.options.len();
        assert(from < count);
        if forward {
            let mut i: usize = from + 1;
            while i < self.options.len()
                invariant
                    self@ == old(self)@,
                    self@.well_formed(),
                    forward,
                    from == self@.selected,
                    from < i <= self@.options.len(),
                    forall|j: int| from < j < i ==> #[trigger] self@.options[j].disabled,
                decreases self@.options.len() - i,
            {
                if !self.options[i].disabled {
                    assert(is_nearest_enabled(old(self)@.options, from as int, forward, i as int));
                    self.selected = i;
                    assert(!none_beyond(old(self)@.options, from as int, forward));
                    assert(self@ == (SelectView { selected: i as int, ..old(self)@ }));
                    return SelectAction::Changed;
                }
                i = i + 1;
            }
            SelectAction::NoChange
        } else {
            let mut i: usize = from;
            while i > 0
                invariant
                    self@ == old(self)@,
                    self@.well_formed(),
                    !forward,
                    from == self@.selected,
                    i <= from,
                    forall|j: int| i <= j < from ==> #[trigger] self@.options[j].disabled,
                decreases i,
            {
                if !self.options[i - 1].disabled {
                    assert(is_nearest_enabled(old(self)@.options, from as int, forward, i - 1));
                    self.selected = i - 1;
                    assert(!none_beyond(old(self)@.options, from as int, forward));
                    assert(self@ == (SelectView { selected: i - 1, ..old(self)@ }));
                    return SelectAction::Changed;
                }
                i = i - 1;
            }
            SelectAction::NoChange
        }
    }

    fn select_edge(&mut self, first: bool) -> (action: SelectAction)
        ensures
            exists|i: int|
                #![trigger is_first_enabled_option(old(self)@.options, i)]
                #![trigger is_last_enabled_option(old(self)@.options, i)]
                (if first {
                    is_first_enabled_option(old(self)@.options, i)
                } else {
                    is_last_enabled_option(old(self)@.options, i)
                }) && if i == old(self)@.selected {
                    action == SelectAction::NoChange && final(self)@ == old(self)@
                } else {
                    action == SelectAction::Changed && final(self)@ == (SelectView {
                        selected: i,
                        ..old(self)@
                    })
                },
    {
        proof {
            use_type_invariant(&*self);
        }
        let found = if first {
            first_enabled_option(&self.options)
        } else {
            last_enabled_option(&self.options)
        };
        match found {
            Some(i) => {
                if i == self.selected {
                    SelectAction::NoChange
                } else {
                    self.selected = i;
                    SelectAction::Changed
                }
            },
            None => {
                assert(!self@.options[self@.selected].disabled);
                SelectAction::NoChange
            },
        }
    }
}


/// What each refusal of a select says.
pub open spec fn select_error_text(error: SelectError) -> Seq<char> {
    match error {
        SelectError::EmptyOptions => "select requires at least one option"@,
        SelectError::NoEnabledOptions => "select requires an enabled option"@,
        SelectError::InvalidSelection => "select index is out of range or disabled"@,
    }
}

impl SelectError {
    pub fn message(&self) -> (text: &'static str)
        ensures
            text@ == select_error_text(*self),
    {
        match self {
            SelectError::EmptyOptions => "select requires at least one option",
            SelectError::NoEnabledOptions => "select requires an enabled option",
            SelectError::InvalidSelection => "select index is out of range or disabled",
        }
    }
}

impl Select {
    /// Sets `open`; nothing else changes.
    pub fn set_open(&mut self, open: bool)
        ensures
            final(self)@ == (SelectView { open: open, ..old(self)@ }),
    {
        proof {
            use_type_invariant(&*self);
        }
        self.open = open;
    }

    /// Whether `open` is set.
    pub fn is_open(&self) -> (r: bool)
        ensures
            r == self@.open,
    {
        self.open
    }

    /// Sets `style`; nothing else changes.
    pub fn set_style(&mut self, style: ComponentStyle)
        ensures
            final(self)@ == (SelectView { style: style, ..old(self)@ }),
    {
        proof {
            use_type_invariant(&*self);
        }
        self.style = style;
    }

    /// Sets `direction`; nothing else changes.
    pub fn set_direction(&mut self, direction: DirectionSetting)
        ensures
            final(self)@ == (SelectView { direction: direction, ..old(self)@ }),
    {
        proof {
            use_type_invariant(&*self);
        }
        self.direction = direction;
    }
}

/// On an enabled select, a pressed Up moves the selection to the nearest enabled option
/// before it, and Down to the nearest enabled option after it; with none on that side
/// nothing changes.
pub proof fn lemma_select_up_and_down_move_to_nearest_enabled(
    before: SelectView,
    after: SelectView,
    event: KeyboardEvent,
    action: SelectAction,
)
    requires
        select_key(before, after, event, action),
        !before.style.state.disabled,
        event.state == KeyState::Pressed,
        !event.repeat,
        event.key == Key::Arrow(ArrowKey::Up) || event.key == Key::Arrow(ArrowKey::Down),
    ensures
        ({
            let o = before.options;
            let s = before.selected;
            let up = event.key == Key::Arrow(ArrowKey::Up);
            let some_before = exists|j: int| 0 <= j < s && !(#[trigger] o[j]).disabled;
            let some_after = exists|j: int| s < j < o.len() && !(#[trigger] o[j]).disabled;
            &&& up && some_before ==> {
                &&& action == SelectAction::Changed
                &&& after == (SelectView { selected: after.selected, ..before })
                &&& 0 <= after.selected < s
                &&& !o[after.selected].disabled
                &&& forall|j: int| after.selected < j < s ==> (#[trigger] o[j]).disabled
            }
            &&& !up && some_after ==> {
                &&& action == SelectAction::Changed
                &&& after == (SelectView { selected: after.selected, ..before })
                &&& s < after.selected < o.len()
                &&& !o[after.selected].disabled
                &&& forall|j: int| s < j < after.selected ==> (#[trigger] o[j]).disabled
            }
            &&& (up && !some_before) || (!up && !some_after) ==> action == SelectAction::NoChange
                && after == before
        }),
{
    let o = before.options;
    let s = before.selected;
    if event.key == Key::Arrow(ArrowKey::Up) {
        if exists|j: int| 0 <= j < s && !(#[trigger] o[j]).disabled {
            let j = choose|j: int| 0 <= j < s && !(#[trigger] o[j]).disabled;
            assert(!none_beyond(o, s, false));
        }
    } else {
        if exists|j: int| s < j < o.len() && !(#[trigger] o[j]).disabled {
            let j = choose|j: int| s < j < o.len() && !(#[trigger] o[j]).disabled;
            assert(!none_beyond(o, s, true));
        }
    }
}

/// On an enabled select, Home selects the first enabled option and End the last one.
pub proof fn lemma_select_home_and_end_reach_the_edges(
    before: SelectView,
    after: SelectView,
    event: KeyboardEvent,
    action: SelectAction,
)
    requires
        select_key(before, after, event, action),
        !before.style.state.disabled,
        event.state == KeyState::Pressed,
        !event.repeat,
        event.key == Key::Home || event.key == Key::End,
    ensures
        after == (SelectView { selected: after.selected, ..before }),
        0 <= after.selected < before.options.len(),
        !before.options[after.selected].disabled,
        action == if after.selected == before.selected {
            SelectAction::NoChange
        } else {
            SelectAction::Changed
        },
        event.key == Key::Home ==> forall|j: int| 0 <= j < after.selected ==> (#[trigger] before.options[j]).disabled,
        event.key == Key::End ==> forall|j: int|
            after.selected < j < before.options.len() ==> (#[trigger] before.options[j]).disabled,
{
}

/// On an enabled select, Enter or Space opens a closed select and submits an open one,
/// closing it; Escape closes an open select and does nothing to a closed one. None of
/// them changes the selection.
pub proof fn lemma_select_enter_opens_and_escape_closes(
    before: SelectView,
    after: SelectView,
    event: KeyboardEvent,
    action: SelectAction,
)
    requires
        select_key(before, after, event, action),
        !before.style.state.disabled,
        event.state == KeyState::Pressed,
        !event.repeat,
        event.key == Key::Enter || event.key == Key::Space || event.key == Key::Escape,
    ensures
        after.selected == before.selected,
        after == (SelectView { open: after.open, ..before }),
        event.key != Key::Escape && !before.open ==> action == SelectAction::Opened && after.open,
        event.key != Key::Escape && before.open ==> action == SelectAction::Submitted && !after.open,
        event.key == Key::Escape && before.open ==> action == SelectAction::Closed && !after.open,
        event.key == Key::Escape && !before.open ==> action == SelectAction::NoChange && !after.open,
{
}

} // verus!

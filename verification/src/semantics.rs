use vstd::prelude::*;

verus! {

/// What a node is, as assistive technology names it.
#[derive(Clone, Copy, Debug, PartialEq, Eq, Structural, Hash)]
pub enum SemanticRole {
    Alert,
    Button,
    Cell,
    Checkbox,
    ComboBox,
    Dialog,
    Group,
    Image,
    Link,
    List,
    ListBoxOption,
    ListItem,
    Menu,
    MenuItem,
    MultilineTextField,
    Progress,
    Radio,
    SearchField,
    Slider,
    Switch,
    Tab,
    TabList,
    Table,
    Text,
    TextField,
    Timer,
}

/// An action that assistive technology may request of a node.
#[derive(Clone, Copy, Debug, PartialEq, Eq, Structural, Hash)]
pub enum SemanticAction {
    Focus,
    Activate,
    Increment,
    Decrement,
    SetValue,
    SetTextSelection,
    ShowMenu,
}

/// The dynamic state flags of a node.
#[derive(Clone, Copy, Debug, PartialEq, Eq)]
pub struct SemanticState {
    pub checked: Option<bool>,
    pub disabled: bool,
    pub expanded: Option<bool>,
    pub focused: bool,
    pub hidden: bool,
    pub invalid: bool,
    pub read_only: bool,
    pub required: bool,
    pub selected: bool,
}

/// The state of a node that reports nothing: no flag set, nothing checked or expanded.
pub open spec fn quiet_state() -> SemanticState {
    SemanticState {
        checked: None,
        disabled: false,
        expanded: None,
        focused: false,
        hidden: false,
        invalid: false,
        read_only: false,
        required: false,
        selected: false,
    }
}

impl Default for SemanticState {
    fn default() -> (state: Self)
        ensures
            state == quiet_state(),
    {
        SemanticState {
            checked: None,
            disabled: false,
            expanded: None,
            focused: false,
            hidden: false,
            invalid: false,
            read_only: false,
            required: false,
            selected: false,
        }
    }
}

/// A whole-number value within a range, with an optional step.
#[derive(Clone, Copy, Debug, PartialEq, Eq)]
pub struct SemanticNumericValue {
    value: i64,
    minimum: i64,
    maximum: i64,
    step: Option<i64>,
}

impl SemanticNumericValue {
    pub closed spec fn spec_value(self) -> i64 {
        self.value
    }

    pub closed spec fn spec_minimum(self) -> i64 {
        self.minimum
    }

    pub closed spec fn spec_maximum(self) -> i64 {
        self.maximum
    }

    pub closed spec fn spec_step(self) -> Option<i64> {
        self.step
    }

    /// Accepts the value only when the range is ordered, the value lies in it,
    /// and a given step is positive.
    pub fn new(value: i64, minimum: i64, maximum: i64, step: Option<i64>) -> (result: Option<Self>)
        ensures
            result is Some <==> (minimum <= value <= maximum && (step matches Some(s) ==> s > 0)),
            result matches Some(n) ==> n.spec_value() == value && n.spec_minimum() == minimum
                && n.spec_maximum() == maximum && n.spec_step() == step,
    {
        let step_ok = match step {
            Some(s) => s > 0,
            None => true,
        };
        if minimum <= value && value <= maximum && step_ok {
            Some(SemanticNumericValue { value, minimum, maximum, step })
        } else {
            None
        }
    }

    pub fn value(&self) -> (v: i64)
        ensures
            v == self.spec_value(),
    {
        self.value
    }

    pub fn minimum(&self) -> (v: i64)
        ensures
            v == self.spec_minimum(),
    {
        self.minimum
    }

    pub fn maximum(&self) -> (v: i64)
        ensures
            v == self.spec_maximum(),
    {
        self.maximum
    }

    pub fn step(&self) -> (v: Option<i64>)
        ensures
            v == self.spec_step(),
    {
        self.step
    }
}

/// The editable text of a field with its selection, as byte offsets into the text.
#[derive(Clone, Debug, PartialEq, Eq)]
pub struct SemanticEditableText {
    pub text: String,
    pub selection_anchor: usize,
    pub caret: usize,
}

impl SemanticEditableText {
    pub fn new(text: &str, selection_anchor: usize, caret: usize) -> (e: Self)
        ensures
            e.text@ == text@,
            e.selection_anchor == selection_anchor,
            e.caret == caret,
    {
        SemanticEditableText { text: text.to_owned(), selection_anchor, caret }
    }
}

/// The accessible description of a widget: its role, names, state, the actions it
/// supports, and the virtual children it exposes without being widgets of their own.
#[derive(Debug, PartialEq)]
pub struct Semantics {
    pub role: SemanticRole,
    pub name: Option<String>,
    pub value: Option<String>,
    pub placeholder: Option<String>,
    pub numeric_value: Option<SemanticNumericValue>,
    pub editable_text: Option<SemanticEditableText>,
    pub state: SemanticState,
    pub actions: Vec<SemanticAction>,
    pub virtual_children: Vec<Semantics>,
    pub active_virtual_child: Option<usize>,
}

/// The characters of an optional string.
pub open spec fn opt_view(o: Option<String>) -> Option<Seq<char>> {
    match o {
        Some(s) => Some(s@),
        None => None,
    }
}

/// Two descriptions agree on everything but their actions and virtual children.
pub open spec fn same_header(a: Semantics, b: Semantics) -> bool {
    &&& a.role == b.role
    &&& a.name == b.name
    &&& a.value == b.value
    &&& a.placeholder == b.placeholder
    &&& a.numeric_value == b.numeric_value
    &&& a.editable_text == b.editable_text
    &&& a.state == b.state
    &&& a.active_virtual_child == b.active_virtual_child
}

/// A description with the given role, name, value, state and actions, and nothing else:
/// no placeholder, numeric value, editable text or virtual children.
pub open spec fn plain(
    s: Semantics,
    role: SemanticRole,
    name: Option<Seq<char>>,
    value: Option<Seq<char>>,
    state: SemanticState,
    actions: Seq<SemanticAction>,
) -> bool {
    &&& s.role == role
    &&& opt_view(s.name) == name
    &&& opt_view(s.value) == value
    &&& s.placeholder is None
    &&& s.numeric_value is None
    &&& s.editable_text is None
    &&& s.state == state
    &&& s.actions@ =~= actions
    &&& s.virtual_children@.len() == 0
    &&& s.active_virtual_child is None
}

impl Semantics {
    /// A description of the given role with no name, value, state, actions or children.
    pub fn new(role: SemanticRole) -> (s: Self)
        ensures
            plain(s, role, None, None, quiet_state(), seq![]),
    {
        Semantics {
            role,
            name: None,
            value: None,
            placeholder: None,
            numeric_value: None,
            editable_text: None,
            state: SemanticState::default(),
            actions: Vec::new(),
            virtual_children: Vec::new(),
            active_virtual_child: None,
        }
    }

    pub fn with_name(self, name: String) -> (s: Self)
        ensures
            s == (Semantics { name: Some(name), ..self }),
    {
        Semantics { name: Some(name), ..self }
    }

    pub fn set_name(&mut self, name: String)
        ensures
            *final(self) == (Semantics { name: Some(name), ..*old(self) }),
    {
        self.name = Some(name);
    }

    pub fn with_value(self, value: String) -> (s: Self)
        ensures
            s == (Semantics { value: Some(value), ..self }),
    {
        Semantics { value: Some(value), ..self }
    }

    pub fn with_placeholder(self, placeholder: String) -> (s: Self)
        ensures
            s == (Semantics { placeholder: Some(placeholder), ..self }),
    {
        Semantics { placeholder: Some(placeholder), ..self }
    }

    pub fn with_numeric_value(self, numeric_value: SemanticNumericValue) -> (s: Self)
        ensures
            s == (Semantics { numeric_value: Some(numeric_value), ..self }),
    {
        Semantics { numeric_value: Some(numeric_value), ..self }
    }

    /// Appends a supported action.
    pub fn with_action(self, action: SemanticAction) -> (s: Self)
        ensures
            same_header(s, self),
            s.actions@ == self.actions@.push(action),
            s.virtual_children@ == self.virtual_children@,
    {
        let mut s = self;
        s.actions.push(action);
        s
    }

    /// Appends a supported action in place.
    pub fn add_action(&mut self, action: SemanticAction)
        ensures
            same_header(*final(self), *old(self)),
            final(self).actions@ == old(self).actions@.push(action),
            final(self).virtual_children@ == old(self).virtual_children@,
    {
        self.actions.push(action);
    }

    /// Whether the node supports the action.
    pub fn supports(&self, action: SemanticAction) -> (supported: bool)
        ensures
            supported == self.actions@.contains(action),
    {
        let mut i: usize = 0;
        while i < self.actions.len()
            invariant
                i <= self.actions@.len(),
                forall|j: int| 0 <= j < i ==> self.actions@[j] != action,
            decreases self.actions@.len() - i,
        {
            if self.actions[i] == action {
                return true;
            }
            i = i + 1;
        }
        false
    }

    pub fn actions(&self) -> (actions: &[SemanticAction])
        ensures
            actions@ == self.actions@,
    {
        self.actions.as_slice()
    }

    /// Appends a virtual child.
    pub fn with_virtual_child(self, child: Semantics) -> (s: Self)
        ensures
            same_header(s, self),
            s.actions@ == self.actions@,
            s.virtual_children@ == self.virtual_children@.push(child),
    {
        let mut s = self;
        s.virtual_children.push(child);
        s
    }

    pub fn virtual_children(&self) -> (children: &[Semantics])
        ensures
            children@ == self.virtual_children@,
    {
        self.virtual_children.as_slice()
    }

    /// Marks the virtual child at `index` as the active one.
    pub fn set_active_virtual_child(&mut self, index: usize)
        ensures
            *final(self) == (Semantics { active_virtual_child: Some(index), ..*old(self) }),
    {
        self.active_virtual_child = Some(index);
    }

    pub fn active_virtual_child(&self) -> (index: Option<usize>)
        ensures
            index == self.active_virtual_child,
    {
        self.active_virtual_child
    }
}

} // verus!

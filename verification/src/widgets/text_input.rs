use std::ops::Range;

use vstd::prelude::*;

use crate::direction::DirectionSetting;
use crate::focus::{focus_when_enabled, FocusPolicy};
use crate::input::{ArrowKey, Key, KeyModifiers, KeyState, KeyboardEvent};
use crate::semantics::{
    opt_view, quiet_state, SemanticAction, SemanticEditableText, SemanticRole, SemanticState,
    Semantics,
};
use crate::text_edit::{
    byte_offset, char_index_for_byte, deleted_backward, deleted_forward, is_next_boundary, is_previous_boundary, moved_backward, moved_forward, moved_to_end,
    moved_to_start, replaced, spliced, TextEditState,
};
use crate::text_util::{contains_control, has_control, owned, same_text};

verus! {

/// A modifier that turns a key into a shortcut rather than text entry or caret motion.
pub open spec fn shortcut_held(m: KeyModifiers) -> bool {
    m.control || m.meta || m.alt
}

/// The actions a text field offers: focus, and editing unless it is disabled or read-only.
pub open spec fn text_field_actions(editable: bool) -> Seq<SemanticAction> {
    if editable {
        seq![SemanticAction::Focus, SemanticAction::SetValue, SemanticAction::SetTextSelection]
    } else {
        seq![SemanticAction::Focus]
    }
}

/// A single-line text field with a label, a placeholder and form states.
#[derive(Clone, Debug, PartialEq)]
pub struct TextInput {
    pub(crate) label: String,
    pub edit: TextEditState,
    pub(crate) placeholder: String,
    pub disabled: bool,
    pub read_only: bool,
    pub required: bool,
    pub invalid: bool,
    pub focused: bool,
    pub direction: DirectionSetting,
}

/// The state of a text input as contracts see it.
pub struct TextInputView {
    pub label: Seq<char>,
    pub edit: TextEditState,
    pub placeholder: Seq<char>,
    pub disabled: bool,
    pub read_only: bool,
    pub required: bool,
    pub invalid: bool,
    pub focused: bool,
    pub direction: DirectionSetting,
}

impl View for TextInput {
    type V = TextInputView;

    closed spec fn view(&self) -> TextInputView {
        TextInputView {
            label: self.label@,
            edit: self.edit,
            placeholder: self.placeholder@,
            disabled: self.disabled,
            read_only: self.read_only,
            required: self.required,
            invalid: self.invalid,
            focused: self.focused,
            direction: self.direction,
        }
    }
}

/// The semantics of a text field of the given role: named by its label, valued by its
/// text, with its placeholder, its editable text and selection in bytes, its form
/// states, and editing actions unless it is disabled or read-only.
pub open spec fn text_field_semantics(s: Semantics, v: TextInputView, role: SemanticRole) -> bool {
    &&& s.role == role
    &&& opt_view(s.name) == Some(v.label)
    &&& opt_view(s.value) == Some(v.edit.content())
    &&& opt_view(s.placeholder) == Some(v.placeholder)
    &&& s.numeric_value is None
    &&& s.editable_text matches Some(e) && e.text@ == v.edit.content() && e.selection_anchor
        == byte_offset(v.edit.content(), v.edit.anchor_at()) && e.caret == byte_offset(
        v.edit.content(),
        v.edit.caret_at(),
    )
    &&& s.state == (SemanticState {
        disabled: v.disabled,
        read_only: v.read_only,
        required: v.required,
        invalid: v.invalid,
        focused: v.focused,
        ..quiet_state()
    })
    &&& s.actions@ =~= text_field_actions(!v.disabled && !v.read_only)
    &&& s.virtual_children@.len() == 0
    &&& s.active_virtual_child is None
}

/// What `TextInput::handle_key` does to the field for one event, and what it reports.
pub open spec fn text_input_key(before: TextInputView, after: TextInputView, event: KeyboardEvent, handled: bool) -> bool {
    let m = event.modifiers;
    let edits = !before.read_only && !shortcut_held(m);
    let unchanged = !handled && after == before;
    &&& after == (TextInputView { edit: after.edit, ..before })
    &&& if before.disabled || event.state != KeyState::Pressed {
        unchanged
    } else {
        match event.key {
            Key::Character(t) => if edits && !has_control(t@) {
                handled && replaced(before.edit, after.edit, t@)
            } else {
                unchanged
            },
            Key::Space => if edits {
                handled && replaced(before.edit, after.edit, seq![' '])
            } else {
                unchanged
            },
            Key::Backspace => if edits {
                deleted_backward(before.edit, after.edit, handled)
            } else {
                unchanged
            },
            Key::Delete => if edits {
                deleted_forward(before.edit, after.edit, handled)
            } else {
                unchanged
            },
            Key::Arrow(ArrowKey::Left) => if !shortcut_held(m) {
                moved_backward(before.edit, after.edit, m.shift, handled)
            } else {
                unchanged
            },
            Key::Arrow(ArrowKey::Right) => if !shortcut_held(m) {
                moved_forward(before.edit, after.edit, m.shift, handled)
            } else {
                unchanged
            },
            Key::Home => if !m.alt {
                moved_to_start(before.edit, after.edit, m.shift, handled)
            } else {
                unchanged
            },
            Key::End => if !m.alt {
                moved_to_end(before.edit, after.edit, m.shift, handled)
            } else {
                unchanged
            },
            _ => unchanged,
        }
    }
}

impl TextInput {
    /// The view keeps the input's public fields as they are.
    pub(crate) proof fn lemma_public_fields(input: TextInput)
        ensures
            input@.edit == input.edit,
            input@.disabled == input.disabled,
            input@.read_only == input.read_only,
            input@.required == input.required,
            input@.invalid == input.invalid,
            input@.focused == input.focused,
            input@.direction == input.direction,
            input@.label == input.label@,
            input@.placeholder == input.placeholder@,
    {
    }

    /// An enabled, empty field with the given label and no placeholder.
    pub fn new(label: &str) -> (input: Self)
        ensures
            input@.label == label@,
            input@.placeholder == Seq::<char>::empty(),
            input@.edit.holds_collapsed(seq![], 0),
            !input@.disabled && !input@.read_only && !input@.required,
            !input@.invalid && !input@.focused,
            input@.direction == DirectionSetting::Inherit,
    {
        TextInput {
            label: owned(label),
            edit: TextEditState::default(),
            placeholder: String::new(),
            disabled: false,
            read_only: false,
            required: false,
            invalid: false,
            focused: false,
            direction: DirectionSetting::Inherit,
        }
    }

    /// A field holding `text`, caret at its end.
    pub fn with_text(label: &str, text: &str) -> (input: Self)
        ensures
            input@.label == label@,
            input@.placeholder == Seq::<char>::empty(),
            input@.edit.holds_collapsed(text@, text@.len() as int),
            !input@.disabled && !input@.read_only && !input@.required,
            !input@.invalid && !input@.focused,
            input@.direction == DirectionSetting::Inherit,
    {
        let mut input = TextInput::new(label);
        input.edit = TextEditState::new(text);
        input
    }

    pub fn label(&self) -> (label: &str)
        ensures
            label@ == self@.label,
    {
        self.label.as_str()
    }

    pub fn set_label(&mut self, label: &str)
        ensures
            final(self)@ == (TextInputView { label: label@, ..old(self)@ }),
    {
        self.label = owned(label);
    }

    pub fn text(&self) -> (text: &str)
        ensures
            text@ == self@.edit.content(),
    {
        self.edit.text()
    }

    /// Replaces the whole text, caret at its end. A disabled or read-only field keeps
    /// its text, and so does a field that already holds exactly this text.
    /// Reports whether the text was replaced.
    pub fn set_text(&mut self, text: &str) -> (changed: bool)
        ensures
            final(self)@ == (TextInputView { edit: final(self)@.edit, ..old(self)@ }),
            if old(self)@.disabled || old(self)@.read_only || old(self)@.edit.content() == text@ {
                !changed && final(self)@ == old(self)@
            } else {
                changed && final(self)@.edit.holds_collapsed(text@, text@.len() as int)
            },
    {
        if self.disabled || self.read_only || same_text(self.text(), text) {
            return false;
        }
        self.edit.select_all();
        self.edit.replace_selection(text);
        assert(self.edit.content() =~= text@);
        true
    }

    pub fn placeholder(&self) -> (placeholder: &str)
        ensures
            placeholder@ == self@.placeholder,
    {
        self.placeholder.as_str()
    }

    pub fn set_placeholder(&mut self, placeholder: &str)
        ensures
            final(self)@ == (TextInputView { placeholder: placeholder@, ..old(self)@ }),
    {
        self.placeholder = owned(placeholder);
    }

    /// A text field named by its label, valued by its text, with its placeholder, its
    /// editable text and selection in bytes, its form states, and editing actions unless
    /// it is disabled or read-only.
    pub fn semantics(&self) -> (s: Semantics)
        ensures
            text_field_semantics(s, self@, SemanticRole::TextField),
    {
        let mut semantics = Semantics::new(SemanticRole::TextField).with_name(
            self.label.clone(),
        ).with_value(owned(self.text())).with_placeholder(self.placeholder.clone()).with_action(
            SemanticAction::Focus,
        );
        semantics.editable_text = Some(
            SemanticEditableText::new(self.text(), self.edit.selection_anchor(), self.edit.caret()),
        );
        if !self.disabled && !self.read_only {
            semantics.add_action(SemanticAction::SetValue);
            semantics.add_action(SemanticAction::SetTextSelection);
        }
        semantics.state.disabled = self.disabled;
        semantics.state.read_only = self.read_only;
        semantics.state.required = self.required;
        semantics.state.invalid = self.invalid;
        semantics.state.focused = self.focused;
        semantics
    }

    /// Focusable, and disabled when the field is.
    pub fn focus_policy(&self) -> (policy: FocusPolicy)
        ensures
            policy == focus_when_enabled(self@.disabled),
    {
        FocusPolicy::enabled_unless(self.disabled)
    }

    /// Typing, deletion and caret motion. Text entry needs an editable field and no
    /// shortcut modifier, and typed text must hold no control character; caret motion
    /// works in read-only fields too. Reports whether the event was handled.
    pub fn handle_key(&mut self, event: &KeyboardEvent) -> (handled: bool)
        ensures
            text_input_key(old(self)@, final(self)@, *event, handled),
    {
        if self.disabled || event.state != KeyState::Pressed {
            return false;
        }
        let m = event.modifiers;
        let shortcut = m.control || m.meta || m.alt;
        let edits = !self.read_only && !shortcut;
        match &event.key {
            Key::Character(text) => {
                if edits && !contains_control(text.as_str()) {
                    self.edit.replace_selection(text.as_str());
                    true
                } else {
                    false
                }
            },
            Key::Space => {
                if edits {
                    proof {
                        reveal_strlit(" ");
                        assert(" "@ =~= seq![' ']);
                    }
                    self.edit.replace_selection(" ");
                    true
                } else {
                    false
                }
            },
            Key::Backspace => {
                if edits {
                    self.edit.delete_backward()
                } else {
                    false
                }
            },
            Key::Delete => {
                if edits {
                    self.edit.delete_forward()
                } else {
                    false
                }
            },
            Key::Arrow(ArrowKey::Left) => {
                if !shortcut {
                    self.edit.move_backward(m.shift)
                } else {
                    false
                }
            },
            Key::Arrow(ArrowKey::Right) => {
                if !shortcut {
                    self.edit.move_forward(m.shift)
                } else {
                    false
                }
            },
            Key::Home => {
                if !m.alt {
                    self.edit.move_to_start(m.shift)
                } else {
                    false
                }
            },
            Key::End => {
                if !m.alt {
                    self.edit.move_to_end(m.shift)
                } else {
                    false
                }
            },
            _ => false,
        }
    }
}


/// A disabled field ignores every key event.
pub proof fn lemma_disabled_field_ignores_keys(
    before: TextInputView,
    after: TextInputView,
    event: KeyboardEvent,
    handled: bool,
)
    requires
        text_input_key(before, after, event, handled),
        before.disabled,
    ensures
        !handled,
        after == before,
{
}

/// A read-only field keeps its text, whatever key arrives; only the caret and the
/// selection may move.
pub proof fn lemma_read_only_field_keeps_text(
    before: TextInputView,
    after: TextInputView,
    event: KeyboardEvent,
    handled: bool,
)
    requires
        text_input_key(before, after, event, handled),
        before.read_only,
    ensures
        after.edit.content() == before.edit.content(),
        after == (TextInputView { edit: after.edit, ..before }),
{
}

impl TextInput {
    /// Sets `edit`; nothing else changes.
    pub fn set_edit(&mut self, edit: TextEditState)
        ensures
            final(self)@ == (TextInputView { edit: edit, ..old(self)@ }),
    {
        self.edit = edit;
    }

    /// Sets `disabled`; nothing else changes.
    pub fn set_disabled(&mut self, disabled: bool)
        ensures
            final(self)@ == (TextInputView { disabled: disabled, ..old(self)@ }),
    {
        self.disabled = disabled;
    }

    /// Whether `disabled` is set.
    pub fn is_disabled(&self) -> (r: bool)
        ensures
            r == self@.disabled,
    {
        self.disabled
    }

    /// Sets `read_only`; nothing else changes.
    pub fn set_read_only(&mut self, read_only: bool)
        ensures
            final(self)@ == (TextInputView { read_only: read_only, ..old(self)@ }),
    {
        self.read_only = read_only;
    }

    /// Whether `read_only` is set.
    pub fn is_read_only(&self) -> (r: bool)
        ensures
            r == self@.read_only,
    {
        self.read_only
    }

    /// Sets `required`; nothing else changes.
    pub fn set_required(&mut self, required: bool)
        ensures
            final(self)@ == (TextInputView { required: required, ..old(self)@ }),
    {
        self.required = required;
    }

    /// Whether `required` is set.
    pub fn is_required(&self) -> (r: bool)
        ensures
            r == self@.required,
    {
        self.required
    }

    /// Sets `invalid`; nothing else changes.
    pub fn set_invalid(&mut self, invalid: bool)
        ensures
            final(self)@ == (TextInputView { invalid: invalid, ..old(self)@ }),
    {
        self.invalid = invalid;
    }

    /// Whether `invalid` is set.
    pub fn is_invalid(&self) -> (r: bool)
        ensures
            r == self@.invalid,
    {
        self.invalid
    }

    /// Sets `focused`; nothing else changes.
    pub fn set_focused(&mut self, focused: bool)
        ensures
            final(self)@ == (TextInputView { focused: focused, ..old(self)@ }),
    {
        self.focused = focused;
    }

    /// Whether `focused` is set.
    pub fn is_focused(&self) -> (r: bool)
        ensures
            r == self@.focused,
    {
        self.focused
    }

    /// Sets `direction`; nothing else changes.
    pub fn set_direction(&mut self, direction: DirectionSetting)
        ensures
            final(self)@ == (TextInputView { direction: direction, ..old(self)@ }),
    {
        self.direction = direction;
    }
}

/// The byte range holds the offset, either end included.
pub open spec fn range_holds(r: Range<usize>, c: int) -> bool {
    r.start <= c <= r.end
}

/// The index of the last of the first `n` lines that holds the offset, or -1.
pub open spec fn last_line_holding(lines: Seq<Range<usize>>, c: int, n: int) -> int
    decreases n,
{
    if n <= 0 {
        -1
    } else if range_holds(lines[n - 1], c) {
        n - 1
    } else {
        last_line_holding(lines, c, n - 1)
    }
}

/// The line the caret is on: the last line that holds it, else the first.
pub open spec fn caret_line(lines: Seq<Range<usize>>, c: int) -> int {
    let i = last_line_holding(lines, c, lines.len() as int);
    if i < 0 {
        0
    } else {
        i
    }
}

/// What moving the caret to a line's edge does: nothing while the input is disabled,
/// its text is empty, there are no lines, or the caret is already at the edge; else the
/// caret goes to the start or the end of the line it is on, the anchor staying when
/// `selecting` and following otherwise.
pub open spec fn line_edge_moved(
    lines: Seq<Range<usize>>,
    before: TextInputView,
    after: TextInputView,
    end: bool,
    selecting: bool,
    moved: bool,
) -> bool {
    let v = before;
    let text = v.edit.content();
    let c = byte_offset(text, v.edit.caret_at()) as int;
    let line = lines[caret_line(lines, c)];
    let target = if end {
        line.end
    } else {
        line.start
    };
    let w = after;
    if v.disabled || text.len() == 0 || lines.len() == 0 || c == target {
        !moved && w == v
    } else {
        &&& moved
        &&& w == (TextInputView { edit: w.edit, ..v })
        &&& w.edit.content() == text
        &&& char_index_for_byte(text, target as int, w.edit.caret_at())
        &&& if selecting {
            char_index_for_byte(
                text,
                byte_offset(text, v.edit.anchor_at()) as int,
                w.edit.anchor_at(),
            )
        } else {
            w.edit.anchor_at() == w.edit.caret_at()
        }
    }
}

/// Moving to a line's edge puts the caret at the end (or start) of the last line that
/// holds it, or of the first line when none does: the byte offset it lands on is that
/// edge, and no later line holds the old caret.
pub proof fn lemma_line_edge_is_an_edge_of_the_caret_line(
    lines: Seq<Range<usize>>,
    before: TextInputView,
    after: TextInputView,
    end: bool,
    selecting: bool,
    moved: bool,
)
    requires
        line_edge_moved(lines, before, after, end, selecting, moved),
        moved,
    ensures
        ({
            let text = before.edit.content();
            let c = byte_offset(text, before.edit.caret_at()) as int;
            &&& !before.disabled
            &&& text.len() > 0
            &&& after.edit.content() == text
            &&& after == (TextInputView { edit: after.edit, ..before })
            &&& exists|i: int|
                #![trigger lines[i]]
                0 <= i < lines.len() && char_index_for_byte(
                    text,
                    (if end {
                        lines[i].end
                    } else {
                        lines[i].start
                    }) as int,
                    after.edit.caret_at(),
                ) && (if end {
                    lines[i].end
                } else {
                    lines[i].start
                }) != c && (forall|j: int| i < j < lines.len() ==> !(#[trigger] lines[j].start <= c <= lines[j].end))
                    && ((lines[i].start <= c <= lines[i].end) || (i == 0 && forall|j: int|
                    0 <= j < lines.len() ==> !(#[trigger] lines[j].start <= c <= lines[j].end)))
            &&& !selecting ==> after.edit.anchor_at() == after.edit.caret_at()
        }),
{
    let text = before.edit.content();
    let c = byte_offset(text, before.edit.caret_at()) as int;
    lemma_last_line_holding(lines, c, lines.len() as int);
    let i = caret_line(lines, c);
    assert(lines[i] == lines[i]);
}

/// The last of the first `n` lines that holds `c`, if any: it holds `c` and no later one
/// among them does; with none, none of them holds `c`.
proof fn lemma_last_line_holding(lines: Seq<Range<usize>>, c: int, n: int)
    requires
        0 <= n <= lines.len(),
    ensures
        ({
            let i = last_line_holding(lines, c, n);
            &&& -1 <= i < n
            &&& i >= 0 ==> range_holds(lines[i], c)
            &&& forall|j: int| i < j < n ==> !range_holds(#[trigger] lines[j], c)
        }),
    decreases n,
{
    if n > 0 {
        lemma_last_line_holding(lines, c, n - 1);
    }
}

/// Moves the caret of `input` to the start or the end of the line it is on, among the
/// laid-out `lines` (byte ranges of its text), extending the selection when
/// `selecting`. Nothing happens while the input is disabled, shows its placeholder
/// (its text is empty), has no lines, or when the caret is already there; the result
/// says whether the caret moved.
pub fn move_to_line_edge(lines: &[Range<usize>], input: &mut TextInput, end: bool, selecting: bool) -> (moved: bool)
    ensures
        line_edge_moved(lines@, old(input)@, final(input)@, end, selecting, moved),
{
    if input.disabled || input.edit.text().unicode_len() == 0 || lines.len() == 0 {
        return false;
    }
    let anchor = input.edit.selection_anchor();
    let caret = input.edit.caret();
    let mut index: usize = 0;
    let mut found = false;
    let mut k: usize = lines.len();
    while k > 0 && !found
        invariant
            k <= lines@.len(),
            found ==> index < lines@.len() && index as int == last_line_holding(
                lines@,
                caret as int,
                lines@.len() as int,
            ),
            !found ==> index == 0 && last_line_holding(lines@, caret as int, lines@.len() as int)
                == last_line_holding(lines@, caret as int, k as int),
        decreases k + (if found {
            0int
        } else {
            1int
        }),
    {
        if lines[k - 1].start <= caret && caret <= lines[k - 1].end {
            index = k - 1;
            found = true;
        } else {
            k = k - 1;
        }
    }
    assert(index as int == caret_line(lines@, caret as int));
    let target = if end {
        lines[index].end
    } else {
        lines[index].start
    };
    if caret == target {
        return false;
    }
    if selecting {
        input.edit.set_selection(anchor..target);
    } else {
        input.edit.set_caret(target);
    }
    true
}

/// On an enabled, editable field with no shortcut held and a collapsed caret, a
/// pressed Delete removes the grapheme cluster just after the caret and leaves the
/// caret where it was; at the end of the text it does nothing and reports so.
pub proof fn lemma_delete_removes_the_grapheme_after_the_caret(
    before: TextInputView,
    after: TextInputView,
    event: KeyboardEvent,
    handled: bool,
)
    requires
        text_input_key(before, after, event, handled),
        event.state == KeyState::Pressed,
        event.key == Key::Delete,
        !before.disabled,
        !before.read_only,
        !shortcut_held(event.modifiers),
        before.edit.anchor_at() == before.edit.caret_at(),
        0 <= before.edit.caret_at() <= before.edit.content().len(),
    ensures
        after == (TextInputView { edit: after.edit, ..before }),
        before.edit.caret_at() == before.edit.content().len() ==> !handled && after == before,
        before.edit.caret_at() < before.edit.content().len() ==> {
            let t = before.edit.content();
            let c = before.edit.caret_at();
            &&& handled
            &&& after.edit.caret_at() == c
            &&& after.edit.anchor_at() == c
            &&& exists|n: int|
                #![trigger is_next_boundary(t, c, n)]
                is_next_boundary(t, c, n) && c < n && after.edit.content() == t.subrange(0, c)
                    + t.subrange(n, t.len() as int)
        },
{
    let t = before.edit.content();
    let c = before.edit.caret_at();
    if c < t.len() {
        let n = choose|n: int|
            #![trigger is_next_boundary(t, c, n)]
            is_next_boundary(t, c, n) && after.edit.holds_collapsed(spliced(t, c, n, seq![]), c);
        assert(spliced(t, c, n, seq![]) =~= t.subrange(0, c) + t.subrange(n, t.len() as int));
    }
}

/// On an enabled, editable field with no shortcut held and a collapsed caret, a
/// pressed Backspace removes the grapheme cluster just before the caret, which moves to
/// where that cluster began; at the start of the text it does nothing and reports so.
pub proof fn lemma_backspace_removes_the_grapheme_before_the_caret(
    before: TextInputView,
    after: TextInputView,
    event: KeyboardEvent,
    handled: bool,
)
    requires
        text_input_key(before, after, event, handled),
        event.state == KeyState::Pressed,
        event.key == Key::Backspace,
        !before.disabled,
        !before.read_only,
        !shortcut_held(event.modifiers),
        before.edit.anchor_at() == before.edit.caret_at(),
        0 <= before.edit.caret_at() <= before.edit.content().len(),
    ensures
        after == (TextInputView { edit: after.edit, ..before }),
        before.edit.caret_at() == 0 ==> !handled && after == before,
        before.edit.caret_at() > 0 ==> {
            let t = before.edit.content();
            let c = before.edit.caret_at();
            &&& handled
            &&& exists|p: int|
                #![trigger is_previous_boundary(t, c, p)]
                is_previous_boundary(t, c, p) && p < c && after.edit.caret_at() == p
                    && after.edit.anchor_at() == p && after.edit.content() == t.subrange(0, p)
                    + t.subrange(c, t.len() as int)
        },
{
    let t = before.edit.content();
    let c = before.edit.caret_at();
    if c > 0 {
        let p = choose|p: int|
            #![trigger is_previous_boundary(t, c, p)]
            is_previous_boundary(t, c, p) && after.edit.holds_collapsed(spliced(t, p, c, seq![]), p);
        assert(spliced(t, p, c, seq![]) =~= t.subrange(0, p) + t.subrange(c, t.len() as int));
    }
}

/// On an enabled field with no shortcut held and a collapsed caret, Left moves the caret
/// to the grapheme boundary before it and Right to the one after it, the anchor following
/// unless Shift is held, without touching the text; Home moves it to the start of the
/// text and End to its end.
pub proof fn lemma_caret_keys_move_the_caret(
    before: TextInputView,
    after: TextInputView,
    event: KeyboardEvent,
    handled: bool,
)
    requires
        text_input_key(before, after, event, handled),
        event.state == KeyState::Pressed,
        !before.disabled,
        !shortcut_held(event.modifiers),
        before.edit.anchor_at() == before.edit.caret_at(),
        0 <= before.edit.caret_at() <= before.edit.content().len(),
    ensures
        ({
            let t = before.edit.content();
            let c = before.edit.caret_at();
            let shift = event.modifiers.shift;
            let anchor_ok = after.edit.anchor_at() == if shift {
                c
            } else {
                after.edit.caret_at()
            };
            &&& event.key == Key::Arrow(ArrowKey::Left) && c > 0 ==> handled && after.edit.content()
                == t && after.edit.caret_at() < c && is_previous_boundary(t, c, after.edit.caret_at())
                && anchor_ok
            &&& event.key == Key::Arrow(ArrowKey::Left) && c == 0 ==> !handled && after == before
            &&& event.key == Key::Arrow(ArrowKey::Right) && c < t.len() ==> handled
                && after.edit.content() == t && after.edit.caret_at() > c && is_next_boundary(
                t,
                c,
                after.edit.caret_at(),
            ) && anchor_ok
            &&& event.key == Key::Arrow(ArrowKey::Right) && c == t.len() ==> !handled && after == before
            &&& event.key == Key::Home ==> after.edit.content() == t && after.edit.caret_at() == 0
                && anchor_ok && handled == (c != 0)
            &&& event.key == Key::End ==> after.edit.content() == t && after.edit.caret_at() == t.len()
                && anchor_ok && handled == (c != t.len())
        }),
{
}

/// On an enabled, editable field with no shortcut held and a collapsed caret, typing a
/// text without control characters (or pressing Space) puts it at the caret, which
/// moves past it.
pub proof fn lemma_typing_inserts_at_the_caret(
    before: TextInputView,
    after: TextInputView,
    event: KeyboardEvent,
    handled: bool,
    typed: Seq<char>,
)
    requires
        text_input_key(before, after, event, handled),
        event.state == KeyState::Pressed,
        !before.disabled,
        !before.read_only,
        !shortcut_held(event.modifiers),
        before.edit.anchor_at() == before.edit.caret_at(),
        0 <= before.edit.caret_at() <= before.edit.content().len(),
        (event.key matches Key::Character(t) && t@ == typed && !has_control(typed)) || (event.key
            == Key::Space && typed == seq![' ']),
    ensures
        handled,
        after == (TextInputView { edit: after.edit, ..before }),
        after.edit.content() == before.edit.content().subrange(0, before.edit.caret_at()) + typed
            + before.edit.content().subrange(before.edit.caret_at(), before.edit.content().len() as int),
        after.edit.caret_at() == before.edit.caret_at() + typed.len(),
        after.edit.anchor_at() == after.edit.caret_at(),
{
}

} // verus!

use vstd::prelude::*;

use crate::direction::DirectionSetting;
use crate::focus::{focus_when_enabled, FocusPolicy};
use crate::input::{Key, KeyState, KeyboardEvent};
use crate::semantics::{SemanticRole, Semantics};
use crate::text_edit::replaced;
use crate::widgets::text_input::{text_field_semantics, text_input_key, TextInput, TextInputView};

verus! {

/// A multi-line text field: a text input in which Enter starts a new line.
#[derive(Clone, Debug, PartialEq)]
pub struct TextArea {
    pub input: TextInput,
    pub(crate) minimum_lines: usize,
}

/// The state of a text area as contracts see it.
pub struct TextAreaView {
    pub input: TextInputView,
    pub minimum_lines: usize,
}

impl View for TextArea {
    type V = TextAreaView;

    closed spec fn view(&self) -> TextAreaView {
        TextAreaView { input: self.input@, minimum_lines: self.minimum_lines }
    }
}

/// What a text area does with one key event: a pressed Enter in an editable area
/// replaces the selection with a line break; other events go to the text input.
pub open spec fn text_area_key(before: TextInputView, after: TextInputView, event: KeyboardEvent, handled: bool) -> bool {
    if event.state == KeyState::Pressed && event.key == Key::Enter && !before.disabled
        && !before.read_only {
        handled && after == (TextInputView { edit: after.edit, ..before }) && replaced(
            before.edit,
            after.edit,
            seq!['\n'],
        )
    } else {
        text_input_key(before, after, event, handled)
    }
}

impl TextArea {
    /// An empty area at least three lines tall.
    pub fn new(label: &str) -> (area: Self)
        ensures
            area@.input.label == label@,
            area@.input.placeholder == Seq::<char>::empty(),
            area@.input.edit.holds_collapsed(seq![], 0),
            !area@.input.disabled && !area@.input.read_only && !area@.input.required,
            !area@.input.invalid && !area@.input.focused,
            area@.input.direction == DirectionSetting::Inherit,
            area@.minimum_lines == 3,
    {
        TextArea { input: TextInput::new(label), minimum_lines: 3 }
    }

    /// An area holding `text`, caret at its end, at least three lines tall.
    pub fn with_text(label: &str, text: &str) -> (area: Self)
        ensures
            area@.input.label == label@,
            area@.input.placeholder == Seq::<char>::empty(),
            area@.input.edit.holds_collapsed(text@, text@.len() as int),
            !area@.input.disabled && !area@.input.read_only && !area@.input.required,
            !area@.input.invalid && !area@.input.focused,
            area@.input.direction == DirectionSetting::Inherit,
            area@.minimum_lines == 3,
    {
        TextArea { input: TextInput::with_text(label, text), minimum_lines: 3 }
    }

    pub fn minimum_lines(&self) -> (lines: usize)
        ensures
            lines == self@.minimum_lines,
    {
        self.minimum_lines
    }

    /// Sets the least number of lines the area shows; fewer than one counts as one.
    pub fn set_minimum_lines(&mut self, minimum_lines: usize)
        ensures
            final(self)@ == (TextAreaView {
                minimum_lines: if minimum_lines < 1 {
                    1
                } else {
                    minimum_lines
                },
                ..old(self)@
            }),
    {
        self.minimum_lines = if minimum_lines < 1 {
            1
        } else {
            minimum_lines
        };
    }

    /// Enter starts a new line in an editable area; other keys edit as in a text input.
    pub fn handle_key(&mut self, event: &KeyboardEvent) -> (handled: bool)
        ensures
            text_area_key(old(self)@.input, final(self)@.input, *event, handled),
            final(self)@.minimum_lines == old(self)@.minimum_lines,
    {
        proof {
            TextInput::lemma_public_fields(self.input);
        }
        let enter = match event.key {
            Key::Enter => true,
            _ => false,
        };
        if event.state == KeyState::Pressed && enter && !self.input.disabled && !self.input.read_only {
            self.input.edit.replace_selection("\n");
            proof {
                reveal_strlit("\n");
                assert("\n"@ =~= seq!['\n']);
                TextInput::lemma_public_fields(self.input);
            }
            return true;
        }
        self.input.handle_key(event)
    }

    /// The semantics of its text input, as a multi-line text field.
    pub fn semantics(&self) -> (s: Semantics)
        ensures
            text_field_semantics(s, self@.input, SemanticRole::MultilineTextField),
    {
        let mut semantics = self.input.semantics();
        semantics.role = SemanticRole::MultilineTextField;
        semantics
    }

    pub fn focus_policy(&self) -> (policy: FocusPolicy)
        ensures
            policy == focus_when_enabled(self@.input.disabled),
    {
        self.input.focus_policy()
    }
}


/// A read-only text area keeps its text, whatever key arrives, Enter included.
pub proof fn lemma_read_only_area_keeps_text(
    before: TextInputView,
    after: TextInputView,
    event: KeyboardEvent,
    handled: bool,
)
    requires
        text_area_key(before, after, event, handled),
        before.read_only,
    ensures
        after.edit.content() == before.edit.content(),
{
    crate::widgets::text_input::lemma_read_only_field_keeps_text(before, after, event, handled);
}

impl TextArea {
    /// Replaces the text input inside; the minimum line count stays.
    pub fn set_input(&mut self, input: TextInput)
        ensures
            final(self)@ == (TextAreaView { input: input@, ..old(self)@ }),
    {
        self.input = input;
    }
}

/// On an enabled, editable area with a collapsed caret, Enter puts a line break at the
/// caret, which moves past it.
pub proof fn lemma_enter_breaks_the_line_at_the_caret(
    before: TextInputView,
    after: TextInputView,
    event: KeyboardEvent,
    handled: bool,
)
    requires
        text_area_key(before, after, event, handled),
        event.state == KeyState::Pressed,
        event.key == Key::Enter,
        !before.disabled,
        !before.read_only,
        before.edit.anchor_at() == before.edit.caret_at(),
        0 <= before.edit.caret_at() <= before.edit.content().len(),
    ensures
        handled,
        after == (TextInputView { edit: after.edit, ..before }),
        after.edit.content() == before.edit.content().subrange(0, before.edit.caret_at()) + seq!['\n']
            + before.edit.content().subrange(before.edit.caret_at(), before.edit.content().len() as int),
        after.edit.caret_at() == before.edit.caret_at() + 1,
        after.edit.anchor_at() == after.edit.caret_at(),
{
}

} // verus!

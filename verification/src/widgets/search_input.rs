use vstd::prelude::*;

use crate::focus::{focus_when_enabled, FocusPolicy};
use crate::input::{Key, KeyState, KeyboardEvent};
use crate::pixels::{PixelFormat, PixelImage, PixelImageView};
use crate::semantics::{SemanticRole, Semantics};
use crate::text_edit::TextEditState;
use crate::direction::DirectionSetting;
use crate::widgets::icon::{fresh_icon, Icon};
use crate::widgets::text_input::{text_field_semantics, text_input_key, TextInput, TextInputView};

verus! {

/// What a search field did with a key event.
#[derive(Clone, Copy, Debug, PartialEq, Eq, Structural, Hash)]
pub enum SearchInputAction {
    NoChange,
    Edited,
    Cleared,
    Submitted,
}

impl Default for SearchInputAction {
    fn default() -> (action: Self)
        ensures
            action == SearchInputAction::NoChange,
    {
        SearchInputAction::NoChange
    }
}

/// The pixels of the magnifier glyph: a five by five alpha mask.
pub open spec fn magnifier_pixels() -> Seq<u8> {
    seq![
        0u8, 255, 255, 255, 0, 255, 0, 0, 0, 255, 255, 0, 255, 0, 255, 255, 0, 0, 255, 0, 0, 255,
        255, 0, 255,
    ]
}

/// The built-in magnifier icon.
pub fn search_icon() -> (icon: Icon)
    ensures
        icon@ == fresh_icon(icon@.source),
        icon@.source@ == (PixelImageView {
            width: 5,
            height: 5,
            format: PixelFormat::Alpha8,
            data: magnifier_pixels(),
        }),
{
    let pixels: Vec<u8> = vec![
        0, 255, 255, 255, 0, 255, 0, 0, 0, 255, 255, 0, 255, 0, 255, 255, 0, 0, 255, 0, 0, 255,
        255, 0, 255,
    ];
    assert(pixels@ =~= magnifier_pixels());
    let image = PixelImage::new(5, 5, PixelFormat::Alpha8, pixels).unwrap();
    Icon::new(image).unwrap()
}

/// Clearing a search field: refused while it is disabled, read-only or already empty;
/// else its text becomes empty with the caret at the start.
pub open spec fn search_cleared(before: TextInputView, after: TextInputView, cleared: bool) -> bool {
    if before.disabled || before.read_only || before.edit.content().len() == 0 {
        !cleared && after == before
    } else {
        cleared && after == (TextInputView { edit: after.edit, ..before })
            && after.edit.holds_collapsed(seq![], 0)
    }
}

/// What a search field does with one key event: Enter submits unless disabled, Escape
/// clears, and other keys edit the text as in a text input.
pub open spec fn search_key(
    before: TextInputView,
    after: TextInputView,
    event: KeyboardEvent,
    action: SearchInputAction,
) -> bool {
    if event.state == KeyState::Pressed && event.key == Key::Enter && !before.disabled {
        action == SearchInputAction::Submitted && after == before
    } else if event.state == KeyState::Pressed && event.key == Key::Escape {
        (action == SearchInputAction::Cleared || action == SearchInputAction::NoChange)
            && search_cleared(before, after, action == SearchInputAction::Cleared)
    } else {
        (action == SearchInputAction::Edited || action == SearchInputAction::NoChange)
            && text_input_key(before, after, event, action == SearchInputAction::Edited)
    }
}

/// A text field for a search query, with a magnifier icon.
#[derive(Clone, Debug, PartialEq)]
pub struct SearchInput {
    pub input: TextInput,
    pub icon: Icon,
}

impl SearchInput {
    /// An empty search field whose placeholder reads "Search".
    pub fn new(label: &str) -> (search: Self)
        ensures
            search.input@.label == label@,
            search.input@.placeholder == "Search"@,
            search.input@.edit.holds_collapsed(seq![], 0),
            !search.input@.disabled && !search.input@.read_only && !search.input@.required,
            !search.input@.invalid && !search.input@.focused,
            search.input@.direction == DirectionSetting::Inherit,
            search.icon@ == fresh_icon(search.icon@.source),
            search.icon@.source@ == (PixelImageView {
                width: 5,
                height: 5,
                format: PixelFormat::Alpha8,
                data: magnifier_pixels(),
            }),
    {
        let mut input = TextInput::new(label);
        input.set_placeholder("Search");
        SearchInput { input, icon: search_icon() }
    }

    /// A search field holding `text`, caret at its end.
    pub fn with_text(label: &str, text: &str) -> (search: Self)
        ensures
            search.input@.label == label@,
            search.input@.placeholder == "Search"@,
            search.input@.edit.holds_collapsed(text@, text@.len() as int),
            !search.input@.disabled && !search.input@.read_only && !search.input@.required,
            !search.input@.invalid && !search.input@.focused,
            search.input@.direction == DirectionSetting::Inherit,
            search.icon@ == fresh_icon(search.icon@.source),
            search.icon@.source@ == (PixelImageView {
                width: 5,
                height: 5,
                format: PixelFormat::Alpha8,
                data: magnifier_pixels(),
            }),
    {
        let mut search = SearchInput::new(label);
        proof {
            TextInput::lemma_public_fields(search.input);
        }
        search.input.edit = TextEditState::new(text);
        proof {
            TextInput::lemma_public_fields(search.input);
        }
        search
    }

    /// Empties the text unless the field is disabled, read-only or already empty.
    pub fn clear(&mut self) -> (cleared: bool)
        ensures
            search_cleared(old(self).input@, final(self).input@, cleared),
            final(self).icon == old(self).icon,
    {
        proof {
            TextInput::lemma_public_fields(self.input);
        }
        if self.input.disabled || self.input.read_only || self.input.text().unicode_len() == 0 {
            return false;
        }
        self.input.edit.select_all();
        self.input.edit.replace_selection("");
        proof {
            reveal_strlit("");
            TextInput::lemma_public_fields(self.input);
        }
        assert(self.input@.edit.content() =~= seq![]);
        true
    }

    /// Enter submits, Escape clears, and other keys edit the query.
    pub fn handle_key(&mut self, event: &KeyboardEvent) -> (action: SearchInputAction)
        ensures
            search_key(old(self).input@, final(self).input@, *event, action),
            final(self).icon == old(self).icon,
    {
        proof {
            TextInput::lemma_public_fields(self.input);
        }
        let pressed = event.state == KeyState::Pressed;
        let (enter, escape) = match event.key {
            Key::Enter => (true, false),
            Key::Escape => (false, true),
            _ => (false, false),
        };
        if pressed && enter && !self.input.disabled {
            return SearchInputAction::Submitted;
        }
        if pressed && escape {
            return if self.clear() {
                SearchInputAction::Cleared
            } else {
                SearchInputAction::NoChange
            };
        }
        if self.input.handle_key(event) {
            SearchInputAction::Edited
        } else {
            SearchInputAction::NoChange
        }
    }

    /// The semantics of its text field, as a search field.
    pub fn semantics(&self) -> (s: Semantics)
        ensures
            text_field_semantics(s, self.input@, SemanticRole::SearchField),
    {
        let mut semantics = self.input.semantics();
        semantics.role = SemanticRole::SearchField;
        semantics
    }

    pub fn focus_policy(&self) -> (policy: FocusPolicy)
        ensures
            policy == focus_when_enabled(self.input@.disabled),
    {
        self.input.focus_policy()
    }
}


/// A read-only search field keeps its query, whatever key arrives.
pub proof fn lemma_read_only_search_keeps_query(
    before: TextInputView,
    after: TextInputView,
    event: KeyboardEvent,
    action: SearchInputAction,
)
    requires
        search_key(before, after, event, action),
        before.read_only,
    ensures
        after.edit.content() == before.edit.content(),
        action != SearchInputAction::Cleared,
{
    if !(event.state == KeyState::Pressed && event.key == Key::Enter && !before.disabled) && !(
    event.state == KeyState::Pressed && event.key == Key::Escape) {
        crate::widgets::text_input::lemma_read_only_field_keeps_text(
            before,
            after,
            event,
            action == SearchInputAction::Edited,
        );
    }
}

/// Enter on an enabled search field submits the query and changes nothing; Escape
/// empties an editable field that holds a query, and does nothing to an empty one.
pub proof fn lemma_search_enter_submits_and_escape_clears(
    before: TextInputView,
    after: TextInputView,
    event: KeyboardEvent,
    action: SearchInputAction,
)
    requires
        search_key(before, after, event, action),
        event.state == KeyState::Pressed,
        !before.disabled,
        event.key == Key::Enter || event.key == Key::Escape,
    ensures
        event.key == Key::Enter ==> action == SearchInputAction::Submitted && after == before,
        event.key == Key::Escape && !before.read_only && before.edit.content().len() > 0 ==> action
            == SearchInputAction::Cleared && after.edit.content().len() == 0 && after.edit.caret_at()
            == 0 && after == (TextInputView { edit: after.edit, ..before }),
        event.key == Key::Escape && (before.read_only || before.edit.content().len() == 0) ==> action
            == SearchInputAction::NoChange && after == before,
{
}

} // verus!

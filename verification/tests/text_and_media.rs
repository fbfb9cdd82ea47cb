use mio_gui::{
    ArrowKey, Badge, Direction, Icon, IconError, Image, Kbd, Key, KeyboardEvent, PixelFormat, PixelImage,
    SearchInput, SearchInputAction, Select, SelectAction, SelectError, SelectOption,
    SemanticAction, SemanticColorToken, SemanticRole, Text, TextArea, TextInput, VisualVariant,
};

fn alpha_mask() -> PixelImage {
    PixelImage::new(4, 2, PixelFormat::Alpha8, vec![255_u8; 8]).unwrap()
}

fn image() -> PixelImage {
    PixelImage::new(4, 2, PixelFormat::Rgba8, vec![255_u8; 32]).unwrap()
}

fn options() -> Vec<SelectOption> {
    vec![
        SelectOption::new("Small", "sm"),
        SelectOption {
            disabled: true,
            ..SelectOption::new("Medium", "md")
        },
        SelectOption::new("Large", "lg"),
    ]
}

#[test]
fn icons_require_alpha_masks() {
    let rgba = PixelImage::new(1, 1, PixelFormat::Rgba8, vec![0_u8; 4]).unwrap();
    assert_eq!(
        Icon::new(rgba),
        Err(IconError::UnsupportedPixelFormat(PixelFormat::Rgba8))
    );
}

#[test]
fn icons_default_to_semantic_text_tint_and_decorative_semantics() {
    let icon = Icon::new(alpha_mask()).unwrap();
    assert_eq!(icon.color, SemanticColorToken::Text);
    assert!(icon.semantics().state.hidden);
    assert_eq!(
        icon.with_alternative_text("Search")
            .semantics()
            .name
            .as_deref(),
        Some("Search")
    );
}

#[test]
fn alternative_text_controls_semantics() {
    let decorative = Image::new(image());
    let informative = Image::new(image()).with_alternative_text("Profile photograph");
    assert_eq!(decorative.semantics().name, None);
    assert!(decorative.semantics().state.hidden);
    assert_eq!(
        informative.semantics().name.as_deref(),
        Some("Profile photograph")
    );
    assert!(!informative.semantics().state.hidden);
}

#[test]
fn badge_and_kbd_are_named_static_text() {
    let badge = Badge::new("New");
    let kbd = Kbd::new("Ctrl K");
    assert_eq!(badge.semantics().role, SemanticRole::Text);
    assert_eq!(kbd.semantics().name.as_deref(), Some("Ctrl K"));
    assert_eq!(badge.style.variant, VisualVariant::Soft);
    assert_eq!(kbd.style.variant, VisualVariant::Outline);
}

#[test]
fn semantics_expose_complete_source_text() {
    let text = Text::new("رابط کاربری");
    let semantics = text.semantics();

    assert_eq!(semantics.role, SemanticRole::Text);
    assert_eq!(semantics.name.as_deref(), Some("رابط کاربری"));
    assert_eq!(semantics.actions().len(), 0);
}

#[test]
fn keyboard_editing_uses_grapheme_safe_edit_state() {
    let mut input = TextInput::with_text("Name", "مُ");
    assert!(input.handle_key(&KeyboardEvent::pressed(Key::Character("ن".into()))));
    assert_eq!(input.text(), "مُن");
    assert!(input.handle_key(&KeyboardEvent::pressed(Key::Space)));
    assert_eq!(input.text(), "مُن ");
    assert!(input.handle_key(&KeyboardEvent::pressed(Key::Backspace)));
    assert_eq!(input.text(), "مُن");
    assert!(input.handle_key(&KeyboardEvent::pressed(Key::Backspace)));
    assert_eq!(input.text(), "مُ");
}

#[test]
fn held_backspace_repeat_continues_grapheme_safe_deletion() {
    let mut input = TextInput::with_text("Name", "abمُ");
    let mut event = KeyboardEvent::pressed(Key::Backspace);
    event.repeat = true;

    assert!(input.handle_key(&event));
    assert_eq!(input.text(), "ab");
    assert!(input.handle_key(&event));
    assert_eq!(input.text(), "a");
}

#[test]
fn read_only_and_disabled_inputs_reject_edits() {
    let mut input = TextInput::with_text("Name", "Mio");
    input.read_only = true;
    assert!(!input.handle_key(&KeyboardEvent::pressed(Key::Character("!".into()))));
    assert!(!input.semantics().supports(SemanticAction::SetValue));
    assert!(input.handle_key(&KeyboardEvent::pressed(Key::Home)));
    assert_eq!(input.edit.caret(), 0);
    assert_eq!(input.text(), "Mio");
    input.read_only = false;
    input.disabled = true;
    assert!(!input.handle_key(&KeyboardEvent::pressed(Key::Delete)));
    assert_eq!(input.text(), "Mio");
}

#[test]
fn semantics_expose_value_and_form_states() {
    let mut input = TextInput::with_text("Name", "Reza");
    input.set_placeholder("Enter name");
    input.required = true;
    input.invalid = true;
    let semantics = input.semantics();
    assert_eq!(semantics.role, SemanticRole::TextField);
    assert_eq!(semantics.placeholder.as_deref(), Some("Enter name"));
    assert_eq!(semantics.name.as_deref(), Some("Name"));
    assert_eq!(semantics.value.as_deref(), Some("Reza"));
    assert!(semantics.state.required);
    assert!(semantics.state.invalid);
}

#[test]
fn reports_edit_submit_and_clear_actions() {
    let mut search = SearchInput::new("Site search");
    assert_eq!(
        search.handle_key(&KeyboardEvent::pressed(Key::Character("mio".into()))),
        SearchInputAction::Edited
    );
    assert_eq!(
        search.handle_key(&KeyboardEvent::pressed(Key::Enter)),
        SearchInputAction::Submitted
    );
    assert_eq!(
        search.handle_key(&KeyboardEvent::pressed(Key::Escape)),
        SearchInputAction::Cleared
    );
    assert_eq!(search.input.text(), "");
}

#[test]
fn read_only_search_cannot_clear_or_edit() {
    let mut search = SearchInput::with_text("Site search", "Mio");
    search.input.read_only = true;
    assert!(!search.clear());
    assert_eq!(
        search.handle_key(&KeyboardEvent::pressed(Key::Character("!".into()))),
        SearchInputAction::NoChange
    );
}

#[test]
fn enter_inserts_a_newline_unless_read_only() {
    let mut area = TextArea::with_text("Notes", "first");
    assert!(area.handle_key(&KeyboardEvent::pressed(Key::Enter)));
    assert_eq!(area.input.text(), "first\n");
    area.input.read_only = true;
    assert!(!area.handle_key(&KeyboardEvent::pressed(Key::Enter)));
}

#[test]
fn validates_options_and_selection() {
    assert_eq!(
        Select::new("Size", Vec::new()),
        Err(SelectError::EmptyOptions)
    );
    let mut select = Select::new("Size", options()).unwrap();
    assert_eq!(select.select(1), Err(SelectError::InvalidSelection));
    assert_eq!(select.select(2), Ok(true));
    assert_eq!(select.selected().value, "lg");
}

#[test]
fn keyboard_navigation_skips_disabled_options_and_controls_popup() {
    let mut select = Select::new("Size", options()).unwrap();
    assert_eq!(
        select.handle_key(&KeyboardEvent::pressed(Key::Enter)),
        SelectAction::Opened
    );
    assert_eq!(
        select.handle_key(&KeyboardEvent::pressed(Key::Arrow(ArrowKey::Down))),
        SelectAction::Changed
    );
    assert_eq!(select.selected_index(), 2);
    assert_eq!(
        select.handle_key(&KeyboardEvent::pressed(Key::Escape)),
        SelectAction::Closed
    );
}

#[test]
fn semantics_expose_label_value_expansion_and_menu_action() {
    let mut select = Select::new("Size", options()).unwrap();
    select.open = true;
    let semantics = select.semantics();
    assert_eq!(semantics.role, SemanticRole::ComboBox);
    assert_eq!(semantics.name.as_deref(), Some("Size"));
    assert_eq!(semantics.value.as_deref(), Some("Small"));
    assert_eq!(semantics.state.expanded, Some(true));
    assert!(semantics.supports(SemanticAction::ShowMenu));
    assert_eq!(semantics.virtual_children().len(), 3);
    assert_eq!(
        semantics.virtual_children()[0].role,
        SemanticRole::ListBoxOption
    );
    assert!(semantics.virtual_children()[0].state.selected);
    assert!(semantics.virtual_children()[1].state.disabled);
    assert_eq!(semantics.active_virtual_child(), Some(0));
}

#[test]
fn mirroring_is_opt_in_and_only_applies_in_rtl() {
    let mut widget = Image::new(image());
    assert!(!widget.layout(Direction::Rtl).mirrored);
    widget.mirror_in_rtl = true;
    assert!(!widget.layout(Direction::Ltr).mirrored);
    assert!(widget.layout(Direction::Rtl).mirrored);
}

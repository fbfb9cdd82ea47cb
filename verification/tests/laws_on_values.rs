use mio_gui::{
    ArrowKey, Countdown, Direction, Filter, FilterOption, Icon, IconError, Key, KeyboardEvent,
    MenuError, PixelFormat, PixelImage, Rating, SearchInput, SearchInputAction, SelectError,
    Table, Tabs, TextArea, TextInput, ThemeMode, ThemeSwitcher,
};

#[test]
fn error_messages_name_the_refusal() {
    let rgba = PixelImage::new(1, 1, PixelFormat::Rgba8, vec![0_u8; 4]).unwrap();
    match Icon::new(rgba) {
        Err(error) => assert_eq!(
            error.message(),
            "icons require Alpha8 pixel data, received Rgba8"
        ),
        Ok(_) => panic!("an RGBA image is not an icon"),
    }
    assert_eq!(
        IconError::UnsupportedPixelFormat(PixelFormat::Alpha8).message(),
        "icons require Alpha8 pixel data, received Alpha8"
    );
    assert_eq!(MenuError::NoEnabledItems.message(), "menu requires an enabled item");
    assert_eq!(
        SelectError::InvalidSelection.message(),
        "select index is out of range or disabled"
    );
}

#[test]
fn three_theme_activations_return_to_the_start() {
    let mut switcher = ThemeSwitcher::new("Theme");
    let start = switcher.mode;
    assert_eq!(start, ThemeMode::System);
    switcher.activate();
    switcher.activate();
    switcher.activate();
    assert_eq!(switcher.mode, start);
}

#[test]
fn a_full_turn_of_steps_returns_to_the_first_tab() {
    let mut tabs = Tabs::new("Views", &["A", "B", "C", "D"]).unwrap();
    for _ in 0..4 {
        assert!(tabs.next_item());
    }
    assert_eq!(tabs.active_index(), 0);
    tabs.disabled = true;
    assert!(!tabs.handle_key(&KeyboardEvent::pressed(Key::Arrow(ArrowKey::Right)), Direction::Ltr));
    assert_eq!(tabs.active_index(), 0);
}

#[test]
fn two_ticks_leave_what_one_tick_of_their_sum_leaves() {
    let mut twice = Countdown::new("A", 100);
    twice.tick(30);
    twice.tick(50);
    let mut once = Countdown::new("B", 100);
    once.tick(80);
    assert_eq!(twice.remaining_seconds(), once.remaining_seconds());
    assert_eq!(once.remaining_seconds(), 20);
}

#[test]
fn table_has_one_cell_per_column_of_each_row() {
    let table = Table::new(
        &["A", "B", "C"],
        &[&["1", "2", "3"], &["4", "5", "6"], &["7", "8", "9"]],
    )
    .unwrap();
    let semantics = table.semantics();
    assert_eq!(semantics.virtual_children().len(), 9);
    assert_eq!(semantics.virtual_children()[1 * 3 + 2].name.as_deref(), Some("C 2"));
    assert_eq!(semantics.virtual_children()[1 * 3 + 2].value.as_deref(), Some("6"));
}

#[test]
fn rating_up_then_down_restores_the_value() {
    let mut rating = Rating::new("Stars", 5, 3).unwrap();
    assert!(rating.increment());
    assert!(rating.decrement());
    assert_eq!(rating.value(), 3);
}

#[test]
fn toggling_an_option_twice_restores_the_filter() {
    let mut filter = Filter::new("Tags", vec![FilterOption::new("One")]).unwrap();
    let before = filter.clone();
    assert!(filter.toggle_active());
    assert!(filter.toggle_active());
    assert_eq!(filter, before);
}

#[test]
fn read_only_fields_keep_their_text_for_every_key() {
    let keys = [
        Key::Character("x".into()),
        Key::Space,
        Key::Backspace,
        Key::Delete,
        Key::Enter,
        Key::Escape,
        Key::Home,
        Key::End,
        Key::Arrow(ArrowKey::Left),
    ];
    let mut input = TextInput::with_text("Name", "Mio");
    input.read_only = true;
    let mut search = SearchInput::with_text("Find", "Mio");
    search.input.read_only = true;
    let mut area = TextArea::with_text("Notes", "Mio");
    area.input.read_only = true;
    for key in keys {
        let event = KeyboardEvent::pressed(key);
        input.handle_key(&event);
        assert_ne!(search.handle_key(&event), SearchInputAction::Cleared);
        area.handle_key(&event);
    }
    assert_eq!(input.text(), "Mio");
    assert_eq!(search.input.text(), "Mio");
    assert_eq!(area.input.text(), "Mio");
}

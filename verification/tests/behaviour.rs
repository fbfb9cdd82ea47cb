use mio_gui::{
    is_leap_year, ArrowKey, Breadcrumbs, BreadcrumbError, Calendar, CarouselError, CivilDate,
    CivilDateError, Countdown, DateInput, Direction, FileInput, FileInputError, Filter,
    FilterError, FilterOption, Key, KeyboardEvent, NavigationSelectionError, Pagination, Rating,
    RatingError, Steps, Table, TableError, Tabs, TextEditState,
};

#[test]
fn leap_years_follow_the_gregorian_rule() {
    assert!(is_leap_year(2024));
    assert!(!is_leap_year(1900));
    assert!(is_leap_year(2000));
    assert!(!is_leap_year(2023));
    assert!(is_leap_year(-4));
    assert!(!is_leap_year(-100));
}

#[test]
fn civil_dates_reject_year_zero_and_impossible_days() {
    assert_eq!(CivilDate::new(0, 1, 1), Err(CivilDateError));
    assert!(CivilDate::new(2024, 13, 1).is_err());
    assert!(CivilDate::new(2024, 4, 31).is_err());
    assert!(CivilDate::new(2024, 1, 0).is_err());
    assert_eq!(CivilDate::new(-44, 3, 15).unwrap().to_string(), "-044-03-15");
    assert_eq!(CivilDate::new(2024, 2, 9).unwrap().to_string(), "2024-02-09");
    assert_eq!(CivilDate::new(2023, 2, 1).unwrap().days_in_month(), 28);
}

#[test]
fn day_steps_cross_month_and_year_boundaries_and_undo_each_other() {
    let new_year = CivilDate::new(2024, 12, 31).unwrap();
    let next = new_year.next_day();
    assert_eq!(next, CivilDate::new(2025, 1, 1).unwrap());
    assert_eq!(next.previous_day(), new_year);
    let march = CivilDate::new(2023, 3, 1).unwrap();
    assert_eq!(march.previous_day(), CivilDate::new(2023, 2, 28).unwrap());
    assert_eq!(march.previous_day().next_day(), march);
    assert_eq!(march.add_days(-7), CivilDate::new(2023, 2, 22).unwrap());
    assert_eq!(march.add_days(-7).add_days(7), march);
}

#[test]
fn month_steps_clamp_to_the_last_day() {
    let end_of_january = CivilDate::new(2024, 1, 31).unwrap();
    assert_eq!(end_of_january.add_months(1), CivilDate::new(2024, 2, 29).unwrap());
    assert_eq!(end_of_january.add_months(-1), CivilDate::new(2023, 12, 31).unwrap());
    assert_eq!(end_of_january.add_months(13), CivilDate::new(2025, 2, 28).unwrap());
}

#[test]
fn calendar_keys_cover_weeks_months_and_month_edges() {
    let mut calendar = Calendar::new("Due", CivilDate::new(2024, 1, 15).unwrap());
    assert!(calendar.handle_key(&KeyboardEvent::pressed(Key::Arrow(ArrowKey::Down)), Direction::Ltr));
    assert_eq!(calendar.selected(), CivilDate::new(2024, 1, 22).unwrap());
    assert!(calendar.handle_key(&KeyboardEvent::pressed(Key::End), Direction::Ltr));
    assert_eq!(calendar.selected(), CivilDate::new(2024, 1, 31).unwrap());
    assert!(!calendar.handle_key(&KeyboardEvent::pressed(Key::End), Direction::Ltr));
    assert!(calendar.handle_key(&KeyboardEvent::pressed(Key::PageUp), Direction::Ltr));
    assert_eq!(calendar.selected(), CivilDate::new(2023, 12, 31).unwrap());
    assert!(calendar.handle_key(&KeyboardEvent::pressed(Key::Home), Direction::Ltr));
    assert_eq!(calendar.selected().day, 1);
    assert_eq!(calendar.display_text(), "Due  2023-12-01");
    calendar.disabled = true;
    assert!(!calendar.next_day());
    assert_eq!(calendar.semantics().value.as_deref(), Some("2023-12-01"));
    assert!(calendar.semantics().state.disabled);
}

#[test]
fn closed_date_input_ignores_navigation_and_shows_its_state() {
    let mut input = DateInput::new("Start", CivilDate::new(2026, 8, 16).unwrap());
    assert!(!input.handle_key(&KeyboardEvent::pressed(Key::PageDown), Direction::Ltr));
    assert!(!input.handle_key(&KeyboardEvent::pressed(Key::Escape), Direction::Ltr));
    assert_eq!(input.display_text(), "Start  2026-08-16  ▼");
    assert!(input.activate());
    assert_eq!(input.display_text(), "Start  2026-08-16  ▲");
    assert_eq!(input.semantics().virtual_children().len(), 1);
}

#[test]
fn breadcrumbs_refuse_blank_items_and_join_by_direction() {
    assert_eq!(Breadcrumbs::new(&["Home", "  "]), Err(BreadcrumbError));
    let crumbs = Breadcrumbs::new(&["Home", "Docs"]).unwrap();
    assert_eq!(crumbs.display_text(Direction::Ltr), "Home  ›  Docs");
    assert_eq!(crumbs.display_text(Direction::Rtl), "Home  ‹  Docs");
    assert_eq!(
        BreadcrumbError.message(),
        "breadcrumbs require at least one non-empty item"
    );
}

#[test]
fn selection_wraps_both_ways_and_marks_the_active_item() {
    let mut tabs = Tabs::new("Views", &["One", "Two", "Three"]).unwrap();
    assert!(tabs.previous_item());
    assert_eq!(tabs.active_index(), 2);
    assert!(tabs.next_item());
    assert_eq!(tabs.active_index(), 0);
    assert_eq!(tabs.display_text(Direction::Ltr), "[One]  →  Two  →  Three");
    assert!(tabs.handle_key(&KeyboardEvent::pressed(Key::End), Direction::Ltr));
    assert!(!tabs.handle_key(&KeyboardEvent::pressed(Key::End), Direction::Ltr));
    tabs.disabled = true;
    assert!(!tabs.next_item());
    assert!(!tabs.handle_key(&KeyboardEvent::pressed(Key::Home), Direction::Ltr));
    assert_eq!(tabs.active_item(), "Three");
    let semantics = tabs.semantics();
    assert!(semantics.virtual_children()[2].state.selected);
    assert!(!semantics.virtual_children()[0].state.selected);
    assert_eq!(Steps::new("Empty", &[]), Err(NavigationSelectionError));
}

#[test]
fn pagination_numbers_pages_from_one() {
    let mut pages = Pagination::new("Results", 12).unwrap();
    assert_eq!(pages.selected_page(), 1);
    assert!(pages.previous_page());
    assert_eq!(pages.selected_page(), 12);
    assert_eq!(pages.semantics().value.as_deref(), Some("12"));
    pages.style_mut().state.disabled = true;
    assert_eq!(pages.semantics().virtual_children()[9].name.as_deref(), Some("10"));
}

#[test]
fn table_cells_are_named_by_column_and_row() {
    let table = Table::new(&["Name", "Role"], &[&["Mina", "Admin"], &["Reza", "Guest"]]).unwrap();
    let semantics = table.semantics();
    assert_eq!(semantics.virtual_children().len(), 4);
    assert_eq!(semantics.virtual_children()[3].name.as_deref(), Some("Role 2"));
    assert_eq!(semantics.virtual_children()[3].value.as_deref(), Some("Guest"));
    assert_eq!(
        table.display_text(),
        "Name  |  Role\nMina  |  Admin\nReza  |  Guest"
    );
    assert_eq!(Table::new(&[], &[]), Err(TableError));
}

#[test]
fn countdown_shows_hours_beyond_two_digits() {
    let mut countdown = Countdown::new("Launch", 360_000);
    assert_eq!(countdown.formatted_remaining(), "100:00:00");
    assert!(countdown.set_remaining_seconds(59));
    assert!(!countdown.set_remaining_seconds(59));
    assert_eq!(countdown.formatted_remaining(), "00:00:59");
}

#[test]
fn rating_refuses_values_above_the_maximum_and_shows_stars() {
    let mut rating = Rating::new("Score", 3, 1).unwrap();
    assert_eq!(rating.set_value(4), Err(RatingError));
    assert_eq!(rating.display_text(), "Score  ★☆☆");
    assert!(rating.handle_key(&KeyboardEvent::pressed(Key::End), Direction::Ltr));
    assert!(!rating.increment());
    assert_eq!(rating.value(), 3);
    assert_eq!(rating.semantics().value.as_deref(), Some("3 of 3"));
    rating.disabled = true;
    assert_eq!(rating.set_value(0), Ok(false));
    assert_eq!(Rating::new("Too high", 2, 3), Err(RatingError));
}

#[test]
fn filter_skips_disabled_options_and_refuses_blank_labels() {
    assert_eq!(
        Filter::new("Tags", vec![FilterOption::new(" ")]),
        Err(FilterError)
    );
    let mut filter = Filter::new(
        "Tags",
        vec![
            FilterOption::new("A"),
            FilterOption { disabled: true, ..FilterOption::new("B") },
            FilterOption::new("C"),
        ],
    )
    .unwrap();
    assert!(filter.next_option());
    assert_eq!(filter.active_index(), 2);
    assert!(filter.toggle_active());
    assert_eq!(filter.display_text(), "[ ] A  [ ] B  >[x] C<");
    let mut lone = Filter::new(
        "Only",
        vec![FilterOption::new("A"), FilterOption { disabled: true, ..FilterOption::new("B") }],
    )
    .unwrap();
    assert!(!lone.next_option());
    assert_eq!(lone.active_index(), 0);
}

#[test]
fn file_input_summarises_its_files() {
    let mut input = FileInput::new("Upload");
    assert_eq!(input.semantics().value.as_deref(), Some("No file selected"));
    assert_eq!(input.set_files(&[" "]), Err(FileInputError));
    input.multiple = true;
    assert_eq!(input.set_files(&["a.txt", "b.txt"]), Ok(true));
    assert_eq!(input.set_files(&["a.txt", "b.txt"]), Ok(false));
    assert_eq!(input.display_text(), "Upload  —  a.txt, b.txt");
    assert_eq!(CarouselError.message(), "carousel requires at least one item");
}

#[test]
fn text_edit_state_replaces_and_deletes_graphemes() {
    let mut edit = TextEditState::new("ab");
    edit.replace_selection("c");
    assert_eq!(edit.text(), "abc");
    assert!(edit.delete_backward());
    assert_eq!(edit.text(), "ab");
    edit.select_all();
    edit.replace_selection("");
    assert_eq!(edit.text(), "");
    assert!(!edit.delete_backward());
}

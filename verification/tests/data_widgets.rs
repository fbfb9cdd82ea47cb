use mio_gui::{
    Accordion, ArrowKey, Breadcrumbs, Calendar, Carousel, ChatBubble, CivilDate, Countdown,
    DateInput, Direction, Dock, Fieldset, FileInput, Filter, FilterOption, Key, KeyboardEvent,
    Link, Navbar, Pagination, Rating, SemanticAction, SemanticRole, Stat, Steps, Table, Tabs,
    Timeline, TimelineItem,
};

#[test]
fn stat_and_countdown_preserve_named_values_and_saturating_time() {
    let mut stat = Stat::new("Revenue", "$42");
    stat.set_value("$43");
    assert_eq!(stat.semantics().value.as_deref(), Some("$43"));
    let mut countdown = Countdown::new("Offer ends", 3661);
    assert_eq!(countdown.semantics().role, SemanticRole::Timer);
    assert_eq!(countdown.formatted_remaining(), "01:01:01");
    assert!(countdown.tick(4000));
    assert_eq!(countdown.remaining_seconds(), 0);
    assert!(!countdown.tick(1));
}

#[test]
fn chat_bubble_exposes_grouped_content() {
    let bubble = ChatBubble::new("Mina", "Hello");
    assert_eq!(bubble.semantics().name.as_deref(), Some("Mina"));
    assert_eq!(bubble.semantics().value.as_deref(), Some("Hello"));
    assert_eq!(bubble.semantics().role, SemanticRole::Group);
}

#[test]
fn table_and_timeline_validate_and_expose_collection_semantics() {
    let table = Table::new(&["Name", "Role"], &[&["Mina", "Admin"]]).unwrap();
    assert_eq!(table.semantics().role, SemanticRole::Table);
    assert_eq!(table.semantics().virtual_children().len(), 2);
    assert!(Table::new(&["Name", "Role"], &[&["Mina"]]).is_err());
    let timeline = Timeline::new(vec![
        TimelineItem::new("Created", "09:00"),
        TimelineItem::new("Published", "10:30"),
    ]);
    assert_eq!(timeline.semantics().role, SemanticRole::List);
    assert_eq!(timeline.semantics().virtual_children().len(), 2);
}

#[test]
fn accordion_and_carousel_support_directional_keyboard_state() {
    let mut accordion = Accordion::new("Details", "More information");
    assert!(accordion.activate());
    assert_eq!(accordion.semantics().state.expanded, Some(true));
    let mut carousel = Carousel::new("Gallery", &["One", "Two", "Three"]).unwrap();
    assert!(carousel.handle_key(
        &KeyboardEvent::pressed(Key::Arrow(ArrowKey::Right)),
        Direction::Ltr
    ));
    assert_eq!(carousel.active_index(), 1);
    assert!(carousel.handle_key(
        &KeyboardEvent::pressed(Key::Arrow(ArrowKey::Right)),
        Direction::Rtl
    ));
    assert_eq!(carousel.active_index(), 0);
    assert!(Carousel::new("Empty", &[]).is_err());
}

#[test]
fn fieldset_exposes_validation_and_rating_mirrors_keys() {
    let mut fieldset = Fieldset::new("Account", "Email");
    fieldset.set_validation_message(Some("Email is required".into()));
    assert!(fieldset.semantics().state.invalid);
    assert_eq!(fieldset.semantics().virtual_children().len(), 1);
    let mut rating = Rating::new("Quality", 5, 2).unwrap();
    assert_eq!(rating.semantics().role, SemanticRole::Slider);
    assert!(rating.handle_key(
        &KeyboardEvent::pressed(Key::Arrow(ArrowKey::Right)),
        Direction::Ltr
    ));
    assert_eq!(rating.value(), 3);
    assert!(rating.handle_key(
        &KeyboardEvent::pressed(Key::Arrow(ArrowKey::Right)),
        Direction::Rtl
    ));
    assert_eq!(rating.value(), 2);
    assert!(Rating::new("Invalid", 0, 0).is_err());
}

#[test]
fn filter_and_file_input_validate_selection_models() {
    let mut filter = Filter::new(
        "Tags",
        vec![FilterOption::new("Rust"), FilterOption::new("GUI")],
    )
    .unwrap();
    assert!(filter.toggle_active());
    assert_eq!(
        filter.semantics().virtual_children()[0].state.checked,
        Some(true)
    );
    assert!(filter.handle_key(
        &KeyboardEvent::pressed(Key::Arrow(ArrowKey::Right)),
        Direction::Ltr
    ));
    assert_eq!(filter.active_index(), 1);
    let mut input = FileInput::new("Attachment");
    assert!(input.set_files(&["report.pdf"]).unwrap());
    assert_eq!(input.files(), &["report.pdf"]);
    assert!(input.set_files(&["one", "two"]).is_err());
}

#[test]
fn calendar_validates_dates_and_navigates_civil_boundaries() {
    assert!(CivilDate::new(2025, 2, 29).is_err());
    let leap_day = CivilDate::new(2024, 2, 29).unwrap();
    let mut calendar = Calendar::new("Appointment", leap_day);
    assert!(calendar.next_day());
    assert_eq!(calendar.selected(), CivilDate::new(2024, 3, 1).unwrap());
    assert!(calendar.handle_key(
        &KeyboardEvent::pressed(Key::Arrow(ArrowKey::Right)),
        Direction::Rtl
    ));
    assert_eq!(calendar.selected(), leap_day);
    assert_eq!(calendar.semantics().virtual_children().len(), 29);
}

#[test]
fn date_input_exposes_popup_state_and_delegates_navigation() {
    let mut input = DateInput::new("Birthday", CivilDate::new(2026, 8, 16).unwrap());
    assert!(input.handle_key(&KeyboardEvent::pressed(Key::Enter), Direction::Ltr));
    assert_eq!(input.semantics().state.expanded, Some(true));
    assert!(input.handle_key(&KeyboardEvent::pressed(Key::PageDown), Direction::Ltr));
    assert_eq!(input.selected(), CivilDate::new(2026, 9, 16).unwrap());
    assert!(input.handle_key(&KeyboardEvent::pressed(Key::Escape), Direction::Ltr));
    assert!(!input.open);
}

#[test]
fn link_and_breadcrumbs_expose_navigation_semantics() {
    let link = Link::new("Settings", "settings");
    assert_eq!(link.semantics().role, SemanticRole::Link);
    assert!(link.semantics().supports(SemanticAction::Activate));
    let breadcrumbs = Breadcrumbs::new(&["Home", "Account", "Settings"]).unwrap();
    assert_eq!(breadcrumbs.semantics().role, SemanticRole::List);
    assert_eq!(breadcrumbs.semantics().virtual_children().len(), 3);
    assert!(Breadcrumbs::new(&[]).is_err());
}

#[test]
fn pagination_steps_and_tabs_mirror_selection_navigation() {
    let mut pagination = Pagination::new("Pages", 3).unwrap();
    assert!(pagination.next_page());
    assert_eq!(pagination.selected_page(), 2);
    let mut steps = Steps::new("Checkout", &["Cart", "Address", "Pay"]).unwrap();
    assert!(steps.handle_key(
        &KeyboardEvent::pressed(Key::Arrow(ArrowKey::Right)),
        Direction::Rtl
    ));
    assert_eq!(steps.active_index(), 2);
    let tabs = Tabs::new("Sections", &["Overview", "Activity"]).unwrap();
    assert_eq!(tabs.semantics().role, SemanticRole::TabList);
    assert!(Pagination::new("Empty", 0).is_err());
}

#[test]
fn dock_and_navbar_share_accessible_directional_selection() {
    let mut dock = Dock::new("Primary", &["Home", "Search", "Profile"]).unwrap();
    assert!(dock.next_item());
    assert_eq!(dock.active_item(), "Search");
    let mut navbar = Navbar::new("Site", &["Docs", "Examples"]).unwrap();
    assert!(navbar.handle_key(
        &KeyboardEvent::pressed(Key::Arrow(ArrowKey::Left)),
        Direction::Rtl
    ));
    assert_eq!(navbar.active_item(), "Examples");
    assert_eq!(dock.semantics().role, SemanticRole::List);
}

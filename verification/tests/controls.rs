use mio_gui::{
    Button, Checkbox, Icon, IconButton, PixelFormat, PixelImage, Radio, SemanticAction,
    SemanticRole, Swap, Switch, ThemeMode, ThemeSwitcher,
};

fn icon() -> Icon {
    Icon::new(PixelImage::new(1, 1, PixelFormat::Alpha8, vec![255]).unwrap()).unwrap()
}

#[test]
fn buttons_expose_named_activation_and_disabled_semantics() {
    let mut button = Button::new("Save");
    assert_eq!(button.semantics().role, SemanticRole::Button);
    assert_eq!(button.semantics().name.as_deref(), Some("Save"));
    assert!(button.semantics().supports(SemanticAction::Activate));
    button.style.state.disabled = true;
    assert!(button.semantics().state.disabled);

    let icon_button = IconButton::new(icon(), "Open menu");
    assert_eq!(icon_button.semantics().name.as_deref(), Some("Open menu"));
    assert_eq!(icon_button.icon.semantics().name, None);
}

#[test]
fn activation_toggles_only_enabled_checkboxes() {
    let mut checkbox = Checkbox::new("Remember me");
    assert!(checkbox.activate());
    assert!(checkbox.checked);
    checkbox.disabled = true;
    assert!(!checkbox.activate());
    assert!(checkbox.checked);
}

#[test]
fn semantics_expose_checked_disabled_and_activation_state() {
    let mut checkbox = Checkbox::new("Remember me");
    checkbox.checked = true;
    checkbox.disabled = true;
    let semantics = checkbox.semantics();
    assert_eq!(semantics.role, SemanticRole::Checkbox);
    assert_eq!(semantics.name.as_deref(), Some("Remember me"));
    assert_eq!(semantics.state.checked, Some(true));
    assert!(semantics.state.disabled);
    assert!(semantics.supports(SemanticAction::Activate));
    assert!(checkbox.focus_policy().disabled);
}

#[test]
fn activation_selects_once_and_respects_disabled_state() {
    let mut radio = Radio::new("Standard");
    assert!(radio.activate());
    assert!(radio.selected);
    assert!(!radio.activate());
    radio.selected = false;
    radio.disabled = true;
    assert!(!radio.activate());
}

#[test]
fn semantics_expose_radio_selection() {
    let mut radio = Radio::new("Standard");
    radio.selected = true;
    let semantics = radio.semantics();
    assert_eq!(semantics.role, SemanticRole::Radio);
    assert_eq!(semantics.state.checked, Some(true));
    assert_eq!(semantics.name.as_deref(), Some("Standard"));
}

#[test]
fn activation_swaps_content_and_semantic_state() {
    let mut swap = Swap::new("Playback", "Play", "Pause");
    assert_eq!(swap.content(), "Play");
    assert!(swap.activate());
    assert_eq!(swap.content(), "Pause");
    let semantics = swap.semantics();
    assert_eq!(semantics.role, SemanticRole::Switch);
    assert_eq!(semantics.state.checked, Some(true));
    assert!(semantics.supports(SemanticAction::Activate));
}

#[test]
fn disabled_swap_rejects_activation_and_focus() {
    let mut swap = Swap::new("Playback", "Play", "Pause");
    swap.style.state.disabled = true;
    assert!(!swap.activate());
    assert!(swap.focus_policy().disabled);
    assert!(!swap.on);
}

#[test]
fn activation_toggles_only_enabled_switches() {
    let mut switch = Switch::new("Notifications");
    assert!(switch.activate());
    assert!(switch.checked);
    switch.disabled = true;
    assert!(!switch.activate());
    assert!(switch.checked);
}

#[test]
fn semantics_expose_switch_state() {
    let mut switch = Switch::new("Notifications");
    switch.checked = true;
    let semantics = switch.semantics();
    assert_eq!(semantics.role, SemanticRole::Switch);
    assert_eq!(semantics.state.checked, Some(true));
    assert_eq!(semantics.name.as_deref(), Some("Notifications"));
}

#[test]
fn activation_cycles_system_light_dark_and_semantics() {
    let mut switcher = ThemeSwitcher::new("Theme");
    assert_eq!(switcher.activate(), Some(ThemeMode::Light));
    assert_eq!(switcher.activate(), Some(ThemeMode::Dark));
    assert_eq!(switcher.activate(), Some(ThemeMode::System));
    let semantics = switcher.semantics();
    assert_eq!(semantics.role, SemanticRole::Button);
    assert_eq!(semantics.value.as_deref(), Some("System"));
    assert!(semantics.supports(SemanticAction::Activate));
}

#[test]
fn disabled_switcher_rejects_activation() {
    let mut switcher = ThemeSwitcher::new("Theme");
    switcher.style.state.disabled = true;
    assert_eq!(switcher.activate(), None);
    assert!(switcher.focus_policy().disabled);
}

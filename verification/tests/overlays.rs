use mio_gui::{
    ArrowKey, Button, ContextMenu, ContextMenuAction, Drawer, DrawerAction, Dropdown,
    DropdownAction, Key, KeyboardEvent, Menu, MenuAction, MenuError, MenuItem, Modal, ModalAction,
    Popover, PopoverAction, SemanticAction, SemanticRole, Toast, ToastAction, Tooltip,
};

fn context_menu() -> ContextMenu {
    ContextMenu::new(
        Menu::new(
            "Context actions",
            vec![MenuItem::new("Copy"), MenuItem::new("Delete")],
        )
        .unwrap(),
    )
}

fn dropdown() -> Dropdown {
    Dropdown::new(
        Button::new("Actions"),
        Menu::new(
            "Actions",
            vec![MenuItem::new("Open"), MenuItem::new("Delete")],
        )
        .unwrap(),
    )
}

fn items() -> Vec<MenuItem> {
    vec![
        MenuItem::new("Open"),
        MenuItem {
            disabled: true,
            ..MenuItem::new("Rename")
        },
        MenuItem::new("Delete"),
    ]
}

#[test]
fn opening_keyboard_activation_and_dismissal_update_visibility() {
    let mut menu = context_menu();
    assert!(menu.semantics().state.hidden);
    assert_eq!(menu.open_at(), ContextMenuAction::Opened);
    let semantics = menu.semantics();
    assert!(!semantics.state.hidden);
    assert_eq!(semantics.virtual_children().len(), 2);
    assert_eq!(
        menu.handle_key(&KeyboardEvent::pressed(Key::Arrow(ArrowKey::Down))),
        ContextMenuAction::ActiveChanged(1)
    );
    assert_eq!(
        menu.handle_key(&KeyboardEvent::pressed(Key::Enter)),
        ContextMenuAction::Activated(1)
    );
    assert!(!menu.open);
}

#[test]
fn keyboard_opens_delegates_and_closes_after_activation() {
    let mut dropdown = dropdown();
    assert_eq!(
        dropdown.handle_key(&KeyboardEvent::pressed(Key::Arrow(ArrowKey::Down))),
        DropdownAction::Opened
    );
    assert_eq!(
        dropdown.handle_key(&KeyboardEvent::pressed(Key::Arrow(ArrowKey::Down))),
        DropdownAction::ActiveChanged(1)
    );
    assert_eq!(
        dropdown.handle_key(&KeyboardEvent::pressed(Key::Enter)),
        DropdownAction::Activated(1)
    );
    assert!(!dropdown.open);
}

#[test]
fn semantics_expose_trigger_and_expansion() {
    let mut dropdown = dropdown();
    dropdown.open = true;
    let semantics = dropdown.semantics();
    assert_eq!(semantics.name.as_deref(), Some("Actions"));
    assert_eq!(semantics.state.expanded, Some(true));
    assert!(semantics.supports(SemanticAction::ShowMenu));
    assert_eq!(semantics.virtual_children().len(), 2);
    assert_eq!(
        semantics.virtual_children()[0].name.as_deref(),
        Some("Open")
    );
    assert_eq!(semantics.active_virtual_child(), Some(0));
}

#[test]
fn validates_items_and_exposes_item_semantics() {
    assert_eq!(Menu::new("Actions", Vec::new()), Err(MenuError::EmptyItems));
    let menu = Menu::new("Actions", items()).unwrap();
    let semantics = menu.semantics();
    assert_eq!(semantics.role, SemanticRole::Menu);
    assert_eq!(semantics.virtual_children().len(), 3);
    assert_eq!(semantics.virtual_children()[0].role, SemanticRole::MenuItem);
    assert_eq!(semantics.active_virtual_child(), Some(0));
    let disabled = menu.item_semantics(1).unwrap();
    assert_eq!(disabled.role, SemanticRole::MenuItem);
    assert!(disabled.state.disabled);
    assert!(!disabled.supports(SemanticAction::Activate));
}

#[test]
fn keyboard_roving_focus_wraps_and_skips_disabled_items() {
    let mut menu = Menu::new("Actions", items()).unwrap();
    assert_eq!(
        menu.handle_key(&KeyboardEvent::pressed(Key::Arrow(ArrowKey::Down))),
        MenuAction::ActiveChanged(2)
    );
    assert_eq!(
        menu.handle_key(&KeyboardEvent::pressed(Key::Arrow(ArrowKey::Down))),
        MenuAction::ActiveChanged(0)
    );
    assert_eq!(
        menu.handle_key(&KeyboardEvent::pressed(Key::Enter)),
        MenuAction::Activated(0)
    );
    assert_eq!(
        menu.handle_key(&KeyboardEvent::pressed(Key::Escape)),
        MenuAction::Dismissed
    );
}

#[test]
fn modal_visibility_controls_focus_semantics_and_escape() {
    let mut modal = Modal::new("Confirm deletion");
    assert!(modal.semantics().state.hidden);
    assert_eq!(modal.open(), ModalAction::Opened);
    assert_eq!(modal.semantics().role, SemanticRole::Dialog);
    assert!(modal.focus_policy().focusable);
    assert_eq!(
        modal.handle_key(&KeyboardEvent::pressed(Key::Escape)),
        ModalAction::Dismissed
    );
}

#[test]
fn non_dismissible_modal_ignores_escape() {
    let mut modal = Modal::new("Required action");
    modal.open = true;
    modal.dismissible = false;
    assert_eq!(
        modal.handle_key(&KeyboardEvent::pressed(Key::Escape)),
        ModalAction::NoChange
    );
    assert!(modal.open);
}

#[test]
fn drawer_visibility_controls_focus_semantics_and_escape() {
    let mut drawer = Drawer::new("Navigation");
    assert!(drawer.semantics().state.hidden);
    assert_eq!(drawer.open(), DrawerAction::Opened);
    assert_eq!(drawer.semantics().role, SemanticRole::Dialog);
    assert!(drawer.focus_policy().focusable);
    assert_eq!(
        drawer.handle_key(&KeyboardEvent::pressed(Key::Escape)),
        DrawerAction::Dismissed
    );
}

#[test]
fn open_escape_and_dismissal_control_focus_and_semantics() {
    let mut popover = Popover::new("Formatting");
    assert!(popover.semantics().state.hidden);
    assert_eq!(popover.open(), PopoverAction::Opened);
    assert_eq!(popover.semantics().role, SemanticRole::Dialog);
    assert!(popover.focus_policy().focusable);
    assert_eq!(
        popover.handle_key(&KeyboardEvent::pressed(Key::Escape)),
        PopoverAction::Dismissed
    );
    assert!(!popover.focus_policy().focusable);
}

#[test]
fn toast_dismissal_hides_semantics_and_layout() {
    let mut toast = Toast::new("Saved");
    assert_eq!(toast.semantics().role, SemanticRole::Alert);
    assert_eq!(toast.dismiss(), ToastAction::Dismissed);
    assert!(toast.semantics().state.hidden);
    assert_eq!(toast.dismiss(), ToastAction::NoChange);
}

#[test]
fn visibility_controls_semantics_and_paint() {
    let mut tooltip = Tooltip::new("More information");
    assert!(tooltip.semantics().state.hidden);
    assert!(tooltip.show());
    assert_eq!(tooltip.semantics().role, SemanticRole::Text);
    assert!(!tooltip.semantics().state.hidden);
    assert!(!tooltip.show());
    assert!(tooltip.conceal());
}

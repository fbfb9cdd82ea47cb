use mio_gui::{
    adjacent_radio, move_to_line_edge, Direction, HorizontalAlignment, InlineAlignment, radio_tab_stop, select_radio, Checkbox, GroupedRadio, Mask,
    MaskShape, Modal, PixelFormat, PixelImage, Radio, TextInput,
};

fn radio(group: Option<&str>, label: &str, selected: bool, disabled: bool) -> GroupedRadio {
    let mut radio = Radio::new(label);
    radio.selected = selected;
    radio.disabled = disabled;
    GroupedRadio { group: group.map(str::to_owned), radio }
}

fn sizes() -> Vec<GroupedRadio> {
    vec![
        radio(Some("size"), "Small", false, false),
        radio(Some("colour"), "Red", true, false),
        radio(Some("size"), "Medium", false, true),
        radio(Some("size"), "Large", true, false),
        radio(None, "Alone", false, false),
        radio(Some("size"), "Huge", false, false),
    ]
}

fn selected(radios: &[GroupedRadio]) -> Vec<bool> {
    radios.iter().map(|entry| entry.radio.selected).collect()
}

#[test]
fn tab_stop_is_the_selected_radio_else_the_first_enabled() {
    let mut radios = sizes();
    assert_eq!(radio_tab_stop(&radios, "size"), Some(3));
    assert_eq!(radio_tab_stop(&radios, "colour"), Some(1));
    assert_eq!(radio_tab_stop(&radios, "shape"), None);
    radios[3].radio.selected = false;
    assert_eq!(radio_tab_stop(&radios, "size"), Some(0));
    radios[0].radio.disabled = true;
    assert_eq!(radio_tab_stop(&radios, "size"), Some(3));
}

#[test]
fn selecting_a_radio_unselects_the_rest_of_its_group() {
    let mut radios = sizes();
    assert!(select_radio(&mut radios, 0));
    assert_eq!(selected(&radios), vec![true, true, false, false, false, false]);
    assert_eq!(radio_tab_stop(&radios, "size"), Some(0));
}

#[test]
fn selecting_a_disabled_or_missing_radio_is_refused() {
    let mut radios = sizes();
    assert!(!select_radio(&mut radios, 2));
    assert!(!select_radio(&mut radios, 9));
    assert_eq!(selected(&radios), selected(&sizes()));
}

#[test]
fn a_radio_without_a_group_is_activated() {
    let mut radios = sizes();
    assert!(select_radio(&mut radios, 4));
    assert!(radios[4].radio.selected);
    assert!(!select_radio(&mut radios, 4));
    assert_eq!(selected(&radios), vec![false, true, false, true, true, false]);
}

#[test]
fn arrows_wrap_between_the_enabled_radios_of_a_group() {
    let radios = sizes();
    assert_eq!(adjacent_radio(&radios, 0, true), Some(3));
    assert_eq!(adjacent_radio(&radios, 3, true), Some(5));
    assert_eq!(adjacent_radio(&radios, 5, true), Some(0));
    assert_eq!(adjacent_radio(&radios, 0, false), Some(5));
    assert_eq!(adjacent_radio(&radios, 1, true), Some(1));
    assert_eq!(adjacent_radio(&radios, 2, true), None);
    assert_eq!(adjacent_radio(&radios, 4, true), None);
    assert_eq!(adjacent_radio(&radios, 7, true), None);
    let there = adjacent_radio(&radios, 3, false).unwrap();
    assert_eq!(adjacent_radio(&radios, there, true), Some(3));
}

fn field() -> TextInput {
    let mut input = TextInput::with_text("Name", "hello world");
    input.edit.set_caret(8);
    input
}

#[test]
fn caret_moves_to_the_edges_of_its_line() {
    let lines = vec![0..6, 6..11];
    let mut input = field();
    assert!(move_to_line_edge(&lines, &mut input, true, false));
    assert_eq!(input.edit.caret(), 11);
    assert_eq!(input.edit.selection(), 11..11);
    assert!(!move_to_line_edge(&lines, &mut input, true, false));
    let mut input = field();
    assert!(move_to_line_edge(&lines, &mut input, false, false));
    assert_eq!(input.edit.caret(), 6);
    assert!(!move_to_line_edge(&lines, &mut input, false, false));
}

#[test]
fn selecting_to_a_line_edge_keeps_the_anchor() {
    let lines = vec![0..6, 6..11];
    let mut input = field();
    input.edit.set_selection(7..8);
    assert!(move_to_line_edge(&lines, &mut input, true, true));
    assert_eq!(input.edit.selection_anchor(), 7);
    assert_eq!(input.edit.caret(), 11);
}

#[test]
fn line_edges_need_an_enabled_field_with_text_and_lines() {
    let lines = vec![0..6, 6..11];
    let mut input = field();
    input.disabled = true;
    assert!(!move_to_line_edge(&lines, &mut input, true, false));
    assert_eq!(input.edit.caret(), 8);
    let mut input = field();
    assert!(!move_to_line_edge(&[], &mut input, true, false));
    let mut empty = TextInput::new("Name");
    assert!(!move_to_line_edge(&[0..0], &mut empty, true, false));
}

#[test]
fn a_caret_outside_every_line_uses_the_first() {
    let mut input = field();
    assert!(move_to_line_edge(&[0..3], &mut input, true, false));
    assert_eq!(input.edit.caret(), 3);
}

fn shape_visibility(width: u32, height: u32, shape: MaskShape) -> Vec<bool> {
    let mut visible = Vec::new();
    for y in 0..height {
        for x in 0..width {
            let nx = (x as f32 + 0.5) / width as f32 * 2.0 - 1.0;
            let ny = (y as f32 + 0.5) / height as f32 * 2.0 - 1.0;
            visible.push(match shape {
                MaskShape::Circle => nx * nx + ny * ny <= 1.0,
                MaskShape::Rounded => {
                    let corner_x = (nx.abs() - 0.72).max(0.0);
                    let corner_y = (ny.abs() - 0.72).max(0.0);
                    corner_x * corner_x + corner_y * corner_y <= 0.2_f32.powi(2)
                }
            });
        }
    }
    visible
}

#[test]
fn masks_clear_shape_corners_and_preserve_accessible_names() {
    let source = PixelImage::new(8, 8, PixelFormat::Rgba8, vec![255; 8 * 8 * 4]).unwrap();
    for shape in [MaskShape::Circle, MaskShape::Rounded] {
        let visible = shape_visibility(8, 8, shape);
        let mask = Mask::new(source.clone(), shape, &visible).with_alternative_text("Profile");
        assert_eq!(mask.image().source.format(), PixelFormat::Rgba8);
        assert_eq!(mask.image().source.data()[3], 0);
        assert_eq!(mask.semantics().name.as_deref(), Some("Profile"));
    }
}

#[test]
fn masking_a_coverage_image_paints_white_with_its_alpha() {
    let source = PixelImage::new(2, 1, PixelFormat::Alpha8, vec![7, 9]).unwrap();
    let mask = Mask::new(source, MaskShape::Circle, &vec![true, false]);
    assert_eq!(mask.image().source.data(), &[255, 255, 255, 7, 255, 255, 255, 0][..]);
    assert_eq!(mask.shape, MaskShape::Circle);
    assert!(mask.semantics().state.hidden);
}

#[test]
fn setters_change_only_their_field() {
    let mut checkbox = Checkbox::new("Agree");
    checkbox.set_disabled(true);
    assert!(checkbox.is_disabled());
    assert!(!checkbox.is_checked());
    assert_eq!(checkbox.label(), "Agree");
    let mut modal = Modal::new("Confirm");
    modal.set_dismissible(false);
    assert!(!modal.is_dismissible());
}

#[test]
fn inline_alignment_mirrors_with_direction() {
    assert_eq!(InlineAlignment::Start.resolve(Direction::Ltr), HorizontalAlignment::Left);
    assert_eq!(InlineAlignment::Start.resolve(Direction::Rtl), HorizontalAlignment::Right);
    assert_eq!(InlineAlignment::End.resolve(Direction::Ltr), HorizontalAlignment::Right);
    assert_eq!(InlineAlignment::End.resolve(Direction::Rtl), HorizontalAlignment::Left);
    assert_eq!(InlineAlignment::Center.resolve(Direction::Rtl), HorizontalAlignment::Center);
}

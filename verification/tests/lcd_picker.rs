//! Tests for the LCD display-configuration editor and the file-browser
//! decisions.

use rusty_pipes::activate_entry;
use rusty_pipes::compare_names;
use rusty_pipes::cycle_color;
use rusty_pipes::cycle_line_type;
use rusty_pipes::entry_order;
use rusty_pipes::handle_field_edit;
use rusty_pipes::handle_input;
use rusty_pipes::is_allowed_file_name;
use rusty_pipes::LcdColor;
use rusty_pipes::LcdConfigAction;
use rusty_pipes::LcdDisplayConfig;
use rusty_pipes::LcdKey;
use rusty_pipes::LcdLineType;
use rusty_pipes::PickerActivation;
use rusty_pipes::PickerCursor;
use rusty_pipes::PickerEntry;
use rusty_pipes::TuiLcdState;

fn one_display() -> LcdDisplayConfig {
    LcdDisplayConfig {
        id: 1,
        background_color: LcdColor::White,
        line1: LcdLineType::OrganName,
        line2: LcdLineType::SystemStatus,
    }
}

#[test]
fn colors_cycle_both_ways() {
    assert_eq!(cycle_color(&LcdColor::Cyan, true), LcdColor::Off);
    assert_eq!(cycle_color(&LcdColor::Off, false), LcdColor::Cyan);
    assert_eq!(cycle_color(&LcdColor::White, true), LcdColor::Red);
    // a full forward cycle returns to the start
    let mut c = LcdColor::Off;
    for _ in 0..8 {
        c = cycle_color(&c, true);
    }
    assert_eq!(c, LcdColor::Off);
}

#[test]
fn line_types_cycle_both_ways() {
    assert_eq!(cycle_line_type(&LcdLineType::MidiPlayerStatus, true), LcdLineType::Empty);
    assert_eq!(cycle_line_type(&LcdLineType::Empty, false), LcdLineType::MidiPlayerStatus);
    let mut t = LcdLineType::Gain;
    for _ in 0..9 {
        t = cycle_line_type(&t, false);
    }
    assert_eq!(t, LcdLineType::Gain);
}

#[test]
fn confirm_on_add_row_appends_a_display() {
    let mut state = TuiLcdState::new();
    let mut displays: Vec<LcdDisplayConfig> = Vec::new();
    // the cursor starts on the "add new" row of an empty list
    let action = handle_input(LcdKey::Confirm, &mut state, &mut displays);
    assert_eq!(action, LcdConfigAction::Stay);
    assert_eq!(displays.len(), 1);
    assert_eq!(displays[0].id, 1);
    assert_eq!(displays[0].background_color, LcdColor::White);
    assert_eq!(displays[0].line1, LcdLineType::OrganName);
    assert_eq!(displays[0].line2, LcdLineType::SystemStatus);
    let action2 = handle_input(LcdKey::Confirm, &mut state, &mut displays);
    assert_eq!(action2, LcdConfigAction::Stay);
    // the cursor was on row 0, so this entered edit mode instead
    assert_eq!(displays.len(), 1);
    assert_eq!(state.editing_field, Some((0, 0)));
}

#[test]
fn back_leaves_edit_mode_before_the_screen() {
    let mut state = TuiLcdState::new();
    let mut displays = vec![one_display()];
    handle_input(LcdKey::Confirm, &mut state, &mut displays);
    assert!(state.editing_field.is_some());
    assert_eq!(handle_input(LcdKey::Back, &mut state, &mut displays), LcdConfigAction::Stay);
    assert!(state.editing_field.is_none());
    assert_eq!(handle_input(LcdKey::Back, &mut state, &mut displays), LcdConfigAction::Back);
}

#[test]
fn id_edits_clamp_to_the_hardware_range() {
    let mut state = TuiLcdState::new();
    let mut displays = vec![one_display()];
    state.editing_field = Some((0, 0));
    handle_field_edit(&mut state, &mut displays, false);
    assert_eq!(displays[0].id, 1); // already at the bottom
    handle_field_edit(&mut state, &mut displays, true);
    assert_eq!(displays[0].id, 2);
    displays[0].id = 127;
    handle_field_edit(&mut state, &mut displays, true);
    assert_eq!(displays[0].id, 127); // clamped at the top
}

#[test]
fn field_index_past_the_last_column_edits_nothing() {
    let mut state = TuiLcdState::new();
    let mut displays = vec![one_display()];
    state.editing_field = Some((0, 5));
    handle_field_edit(&mut state, &mut displays, true);
    assert_eq!(displays[0], one_display());
    assert_eq!(state.editing_field, Some((0, 5)));
}

#[test]
fn field_edits_cycle_the_selected_column() {
    let mut state = TuiLcdState::new();
    let mut displays = vec![one_display()];
    state.editing_field = Some((0, 1));
    handle_field_edit(&mut state, &mut displays, true);
    assert_eq!(displays[0].background_color, LcdColor::Red);
    state.editing_field = Some((0, 2));
    handle_field_edit(&mut state, &mut displays, true);
    assert_eq!(displays[0].line1, LcdLineType::SystemStatus);
    state.editing_field = Some((0, 3));
    handle_field_edit(&mut state, &mut displays, false);
    assert_eq!(displays[0].line2, LcdLineType::OrganName);
}

#[test]
fn delete_removes_and_keeps_the_cursor_on_a_row() {
    let mut state = TuiLcdState::new();
    let mut displays = vec![one_display(), one_display(), one_display()];
    state.selected = 2;
    handle_input(LcdKey::Delete, &mut state, &mut displays);
    assert_eq!(displays.len(), 2);
    assert_eq!(state.selected, 1);
    handle_input(LcdKey::Delete, &mut state, &mut displays);
    assert_eq!(displays.len(), 1);
    assert_eq!(state.selected, 0);
    // deleting in the middle keeps the cursor where it was
    let mut mid = TuiLcdState::new();
    let mut three = vec![one_display(), one_display(), one_display()];
    mid.selected = 1;
    handle_input(LcdKey::Delete, &mut mid, &mut three);
    assert_eq!(three.len(), 2);
    assert_eq!(mid.selected, 1);
}

#[test]
fn lcd_navigation_wraps_over_rows() {
    let mut state = TuiLcdState::new();
    let mut displays = vec![one_display(), one_display()];
    // three rows: two displays plus "add new"
    handle_input(LcdKey::Up, &mut state, &mut displays);
    assert_eq!(state.selected, 2);
    handle_input(LcdKey::Down, &mut state, &mut displays);
    assert_eq!(state.selected, 0);
    handle_input(LcdKey::Down, &mut state, &mut displays);
    assert_eq!(state.selected, 1);
}

#[test]
fn edit_cursor_moves_between_fields() {
    let mut state = TuiLcdState::new();
    let mut displays = vec![one_display()];
    state.editing_field = Some((0, 0));
    handle_input(LcdKey::Left, &mut state, &mut displays);
    assert_eq!(state.editing_field, Some((0, 3)));
    handle_input(LcdKey::Right, &mut state, &mut displays);
    assert_eq!(state.editing_field, Some((0, 0)));
    handle_input(LcdKey::Right, &mut state, &mut displays);
    assert_eq!(state.editing_field, Some((0, 1)));
}

#[test]
fn browser_orders_directories_first_then_names() {
    let dir = PickerEntry { is_dir: true, name: b"zeta".to_vec() };
    let file = PickerEntry { is_dir: false, name: b"alpha.organ".to_vec() };
    assert_eq!(entry_order(&dir, &file), -1);
    assert_eq!(entry_order(&file, &dir), 1);
    let a = PickerEntry { is_dir: false, name: b"abc".to_vec() };
    let b = PickerEntry { is_dir: false, name: b"abd".to_vec() };
    assert_eq!(entry_order(&a, &b), -1);
    assert_eq!(entry_order(&b, &a), 1);
    assert_eq!(entry_order(&a, &a), 0);
}

#[test]
fn name_comparison_is_lexicographic() {
    assert_eq!(compare_names(&b"abc".to_vec(), &b"abcd".to_vec()), -1);
    assert_eq!(compare_names(&b"abcd".to_vec(), &b"abc".to_vec()), 1);
    assert_eq!(compare_names(&b"".to_vec(), &b"a".to_vec()), -1);
    assert_eq!(compare_names(&b"b".to_vec(), &b"a".to_vec()), 1);
    assert_eq!(compare_names(&b"same".to_vec(), &b"same".to_vec()), 0);
}

#[test]
fn instrument_extensions_are_recognized() {
    assert!(is_allowed_file_name(b"dir/chapel.organ"));
    assert!(is_allowed_file_name(b"dir/chapel.Organ_Hauptwerk_xml"));
    assert!(!is_allowed_file_name(b"dir/chapel.wav"));
    assert!(!is_allowed_file_name(b"dir/organ")); // no extension at all
    assert!(!is_allowed_file_name(b"dir/.organ")); // a leading dot is no extension
    assert!(!is_allowed_file_name(b"dir/chapel.ORGAN")); // case matters
}

#[test]
fn browser_cursor_wraps_and_handles_empty_lists() {
    let mut empty = PickerCursor::new(0);
    assert_eq!(empty.selected, None);
    empty.next_item();
    assert_eq!(empty.selected, None);
    let mut cursor = PickerCursor::new(3);
    assert_eq!(cursor.selected, Some(0));
    cursor.prev_item();
    assert_eq!(cursor.selected, Some(2));
    cursor.next_item();
    assert_eq!(cursor.selected, Some(0));
    cursor.next_item();
    assert_eq!(cursor.selected, Some(1));
}

#[test]
fn activating_entries_descends_chooses_or_ignores() {
    let dir = PickerEntry { is_dir: true, name: b"samples".to_vec() };
    let organ = PickerEntry { is_dir: false, name: b"chapel.organ".to_vec() };
    let other = PickerEntry { is_dir: false, name: b"notes.txt".to_vec() };
    assert_eq!(activate_entry(&dir), PickerActivation::EnterDirectory);
    assert_eq!(activate_entry(&organ), PickerActivation::ChooseFile);
    assert_eq!(activate_entry(&other), PickerActivation::Ignore);
}

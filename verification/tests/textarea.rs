use theframework::textarea::{
    apply_key_code, drag_scroll, drag_text, on_text_area_event, press_target, press_text,
    wheel_scroll, wheel_step, TheKeyCode, ThePressTarget, TheTextAreaEvent, TheTextAreaFlags,
};
use theframework::widget::{TheDim, TheEvent, TheUi, TheValue, TheWidgetId};
use theframework::textedit::{TheCursor, TheTextEditState};
use theframework::widget::Vec2i;

fn state(rows: &[&str]) -> TheTextEditState {
    let mut s = TheTextEditState::default();
    s.rows = rows.iter().map(|r| r.to_string()).collect();
    s
}

#[test]
fn press_places_the_cursor() {
    let mut s = state(&["abc", "de"]);
    assert_eq!(press_text(&mut s, TheCursor::new(1, 1), false), 5);
    assert_eq!((s.cursor.row, s.cursor.column), (1, 1));
    assert!(s.selection.is_none());
}

#[test]
fn press_clears_a_selection() {
    let mut s = state(&["abc", "de"]);
    s.select(0, 2);
    press_text(&mut s, TheCursor::new(0, 1), false);
    assert!(s.selection.is_none());
}

#[test]
fn double_press_on_a_selection_selects_the_row() {
    let mut s = state(&["abc", "de"]);
    s.select(0, 2);
    press_text(&mut s, TheCursor::new(1, 1), true);
    assert_eq!((s.selection.start, s.selection.end), (4, 6));
}

#[test]
fn double_press_on_a_selected_row_clears_it() {
    let mut s = state(&["abc", "de"]);
    s.select(0, 4);
    press_text(&mut s, TheCursor::new(0, 1), true);
    assert!(s.selection.is_none());
}

#[test]
fn double_press_selects_a_word() {
    let mut s = state(&["foo bar"]);
    press_text(&mut s, TheCursor::new(0, 1), true);
    assert_eq!((s.selection.start, s.selection.end), (0, 3));
}

#[test]
fn drag_selects_from_the_press() {
    let mut s = state(&["abcdefg"]);
    let start = press_text(&mut s, TheCursor::new(0, 1), false);
    drag_text(&mut s, TheCursor::new(0, 5), start);
    assert_eq!((s.selection.start, s.selection.end), (1, 5));
    drag_text(&mut s, TheCursor::new(0, 1), start);
    assert!(s.selection.is_none());
    drag_text(&mut s, TheCursor::new(0, 0), start);
    assert_eq!((s.selection.start, s.selection.end), (0, 1));
    assert_eq!(s.cursor.column, 0);
}

#[test]
fn keys_edit_the_text() {
    let mut s = state(&["abc"]);
    s.set_cursor(TheCursor::new(0, 2));
    let r = apply_key_code(&mut s, TheKeyCode::Delete, 4);
    assert!(r.edited && !r.moved);
    assert_eq!(s.rows, vec!["ac"]);
    let r = apply_key_code(&mut s, TheKeyCode::Return, 4);
    assert!(r.edited);
    assert_eq!(s.rows, vec!["a", "c"]);
    assert_eq!((s.cursor.row, s.cursor.column), (1, 0));
    apply_key_code(&mut s, TheKeyCode::Tab, 2);
    assert_eq!(s.rows, vec!["a", "  c"]);
    let mut s = state(&[""]);
    let r = apply_key_code(&mut s, TheKeyCode::Delete, 4);
    assert!(!r.edited);
}

#[test]
fn keys_move_the_cursor() {
    let mut s = state(&["abc", "de"]);
    assert!(apply_key_code(&mut s, TheKeyCode::Down, 4).moved);
    assert_eq!((s.cursor.row, s.cursor.column), (1, 0));
    assert!(!apply_key_code(&mut s, TheKeyCode::Down, 4).moved);
    assert!(apply_key_code(&mut s, TheKeyCode::Right, 4).moved);
    assert!(apply_key_code(&mut s, TheKeyCode::Up, 4).moved);
    assert_eq!((s.cursor.row, s.cursor.column), (0, 1));
    assert!(apply_key_code(&mut s, TheKeyCode::Left, 4).moved);
    assert!(!apply_key_code(&mut s, TheKeyCode::Left, 4).moved);
    let r = apply_key_code(&mut s, TheKeyCode::Escape, 4);
    assert!(!r.edited && !r.moved);
    assert_eq!(s.rows, vec!["abc", "de"]);
}

#[test]
fn drag_outside_scrolls() {
    assert_eq!(drag_scroll(Vec2i::new(-16, 5), 100, 50, false), Some(Vec2i::new(-4, 0)));
    assert_eq!(drag_scroll(Vec2i::new(10, 10), 100, 50, false), None);
    assert_eq!(drag_scroll(Vec2i::new(130, 60), 100, 50, true), Some(Vec2i::new(3, 1)));
    assert_eq!(drag_scroll(Vec2i::new(-9, 0), 100, 50, false), Some(Vec2i::new(-2, 0)));
}

#[test]
fn wheel_takes_the_larger_part() {
    assert_eq!(wheel_step(Vec2i::new(3, -10)), -2);
    assert_eq!(wheel_step(Vec2i::new(9, 1)), 2);
    assert_eq!(wheel_step(Vec2i::new(4, -4)), -1);
}

#[test]
fn presses_land_on_bars_or_text() {
    let text = TheDim::new(0, 0, 90, 90);
    let hbar = TheDim::new(0, 90, 90, 10);
    let vbar = TheDim::new(90, 0, 10, 90);
    assert_eq!(press_target(Vec2i::new(5, 95), true, hbar, true, vbar, text), ThePressTarget::HorizontalScrollbar);
    assert_eq!(press_target(Vec2i::new(5, 95), false, hbar, true, vbar, text), ThePressTarget::Nothing);
    assert_eq!(press_target(Vec2i::new(95, 5), true, hbar, true, vbar, text), ThePressTarget::VerticalScrollbar);
    assert_eq!(press_target(Vec2i::new(5, 5), true, hbar, true, vbar, text), ThePressTarget::Text);
}

#[test]
fn wheel_scrolls_along_the_bar_under_the_pointer() {
    let hbar = TheDim::new(0, 90, 90, 10);
    let vbar = TheDim::new(90, 0, 10, 90);
    assert_eq!(wheel_scroll(Vec2i::new(5, 95), hbar, vbar, Vec2i::new(3, -10)), Vec2i::new(-2, 0));
    assert_eq!(wheel_scroll(Vec2i::new(95, 5), hbar, vbar, Vec2i::new(3, -10)), Vec2i::new(0, -2));
    assert_eq!(wheel_scroll(Vec2i::new(5, 5), hbar, vbar, Vec2i::new(9, -10)), Vec2i::new(2, -2));
}

fn flags(continuous: bool) -> TheTextAreaFlags {
    TheTextAreaFlags {
        is_disabled: false,
        continuous,
        modified_since_last_return: false,
        modified_since_last_tick: false,
        is_dirty: false,
        drag_start_index: 0,
        is_hscrollbar_clicked: false,
        is_vscrollbar_clicked: false,
        hover_coord: Vec2i::new(0, 0),
    }
}

fn press(target: ThePressTarget, row: usize, column: usize) -> TheTextAreaEvent {
    TheTextAreaEvent::MouseDown { target, cursor: TheCursor::new(row, column), double_click: false }
}

#[test]
fn area_press_takes_focus_and_places_the_cursor() {
    let id = TheWidgetId::new("area".to_string());
    let mut ui = TheUi::new();
    let mut s = state(&["abc", "de"]);
    let mut f = flags(false);
    let r = on_text_area_event(&mut s, &mut f, &id, press(ThePressTarget::Text, 1, 1), 4, &mut ui);
    assert!(r.redraw);
    assert_eq!(r.forward_to, ThePressTarget::Nothing);
    assert_eq!((s.cursor.row, s.cursor.column), (1, 1));
    assert_eq!(f.drag_start_index, 5);
    assert!(f.is_dirty);
    assert_eq!(ui.focus.map(|i| i.uuid), Some(id.uuid));
}

#[test]
fn area_press_on_empty_text_only_takes_focus() {
    let id = TheWidgetId::new("area".to_string());
    let mut ui = TheUi::new();
    let mut s = state(&[""]);
    let mut f = flags(false);
    let r = on_text_area_event(&mut s, &mut f, &id, press(ThePressTarget::HorizontalScrollbar, 0, 0), 4, &mut ui);
    assert!(r.redraw);
    assert_eq!(r.forward_to, ThePressTarget::Nothing);
    assert!(!f.is_hscrollbar_clicked);
    assert_eq!(ui.focus.map(|i| i.uuid), Some(id.uuid));
}

#[test]
fn area_scrollbar_press_and_release() {
    let id = TheWidgetId::new("area".to_string());
    let mut ui = TheUi::new();
    let mut s = state(&["abc"]);
    let mut f = flags(false);
    let r = on_text_area_event(&mut s, &mut f, &id, press(ThePressTarget::VerticalScrollbar, 0, 0), 4, &mut ui);
    assert_eq!(r.forward_to, ThePressTarget::VerticalScrollbar);
    assert!(f.is_vscrollbar_clicked);
    let r = on_text_area_event(&mut s, &mut f, &id, TheTextAreaEvent::MouseUp, 4, &mut ui);
    assert!(r.redraw);
    assert_eq!(r.forward_to, ThePressTarget::VerticalScrollbar);
    assert!(!f.is_vscrollbar_clicked);
    assert_eq!(f.drag_start_index, 0);
}

#[test]
fn area_typing_reports_when_continuous() {
    let id = TheWidgetId::new("area".to_string());
    let mut ui = TheUi::new();
    let mut s = state(&["ab"]);
    s.set_cursor(TheCursor::new(0, 2));
    let mut f = flags(true);
    let r = on_text_area_event(&mut s, &mut f, &id, TheTextAreaEvent::KeyDown('c'), 4, &mut ui);
    assert!(r.redraw);
    assert!(f.modified_since_last_tick);
    assert_eq!(s.to_text(), "abc");
    assert_eq!(ui.events.len(), 1);
    match &ui.events[0] {
        TheEvent::ValueChanged(i, TheValue::Text(t)) => {
            assert_eq!(i.uuid, id.uuid);
            assert_eq!(t, "abc");
        },
        _ => panic!("expected a value change"),
    }
    let mut f = flags(false);
    on_text_area_event(&mut s, &mut f, &id, TheTextAreaEvent::KeyDown('d'), 4, &mut ui);
    assert_eq!(ui.events.len(), 1);
}

#[test]
fn area_lost_focus_reports_pending_changes() {
    let id = TheWidgetId::new("area".to_string());
    let mut ui = TheUi::new();
    let mut s = state(&["ab"]);
    let mut f = flags(false);
    on_text_area_event(&mut s, &mut f, &id, TheTextAreaEvent::LostFocus, 4, &mut ui);
    assert!(ui.events.is_empty());
    f.modified_since_last_return = true;
    on_text_area_event(&mut s, &mut f, &id, TheTextAreaEvent::LostFocus, 4, &mut ui);
    assert_eq!(ui.events.len(), 1);
    assert!(!f.modified_since_last_return);
}

#[test]
fn area_keys_edit_and_move() {
    let id = TheWidgetId::new("area".to_string());
    let mut ui = TheUi::new();
    let mut s = state(&["ab"]);
    s.set_cursor(TheCursor::new(0, 1));
    let mut f = flags(false);
    let r = on_text_area_event(&mut s, &mut f, &id, TheTextAreaEvent::KeyCodeDown(TheKeyCode::Left), 4, &mut ui);
    assert!(r.redraw && r.scroll_to_cursor);
    assert!(!f.modified_since_last_tick);
    let r = on_text_area_event(&mut s, &mut f, &id, TheTextAreaEvent::KeyCodeDown(TheKeyCode::Left), 4, &mut ui);
    assert!(!r.redraw && !r.scroll_to_cursor);
    let r = on_text_area_event(&mut s, &mut f, &id, TheTextAreaEvent::KeyCodeDown(TheKeyCode::Return), 4, &mut ui);
    assert!(r.redraw && !r.scroll_to_cursor);
    assert!(f.modified_since_last_tick);
    assert_eq!(s.rows, vec!["", "ab"]);
}

#[test]
fn area_hover_takes_the_hover_once() {
    let id = TheWidgetId::new("area".to_string());
    let mut ui = TheUi::new();
    let mut s = state(&["ab"]);
    let mut f = flags(false);
    let r = on_text_area_event(&mut s, &mut f, &id, TheTextAreaEvent::Hover(Vec2i::new(3, 4)), 4, &mut ui);
    assert!(r.redraw);
    assert_eq!(ui.hover.as_ref().map(|i| i.uuid), Some(id.uuid));
    assert_eq!(f.hover_coord, Vec2i::new(3, 4));
    let r = on_text_area_event(&mut s, &mut f, &id, TheTextAreaEvent::Hover(Vec2i::new(5, 4)), 4, &mut ui);
    assert!(!r.redraw);
}

#[test]
fn disabled_area_ignores_events() {
    let id = TheWidgetId::new("area".to_string());
    let mut ui = TheUi::new();
    let mut s = state(&["ab"]);
    let mut f = flags(true);
    f.is_disabled = true;
    let r = on_text_area_event(&mut s, &mut f, &id, TheTextAreaEvent::KeyDown('x'), 4, &mut ui);
    assert!(!r.redraw);
    assert_eq!(s.to_text(), "ab");
    assert!(ui.events.is_empty());
    assert!(ui.focus.is_none());
}

#[test]
fn area_drag_selects_or_passes_on() {
    let id = TheWidgetId::new("area".to_string());
    let mut ui = TheUi::new();
    let mut s = state(&["abc", "de"]);
    let mut f = flags(false);
    on_text_area_event(&mut s, &mut f, &id, press(ThePressTarget::Text, 0, 1), 4, &mut ui);
    let drag = TheTextAreaEvent::MouseDragged { cursor: TheCursor::new(1, 1) };
    let r = on_text_area_event(&mut s, &mut f, &id, drag, 4, &mut ui);
    assert!(r.redraw);
    assert_eq!((s.selection.start, s.selection.end), (1, 5));
    f.is_hscrollbar_clicked = true;
    let r = on_text_area_event(&mut s, &mut f, &id, drag, 4, &mut ui);
    assert!(!r.redraw);
    assert_eq!(r.forward_to, ThePressTarget::HorizontalScrollbar);
}

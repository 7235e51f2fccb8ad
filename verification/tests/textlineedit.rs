use theframework::textarea::TheKeyCode;
use theframework::textedit::{TheCursor, TheTextEditState};
use theframework::widget::{TheUi, TheWidgetId};
use theframework::widgets::textlineedit::{on_text_line_event, TheTextLineEvent, TheTextLineFlags};

fn line(text: &str) -> TheTextEditState {
    let mut s = TheTextEditState::default();
    s.rows = vec![text.to_string()];
    s
}

fn flags(is_range: bool, continuous: bool) -> TheTextLineFlags {
    TheTextLineFlags {
        is_disabled: false,
        continuous,
        is_range,
        modified_since_last_return: false,
        modified_since_last_tick: false,
        is_dirty: false,
        drag_start_index: 0,
    }
}

#[test]
fn line_press_on_a_range_selects_the_row() {
    let id = TheWidgetId::new("line".to_string());
    let mut ui = TheUi::new();
    let mut s = line("12.5");
    let mut f = flags(true, false);
    let original = String::new();
    let press = TheTextLineEvent::MouseDown { cursor: TheCursor::new(0, 2), double_click: false };
    let r = on_text_line_event(&mut s, &mut f, &id, &original, press, &mut ui);
    assert!(r.redraw && r.keep_original);
    assert_eq!((s.selection.start, s.selection.end), (0, 4));
    assert_eq!(f.drag_start_index, 2);
    assert_eq!(ui.focus.as_ref().map(|i| i.uuid), Some(id.uuid));
    // a second press clears the selection
    let r = on_text_line_event(&mut s, &mut f, &id, &original, press, &mut ui);
    assert!(r.redraw);
    assert!(s.selection.is_none());
}

#[test]
fn line_drag_selects_or_slides() {
    let id = TheWidgetId::new("line".to_string());
    let mut ui = TheUi::new();
    let mut s = line("abcdef");
    let mut f = flags(false, false);
    let original = String::new();
    let press = TheTextLineEvent::MouseDown { cursor: TheCursor::new(0, 1), double_click: false };
    on_text_line_event(&mut s, &mut f, &id, &original, press, &mut ui);
    let drag = TheTextLineEvent::MouseDragged { cursor: TheCursor::new(0, 4) };
    let r = on_text_line_event(&mut s, &mut f, &id, &original, drag, &mut ui);
    assert!(r.redraw && !r.slide);
    assert_eq!((s.selection.start, s.selection.end), (1, 4));
    let mut f = flags(true, false);
    let r = on_text_line_event(&mut s, &mut f, &id, &original, drag, &mut ui);
    assert!(r.slide);
}

#[test]
fn line_release_reports_a_changed_range() {
    let id = TheWidgetId::new("line".to_string());
    let mut ui = TheUi::new();
    let mut s = line("7");
    let mut f = flags(true, false);
    f.drag_start_index = 1;
    let r = on_text_line_event(&mut s, &mut f, &id, &"5".to_string(), TheTextLineEvent::MouseUp, &mut ui);
    assert!(r.report_range);
    assert_eq!(f.drag_start_index, 0);
    let r = on_text_line_event(&mut s, &mut f, &id, &"7".to_string(), TheTextLineEvent::MouseUp, &mut ui);
    assert!(!r.report_range);
    let mut f = flags(true, true);
    let r = on_text_line_event(&mut s, &mut f, &id, &"5".to_string(), TheTextLineEvent::MouseUp, &mut ui);
    assert!(!r.report_range);
}

#[test]
fn line_typing_and_keys() {
    let id = TheWidgetId::new("line".to_string());
    let mut ui = TheUi::new();
    let mut s = line("ab");
    s.set_cursor(TheCursor::new(0, 2));
    let mut f = flags(false, true);
    let original = String::new();
    let r = on_text_line_event(&mut s, &mut f, &id, &original, TheTextLineEvent::KeyDown('c'), &mut ui);
    assert!(r.redraw && r.report);
    assert_eq!(s.to_text(), "abc");
    assert!(f.modified_since_last_tick);
    let r = on_text_line_event(&mut s, &mut f, &id, &original, TheTextLineEvent::KeyCodeDown(TheKeyCode::Left), &mut ui);
    assert!(r.scroll_to_cursor && r.report);
    let r = on_text_line_event(&mut s, &mut f, &id, &original, TheTextLineEvent::KeyCodeDown(TheKeyCode::Delete), &mut ui);
    assert!(r.redraw);
    assert_eq!(s.to_text(), "ac");
    // a return in a line inserts nothing
    let r = on_text_line_event(&mut s, &mut f, &id, &original, TheTextLineEvent::KeyCodeDown(TheKeyCode::Return), &mut ui);
    assert!(!r.redraw && !r.report_first && r.report);
    assert_eq!(s.rows, vec!["ac"]);
}

#[test]
fn line_return_reports_pending_changes() {
    let id = TheWidgetId::new("line".to_string());
    let mut ui = TheUi::new();
    ui.focus = Some(id.clone_id());
    let mut s = line("ab");
    let mut f = flags(true, false);
    f.modified_since_last_return = true;
    let original = String::new();
    let r = on_text_line_event(&mut s, &mut f, &id, &original, TheTextLineEvent::KeyCodeDown(TheKeyCode::Return), &mut ui);
    assert!(r.redraw && r.report_first && r.keep_original && !r.report);
    assert!(!f.modified_since_last_return);
    assert!(ui.focus.is_none());
    let r = on_text_line_event(&mut s, &mut f, &id, &original, TheTextLineEvent::LostFocus, &mut ui);
    assert!(!r.report);
}

#[test]
fn line_hover_and_disabled() {
    let id = TheWidgetId::new("line".to_string());
    let mut ui = TheUi::new();
    let mut s = line("ab");
    let mut f = flags(false, false);
    let original = String::new();
    let r = on_text_line_event(&mut s, &mut f, &id, &original, TheTextLineEvent::Hover, &mut ui);
    assert!(!r.redraw);
    assert_eq!(ui.hover.as_ref().map(|i| i.uuid), Some(id.uuid));
    f.is_disabled = true;
    let r = on_text_line_event(&mut s, &mut f, &id, &original, TheTextLineEvent::KeyDown('x'), &mut ui);
    assert!(!r.redraw && !r.report);
    assert_eq!(s.to_text(), "ab");
}

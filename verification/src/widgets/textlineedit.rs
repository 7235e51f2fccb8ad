//! What a line of text being edited holds, and what it decides on each event.
use vstd::prelude::*;

use crate::model::{join_rows, row_end, row_start};
use crate::textarea::{
    after_drag, after_key, after_press, apply_key_code, drag_text, key_applicable, pressable,
    press_text, text_is_empty, TheKeyCode,
};
use crate::textedit::{TheCursor, TheSelection, TheTextEditState};
use crate::textops::{after_insert_char, char_insertable, TextView};
use crate::model::text_fits;
use crate::widget::{same_widget, TheUi, TheWidgetId};

verus! {

/// The kind of content a text line edit takes.
#[derive(Clone, Copy, Debug, PartialEq, Eq, Structural)]
pub enum TheTextLineEditContentType {
    Unknown,
    Text,
    Float,
    Int,
}

/// What a text line edit keeps between events besides its text: whether it is disabled,
/// whether it reports its value on every change, whether it edits a number in a range (and
/// then acts as a slider when dragged), whether its text changed since it last reported its
/// value and since the last frame, whether it needs a redraw, and the cursor index of the
/// last press.
#[derive(Clone, Copy, Debug, PartialEq, Eq, Structural)]
pub struct TheTextLineFlags {
    pub is_disabled: bool,
    pub continuous: bool,
    pub is_range: bool,
    pub modified_since_last_return: bool,
    pub modified_since_last_tick: bool,
    pub is_dirty: bool,
    pub drag_start_index: usize,
}

/// An event as a text line edit takes it, once the caller has found what it needs: the
/// cursor under the pointer (after scrolling a drag outside the line), and whether a press
/// is a double click (at the place of the last press, within half a second of it); the
/// character of a typed key; the code of a pressed key.
#[derive(Clone, Copy, Debug)]
pub enum TheTextLineEvent {
    MouseDown { cursor: TheCursor, double_click: bool },
    MouseDragged { cursor: TheCursor },
    MouseUp,
    KeyDown(char),
    KeyCodeDown(TheKeyCode),
    LostFocus,
    Hover,
}

/// What a text line edit asks of its caller after an event, in this order: a redraw;
/// scrolling the text so that the cursor shows; moving a range's slider to the pointer;
/// reporting the value; keeping the text as the original one (from which a range's value
/// falls back, and against which a release compares); reporting the value again; reporting
/// the range's value when the text parses as one.
#[derive(Clone, Copy, Debug, PartialEq, Eq, Structural)]
pub struct TheTextLineReply {
    pub redraw: bool,
    pub scroll_to_cursor: bool,
    pub slide: bool,
    pub report_first: bool,
    pub keep_original: bool,
    pub report: bool,
    pub report_range: bool,
}

/// The keys that edit or move the cursor in a line.
pub open spec fn line_key(k: TheKeyCode) -> bool {
    k == TheKeyCode::Delete || k == TheKeyCode::Up || k == TheKeyCode::Down || k
        == TheKeyCode::Left || k == TheKeyCode::Right
}

/// What an event needs of the text: a press on a text that is not empty what a press needs
/// (a row to select, for a range without a selection); a drag outside a range on such a text
/// a cursor inside it; a typed character what its insertion needs; a key what it needs.
pub open spec fn line_event_applicable(v: TextView, f: TheTextLineFlags, event: TheTextLineEvent) -> bool {
    !f.is_disabled ==> match event {
        TheTextLineEvent::MouseDown { cursor, double_click } => !text_is_empty(v.rows) ==> if f.is_range
            && v.selection.start == v.selection.end {
            &&& cursor.row < v.rows.len()
            &&& text_fits(v.rows)
            &&& row_start(v.rows, cursor.row as int) + cursor.column <= usize::MAX
        } else {
            pressable(v, cursor, double_click)
        },
        TheTextLineEvent::MouseDragged { cursor } => !f.is_range && !text_is_empty(v.rows) ==> {
            &&& cursor.row < v.rows.len()
            &&& text_fits(v.rows)
            &&& row_start(v.rows, cursor.row as int) + cursor.column <= usize::MAX
        },
        TheTextLineEvent::KeyDown(c) => char_insertable(v, c),
        TheTextLineEvent::KeyCodeDown(k) => line_key(k) ==> key_applicable(v, k, 0),
        _ => true,
    }
}

/// The text, flags and reply after an event, where `differs` tells whether the text differs
/// from the original one: a disabled line ignores every event. A press marks the line for a
/// redraw and keeps the text as the original one for a range; unless the text is empty it
/// places the cursor and remembers its index, and selects the cursor's row for a range
/// without a selection, or else acts as `after_press` says. A drag marks the line for a
/// redraw, and moves a range's slider, or selects as `after_drag` says unless the text is
/// empty. A release forgets the press, and reports a changed range's value unless the line
/// reports continuously. A typed character goes in as `after_insert_char` puts it and marks
/// the text changed. A return with a change not yet reported reports the value, keeps the
/// text as the original one for a range, and notes that nothing is left unreported; the
/// other keys of a line act as `after_key` says, an edit marking the text changed and a
/// cursor move asking to scroll to the cursor. A typed character and every key code report
/// the value once more when the line reports continuously. A lost focus with a change not
/// yet reported reports the value.
pub open spec fn after_line_event(
    v: TextView,
    f: TheTextLineFlags,
    event: TheTextLineEvent,
    differs: bool,
) -> (TextView, TheTextLineFlags, TheTextLineReply) {
    let none = TheTextLineReply {
        redraw: false,
        scroll_to_cursor: false,
        slide: false,
        report_first: false,
        keep_original: false,
        report: false,
        report_range: false,
    };
    if f.is_disabled {
        (v, f, none)
    } else {
        match event {
            TheTextLineEvent::MouseDown { cursor, double_click } => {
                let reply = TheTextLineReply { redraw: true, keep_original: f.is_range, ..none };
                if text_is_empty(v.rows) {
                    (v, TheTextLineFlags { is_dirty: true, ..f }, reply)
                } else {
                    let index = row_start(v.rows, cursor.row as int) + cursor.column;
                    let w = if f.is_range && v.selection.start == v.selection.end {
                        TextView {
                            cursor,
                            selection: TheSelection {
                                start: row_start(v.rows, cursor.row as int) as usize,
                                end: row_end(v.rows, cursor.row as int) as usize,
                            },
                            ..v
                        }
                    } else {
                        after_press(v, cursor, double_click)
                    };
                    (w, TheTextLineFlags { is_dirty: true, drag_start_index: index as usize, ..f }, reply)
                }
            },
            TheTextLineEvent::MouseDragged { cursor } => {
                let f2 = TheTextLineFlags { is_dirty: true, ..f };
                let reply = TheTextLineReply { redraw: true, slide: f.is_range, ..none };
                if !f.is_range && !text_is_empty(v.rows) {
                    (after_drag(v, cursor, f.drag_start_index as int), f2, reply)
                } else {
                    (v, f2, reply)
                }
            },
            TheTextLineEvent::MouseUp => (
                v,
                TheTextLineFlags { drag_start_index: 0, ..f },
                TheTextLineReply { report_range: f.is_range && !f.continuous && differs, ..none },
            ),
            TheTextLineEvent::KeyDown(c) => (
                after_insert_char(v, c),
                TheTextLineFlags { modified_since_last_tick: true, is_dirty: true, ..f },
                TheTextLineReply { redraw: true, report: f.continuous, ..none },
            ),
            TheTextLineEvent::KeyCodeDown(k) => {
                if k == TheKeyCode::Return {
                    if f.modified_since_last_return {
                        (
                            v,
                            TheTextLineFlags { is_dirty: true, modified_since_last_return: false, ..f },
                            TheTextLineReply {
                                redraw: true,
                                report_first: true,
                                keep_original: f.is_range,
                                report: f.continuous,
                                ..none
                            },
                        )
                    } else {
                        (v, f, TheTextLineReply { report: f.continuous, ..none })
                    }
                } else if line_key(k) {
                    let (w, r) = after_key(v, k, 0);
                    (
                        w,
                        TheTextLineFlags {
                            modified_since_last_tick: f.modified_since_last_tick || r.edited,
                            is_dirty: f.is_dirty || r.edited || r.moved,
                            ..f
                        },
                        TheTextLineReply {
                            redraw: r.edited || r.moved,
                            scroll_to_cursor: r.moved,
                            report: f.continuous,
                            ..none
                        },
                    )
                } else {
                    (v, f, TheTextLineReply { report: f.continuous, ..none })
                }
            },
            TheTextLineEvent::LostFocus => (
                v,
                f,
                TheTextLineReply { report: f.modified_since_last_return, ..none },
            ),
            TheTextLineEvent::Hover => (v, f, none),
        }
    }
}

/// The user interface after a text line edit took an event: a disabled line changes
/// nothing; a press gives it the focus; a return with a change not yet reported takes the
/// focus away; a hover gives it the hover when another widget had it; nothing else changes.
pub open spec fn line_ui_after(
    old_ui: TheUi,
    new_ui: TheUi,
    id: TheWidgetId,
    f: TheTextLineFlags,
    event: TheTextLineEvent,
) -> bool {
    if f.is_disabled {
        new_ui == old_ui
    } else {
        match event {
            TheTextLineEvent::MouseDown { .. } => new_ui == (TheUi { focus: Some(id), ..old_ui }),
            TheTextLineEvent::KeyCodeDown(k) => if k == TheKeyCode::Return
                && f.modified_since_last_return {
                new_ui == (TheUi { focus: None, ..old_ui })
            } else {
                new_ui == old_ui
            },
            TheTextLineEvent::Hover => if same_widget(&id, &old_ui.hover) {
                new_ui == old_ui
            } else {
                new_ui == (TheUi { hover: Some(id), ..old_ui })
            },
            _ => new_ui == old_ui,
        }
    }
}

/// Takes an event as a text line edit does (see `after_line_event` and `line_ui_after`),
/// `original` being the text kept as the original one; the caller finds the cursor under the
/// pointer, times double clicks, scrolls the rendered text, moves a range's slider and works
/// out the value to report, as the reply asks.
pub fn on_text_line_event(
    state: &mut TheTextEditState,
    flags: &mut TheTextLineFlags,
    id: &TheWidgetId,
    original: &String,
    event: TheTextLineEvent,
    ui: &mut TheUi,
) -> (reply: TheTextLineReply)
    requires
        line_event_applicable(old(state)@, *old(flags), event),
    ensures
        (final(state)@, *final(flags), reply) == after_line_event(
            old(state)@,
            *old(flags),
            event,
            join_rows(old(state).text()) != original@,
        ),
        line_ui_after(*old(ui), *final(ui), *id, *old(flags), event),
{
    let none = TheTextLineReply {
        redraw: false,
        scroll_to_cursor: false,
        slide: false,
        report_first: false,
        keep_original: false,
        report: false,
        report_range: false,
    };
    if flags.is_disabled {
        return none;
    }
    match event {
        TheTextLineEvent::MouseDown { cursor, double_click } => {
            if !state.is_empty() {
                if flags.is_range && state.selection.is_none() {
                    state.set_cursor(cursor);
                    flags.drag_start_index = state.find_cursor_index();
                    state.select_row();
                } else {
                    flags.drag_start_index = press_text(state, cursor, double_click);
                }
            }
            ui.set_focus(id);
            flags.is_dirty = true;
            TheTextLineReply { redraw: true, keep_original: flags.is_range, ..none }
        },
        TheTextLineEvent::MouseDragged { cursor } => {
            flags.is_dirty = true;
            if !flags.is_range && !state.is_empty() {
                drag_text(state, cursor, flags.drag_start_index);
            }
            TheTextLineReply { redraw: true, slide: flags.is_range, ..none }
        },
        TheTextLineEvent::MouseUp => {
            flags.drag_start_index = 0;
            let differs = state.to_text() != *original;
            TheTextLineReply {
                report_range: flags.is_range && !flags.continuous && differs,
                ..none
            }
        },
        TheTextLineEvent::KeyDown(c) => {
            state.insert_char(c);
            flags.modified_since_last_tick = true;
            flags.is_dirty = true;
            TheTextLineReply { redraw: true, report: flags.continuous, ..none }
        },
        TheTextLineEvent::KeyCodeDown(k) => {
            let mut reply = TheTextLineReply { report: flags.continuous, ..none };
            match k {
                TheKeyCode::Return => {
                    if flags.modified_since_last_return {
                        reply.report_first = true;
                        ui.clear_focus();
                        reply.redraw = true;
                        flags.is_dirty = true;
                        flags.modified_since_last_return = false;
                        reply.keep_original = flags.is_range;
                    }
                },
                TheKeyCode::Delete | TheKeyCode::Up | TheKeyCode::Down | TheKeyCode::Left
                | TheKeyCode::Right => {
                    let r = apply_key_code(state, k, 0);
                    if r.edited {
                        flags.modified_since_last_tick = true;
                    }
                    if r.edited || r.moved {
                        flags.is_dirty = true;
                    }
                    reply.redraw = r.edited || r.moved;
                    reply.scroll_to_cursor = r.moved;
                },
                _ => {},
            }
            reply
        },
        TheTextLineEvent::LostFocus => {
            TheTextLineReply { report: flags.modified_since_last_return, ..none }
        },
        TheTextLineEvent::Hover => {
            if !id.equals(&ui.hover) {
                ui.set_hover(id);
            }
            none
        },
    }
}

} // verus!

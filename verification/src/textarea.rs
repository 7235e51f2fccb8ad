//! What a text area decides when the user presses, drags, scrolls or types: the changes to
//! the text state, and the scroll amounts. Finding the cursor under the pointer, timing
//! double clicks and scrolling the rendered text are left to the caller, which hands over
//! their results.
use vstd::prelude::*;

use crate::model::{glyph_count, join_rows, row_end, row_start, text_fits};
use crate::textedit::{selected_range_of_row, TheCursor, TheSelection, TheTextEditState};
use crate::textops::{
    after_delete_selection, after_delete_text, after_insert_char, after_insert_row,
    after_insert_text, after_quick_select, char_deletable, char_insertable, cursor_down, cursor_left, cursor_right, cursor_up,
    quick_selectable, row_insertable_here, selection_deletable, spaces, text_insertable_here,
    TextView,
};
use crate::chars::{spaces_vec, string_of};
use crate::widget::{dim_contains, same_widget, TheDim, TheEvent, TheUi, TheValue, TheWidgetId, Vec2i};
use crate::widgets::tabbar::div_toward_zero;

verus! {

/// The keys a text area tells apart; it ignores the others.
#[derive(Clone, Copy, Debug, PartialEq, Eq, Structural)]
pub enum TheKeyCode {
    Escape,
    Return,
    Delete,
    Up,
    Right,
    Down,
    Left,
    Space,
    Tab,
}

/// What a key did: whether it changed the text, and whether it moved the cursor.
#[derive(Clone, Copy, Debug, PartialEq, Eq, Structural)]
pub struct TheKeyReply {
    pub edited: bool,
    pub moved: bool,
}

/// The whole row of the cursor is selected (see `is_row_all_selected`).
pub open spec fn row_all_selected(rows: Seq<Seq<char>>, sel: TheSelection, r: int) -> bool {
    match selected_range_of_row(rows, sel, r) {
        Some(range) => row_start(rows, r) == range.0 && row_end(rows, r) == range.1 + 1,
        None => false,
    }
}

/// The state a press leaves: the cursor where the press was; a press on a selection clears
/// it, or, as a double click, selects the cursor's row, or clears it when the row was all
/// selected; a double click without a selection selects the word, space or symbols under
/// the cursor.
pub open spec fn after_press(v: TextView, cursor: TheCursor, double_click: bool) -> TextView {
    let at = TextView { cursor, ..v };
    let r = cursor.row as int;
    if v.selection.start != v.selection.end {
        if double_click && !row_all_selected(v.rows, v.selection, r) {
            TextView {
                selection: TheSelection {
                    start: row_start(v.rows, r) as usize,
                    end: row_end(v.rows, r) as usize,
                },
                ..at
            }
        } else {
            TextView { selection: TheSelection { start: 0, end: 0 }, ..at }
        }
    } else if double_click {
        after_quick_select(at)
    } else {
        at
    }
}

/// What a press needs: a cursor inside the text, and what a double click needs.
pub open spec fn pressable(v: TextView, cursor: TheCursor, double_click: bool) -> bool {
    &&& cursor.row < v.rows.len()
    &&& text_fits(v.rows)
    &&& row_start(v.rows, cursor.row as int) + cursor.column <= usize::MAX
    &&& double_click && v.selection.start == v.selection.end ==> quick_selectable(
        TextView { cursor, ..v },
    )
}

/// A press at `cursor` (found under the pointer by the caller); returns the cursor index,
/// from which a following drag selects.
pub fn press_text(state: &mut TheTextEditState, cursor: TheCursor, double_click: bool) -> (drag_start: usize)
    requires
        pressable(old(state)@, cursor, double_click),
    ensures
        final(state)@ == after_press(old(state)@, cursor, double_click),
        drag_start == row_start(old(state).text(), cursor.row as int) + cursor.column,
{
    state.set_cursor(cursor);
    let drag_start = state.find_cursor_index();
    if !state.selection.is_none() {
        if double_click {
            if state.is_row_all_selected(state.cursor.row) {
                state.reset_selection();
            } else {
                state.select_row();
            }
        } else {
            state.reset_selection();
        }
    } else if double_click {
        state.quick_select();
    }
    drag_start
}

/// The state a drag to `cursor` leaves: the cursor there, and the text between it and the
/// drag's start selected, or nothing when they meet.
pub open spec fn after_drag(v: TextView, cursor: TheCursor, drag_start: int) -> TextView {
    let index = row_start(v.rows, cursor.row as int) + cursor.column;
    let at = TextView { cursor, ..v };
    if drag_start != index {
        TextView {
            selection: TheSelection {
                start: if drag_start < index { drag_start as usize } else { index as usize },
                end: if drag_start < index { index as usize } else { drag_start as usize },
            },
            ..at
        }
    } else {
        TextView { selection: TheSelection { start: 0, end: 0 }, ..at }
    }
}

/// A drag to `cursor` (found under the pointer by the caller), from the cursor index where
/// the press was.
pub fn drag_text(state: &mut TheTextEditState, cursor: TheCursor, drag_start: usize)
    requires
        cursor.row < old(state).rows.len(),
        text_fits(old(state).text()),
        row_start(old(state).text(), cursor.row as int) + cursor.column <= usize::MAX,
    ensures
        final(state)@ == after_drag(old(state)@, cursor, drag_start as int),
{
    state.set_cursor(cursor);
    let index = state.find_cursor_index();
    if drag_start != index {
        let start = if drag_start < index { drag_start } else { index };
        let end = if drag_start < index { index } else { drag_start };
        state.select(start, end);
    } else {
        state.reset_selection();
    }
}

/// What a key needs of the state, where it edits or moves.
pub open spec fn key_applicable(v: TextView, key: TheKeyCode, tab_spaces: nat) -> bool {
    match key {
        TheKeyCode::Delete => {
            &&& selection_deletable(v)
            &&& v.selection.start == v.selection.end ==> char_deletable(v)
            &&& v.rows.len() == 0 ==> !v.auto_indent
        },
        TheKeyCode::Return => selection_deletable(v) && row_insertable_here(after_delete_selection(v)),
        TheKeyCode::Tab => selection_deletable(v) && text_insertable_here(
            after_delete_selection(v),
            spaces(tab_spaces),
        ),
        TheKeyCode::Down => v.cursor.row < v.rows.len(),
        TheKeyCode::Up => v.cursor.row <= v.rows.len(),
        TheKeyCode::Left => v.cursor.column == 0 && v.cursor.row > 0 ==> v.cursor.row <= v.rows.len(),
        TheKeyCode::Right => {
            &&& v.cursor.row < v.rows.len()
            &&& v.cursor.column != glyph_count(v.rows[v.cursor.row as int]) ==> v.cursor.column
                < usize::MAX
        },
        _ => true,
    }
}

/// What a key does to the state: a delete deletes the selection or the glyph before the
/// cursor; a return starts a new row; a tab inserts `tab_spaces` spaces; the arrows move
/// the cursor; other keys do nothing.
pub open spec fn after_key(v: TextView, key: TheKeyCode, tab_spaces: nat) -> (TextView, TheKeyReply) {
    match key {
        TheKeyCode::Delete => {
            let (w, deleted) = after_delete_text(v);
            (w, TheKeyReply { edited: deleted, moved: false })
        },
        TheKeyCode::Return => (after_insert_row(v), TheKeyReply { edited: true, moved: false }),
        TheKeyCode::Tab => (
            after_insert_text(v, spaces(tab_spaces)),
            TheKeyReply { edited: true, moved: false },
        ),
        TheKeyCode::Down => {
            let c = cursor_down(v.rows, v.cursor);
            (TextView { cursor: c, ..v }, TheKeyReply { edited: false, moved: c != v.cursor })
        },
        TheKeyCode::Up => {
            let c = cursor_up(v.rows, v.cursor);
            (TextView { cursor: c, ..v }, TheKeyReply { edited: false, moved: v.cursor.row > 0 })
        },
        TheKeyCode::Left => {
            let c = cursor_left(v.rows, v.cursor);
            (TextView { cursor: c, ..v }, TheKeyReply { edited: false, moved: c != v.cursor })
        },
        TheKeyCode::Right => {
            let c = cursor_right(v.rows, v.cursor);
            (TextView { cursor: c, ..v }, TheKeyReply { edited: false, moved: c != v.cursor })
        },
        _ => (v, TheKeyReply { edited: false, moved: false }),
    }
}

/// Applies a key to the state, as a text area with `tab_spaces` spaces per tab does.
pub fn apply_key_code(state: &mut TheTextEditState, key: TheKeyCode, tab_spaces: usize) -> (reply: TheKeyReply)
    requires
        key_applicable(old(state)@, key, tab_spaces as nat),
    ensures
        (final(state)@, reply) == after_key(old(state)@, key, tab_spaces as nat),
{
    match key {
        TheKeyCode::Delete => {
            let deleted = state.delete_text();
            TheKeyReply { edited: deleted, moved: false }
        },
        TheKeyCode::Return => {
            state.insert_row();
            TheKeyReply { edited: true, moved: false }
        },
        TheKeyCode::Tab => {
            let v = spaces_vec(tab_spaces);
            state.insert_text(string_of(&v));
            TheKeyReply { edited: true, moved: false }
        },
        TheKeyCode::Down => {
            let moved = state.move_cursor_down();
            TheKeyReply { edited: false, moved }
        },
        TheKeyCode::Up => {
            let moved = state.move_cursor_up();
            TheKeyReply { edited: false, moved }
        },
        TheKeyCode::Left => {
            let moved = state.move_cursor_left();
            TheKeyReply { edited: false, moved }
        },
        TheKeyCode::Right => {
            let moved = state.move_cursor_right();
            TheKeyReply { edited: false, moved }
        },
        _ => TheKeyReply { edited: false, moved: false },
    }
}

/// How far a coordinate lies outside the range from 0 to `size`: negative before it,
/// positive after it, 0 inside.
pub open spec fn overshoot(x: int, size: int) -> int {
    if x < 0 {
        x
    } else if x > size {
        x - size
    } else {
        0
    }
}

/// The scroll a drag to `p` outside a text area of the given size asks for: the overshoot
/// divided by 8 once the press is older than half a second (`slow`), else by 4; none when
/// the pointer is inside.
pub fn drag_scroll(p: Vec2i, width: i32, height: i32, slow: bool) -> (d: Option<Vec2i>)
    requires
        i32::MIN <= overshoot(p.x as int, width as int) <= i32::MAX,
        i32::MIN <= overshoot(p.y as int, height as int) <= i32::MAX,
    ensures
        ({
            let dx = overshoot(p.x as int, width as int);
            let dy = overshoot(p.y as int, height as int);
            let ratio: int = if slow { 8 } else { 4 };
            &&& dx == 0 && dy == 0 ==> d is None
            &&& !(dx == 0 && dy == 0) ==> d == Some(Vec2i {
                x: div_toward_zero(dx, ratio) as i32,
                y: div_toward_zero(dy, ratio) as i32,
            })
        }),
{
    let delta_x = if p.x < 0 {
        p.x
    } else if p.x > width {
        p.x - width
    } else {
        0
    };
    let delta_y = if p.y < 0 {
        p.y
    } else if p.y > height {
        p.y - height
    } else {
        0
    };
    if delta_x != 0 || delta_y != 0 {
        let ratio: i32 = if slow { 8 } else { 4 };
        Some(Vec2i::new(delta_x / ratio, delta_y / ratio))
    } else {
        None
    }
}

/// The scroll a wheel turn asks for along one axis: a quarter of the larger of its two
/// parts (the vertical one on a tie).
pub fn wheel_step(delta: Vec2i) -> (s: i32)
    requires
        delta.x != i32::MIN,
        delta.y != i32::MIN,
    ensures
        ({
            let ax = if delta.x < 0 { -delta.x } else { delta.x as int };
            let ay = if delta.y < 0 { -delta.y } else { delta.y as int };
            s == if ax > ay { div_toward_zero(delta.x as int, 4) } else { div_toward_zero(delta.y as int, 4) }
        }),
{
    let ax = if delta.x < 0 { -delta.x } else { delta.x };
    let ay = if delta.y < 0 { -delta.y } else { delta.y };
    if ax > ay {
        delta.x / 4
    } else {
        delta.y / 4
    }
}

/// Where a press on a text area lands.
#[derive(Clone, Copy, Debug, PartialEq, Eq, Structural)]
pub enum ThePressTarget {
    HorizontalScrollbar,
    VerticalScrollbar,
    Text,
    Nothing,
}

/// Where a press at `p` (in screen coordinates) lands: on the horizontal scrollbar when the
/// text overflows sideways and the bar holds the point, else on the vertical one when the
/// text overflows downwards and that bar holds it, else on the text when its area holds it.
pub fn press_target(
    p: Vec2i,
    horizontal_overflow: bool,
    hbar: TheDim,
    vertical_overflow: bool,
    vbar: TheDim,
    text: TheDim,
) -> (t: ThePressTarget)
    ensures
        t == if horizontal_overflow && dim_contains(hbar, p) {
            ThePressTarget::HorizontalScrollbar
        } else if vertical_overflow && dim_contains(vbar, p) {
            ThePressTarget::VerticalScrollbar
        } else if dim_contains(text, p) {
            ThePressTarget::Text
        } else {
            ThePressTarget::Nothing
        },
{
    if horizontal_overflow && hbar.contains(p) {
        ThePressTarget::HorizontalScrollbar
    } else if vertical_overflow && vbar.contains(p) {
        ThePressTarget::VerticalScrollbar
    } else if text.contains(p) {
        ThePressTarget::Text
    } else {
        ThePressTarget::Nothing
    }
}

/// The scroll a wheel turn asks of a text area, with the pointer last at `p` (in screen
/// coordinates): over the horizontal scrollbar a sideways scroll and over the vertical one
/// a downward scroll, each by `wheel_step`; elsewhere a quarter of the turn on each axis.
pub fn wheel_scroll(p: Vec2i, hbar: TheDim, vbar: TheDim, delta: Vec2i) -> (d: Vec2i)
    requires
        delta.x != i32::MIN,
        delta.y != i32::MIN,
    ensures
        ({
            let ax = if delta.x < 0 { -delta.x } else { delta.x as int };
            let ay = if delta.y < 0 { -delta.y } else { delta.y as int };
            let step = if ax > ay {
                div_toward_zero(delta.x as int, 4)
            } else {
                div_toward_zero(delta.y as int, 4)
            };
            d == if dim_contains(hbar, p) {
                Vec2i { x: step as i32, y: 0 }
            } else if dim_contains(vbar, p) {
                Vec2i { x: 0, y: step as i32 }
            } else {
                Vec2i {
                    x: div_toward_zero(delta.x as int, 4) as i32,
                    y: div_toward_zero(delta.y as int, 4) as i32,
                }
            }
        }),
{
    if hbar.contains(p) {
        Vec2i::new(wheel_step(delta), 0)
    } else if vbar.contains(p) {
        Vec2i::new(0, wheel_step(delta))
    } else {
        Vec2i::new(delta.x / 4, delta.y / 4)
    }
}

/// What a text area keeps between events besides its text: whether it is disabled, whether
/// it reports its value on every typed character, whether its text changed since it last
/// reported its value and since the last frame, whether it needs a redraw, the cursor index
/// of the last press, which scrollbar is held, and where the pointer last hovered.
#[derive(Clone, Copy, Debug, PartialEq, Eq, Structural)]
pub struct TheTextAreaFlags {
    pub is_disabled: bool,
    pub continuous: bool,
    pub modified_since_last_return: bool,
    pub modified_since_last_tick: bool,
    pub is_dirty: bool,
    pub drag_start_index: usize,
    pub is_hscrollbar_clicked: bool,
    pub is_vscrollbar_clicked: bool,
    pub hover_coord: Vec2i,
}

/// An event as a text area takes it, once the caller has found what it needs: for a press,
/// where it landed (see `press_target`), the cursor under the pointer and whether it is a
/// double click (at the place of the last press, within half a second of it); for a drag,
/// the cursor under the pointer once the text has scrolled as `drag_scroll` asks; the
/// character of a typed key; the code of a pressed key; the point of a hover.
#[derive(Clone, Copy, Debug)]
pub enum TheTextAreaEvent {
    MouseDown { target: ThePressTarget, cursor: TheCursor, double_click: bool },
    MouseDragged { cursor: TheCursor },
    MouseUp,
    KeyDown(char),
    KeyCodeDown(TheKeyCode),
    LostFocus,
    Hover(Vec2i),
}

/// What a text area asks of its caller after an event: a redraw, passing the event on to a
/// scrollbar (`Nothing` for none), and scrolling the text so that the cursor shows.
#[derive(Clone, Copy, Debug, PartialEq, Eq, Structural)]
pub struct TheTextAreaReply {
    pub redraw: bool,
    pub forward_to: ThePressTarget,
    pub scroll_to_cursor: bool,
}

/// The text holds nothing: no rows, or one empty row.
pub open spec fn text_is_empty(rows: Seq<Seq<char>>) -> bool {
    rows.len() == 0 || (rows.len() == 1 && rows[0].len() == 0)
}

/// What an event needs of the text: a press on the text of a text that is not empty what a
/// press needs, a typed character what its insertion needs, a key what it needs.
pub open spec fn area_event_applicable(
    v: TextView,
    f: TheTextAreaFlags,
    event: TheTextAreaEvent,
    tab_spaces: nat,
) -> bool {
    !f.is_disabled ==> match event {
        TheTextAreaEvent::MouseDown { target, cursor, double_click } => !text_is_empty(v.rows)
            && target == ThePressTarget::Text ==> pressable(v, cursor, double_click),
        TheTextAreaEvent::MouseDragged { cursor } => !text_is_empty(v.rows)
            && !f.is_hscrollbar_clicked && !f.is_vscrollbar_clicked ==> {
            &&& cursor.row < v.rows.len()
            &&& text_fits(v.rows)
            &&& row_start(v.rows, cursor.row as int) + cursor.column <= usize::MAX
        },
        TheTextAreaEvent::KeyDown(c) => char_insertable(v, c),
        TheTextAreaEvent::KeyCodeDown(k) => key_applicable(v, k, tab_spaces),
        _ => true,
    }
}

/// The text, flags and reply after an event, where `hovered` tells whether the text area
/// had the hover before: a disabled area ignores every event. A press marks the area for a
/// redraw and, unless the text is empty, takes hold of the scrollbar it landed on, or
/// places the cursor as `after_press` does and remembers its index for a drag. A release
/// passes on to the scrollbar held and lets go of it. A typed character goes in as
/// `after_insert_char` puts it, marks the text changed, and counts as reported when the
/// area reports continuously. A key acts as `after_key` says; an edit marks the text
/// changed, and a cursor move asks to scroll to the cursor. A lost focus leaves nothing
/// unreported. A hover remembers its point, and asks for a redraw when the area did not
/// have the hover.
pub open spec fn after_area_event(
    v: TextView,
    f: TheTextAreaFlags,
    event: TheTextAreaEvent,
    tab_spaces: nat,
    hovered: bool,
) -> (TextView, TheTextAreaFlags, TheTextAreaReply) {
    let none = TheTextAreaReply {
        redraw: false,
        forward_to: ThePressTarget::Nothing,
        scroll_to_cursor: false,
    };
    if f.is_disabled {
        (v, f, none)
    } else {
        match event {
            TheTextAreaEvent::MouseDown { target, cursor, double_click } => {
                let pressed = TheTextAreaReply { redraw: true, ..none };
                let f2 = TheTextAreaFlags { is_dirty: true, ..f };
                if text_is_empty(v.rows) {
                    (v, f2, pressed)
                } else {
                    match target {
                        ThePressTarget::HorizontalScrollbar => (
                            v,
                            TheTextAreaFlags { is_hscrollbar_clicked: true, ..f2 },
                            TheTextAreaReply { forward_to: ThePressTarget::HorizontalScrollbar, ..pressed },
                        ),
                        ThePressTarget::VerticalScrollbar => (
                            v,
                            TheTextAreaFlags { is_vscrollbar_clicked: true, ..f2 },
                            TheTextAreaReply { forward_to: ThePressTarget::VerticalScrollbar, ..pressed },
                        ),
                        ThePressTarget::Text => (
                            after_press(v, cursor, double_click),
                            TheTextAreaFlags {
                                drag_start_index: (row_start(v.rows, cursor.row as int) + cursor.column) as usize,
                                ..f2
                            },
                            pressed,
                        ),
                        ThePressTarget::Nothing => (v, f2, pressed),
                    }
                }
            },
            TheTextAreaEvent::MouseDragged { cursor } => {
                let f2 = TheTextAreaFlags { is_dirty: true, ..f };
                if text_is_empty(v.rows) {
                    (v, f2, none)
                } else if f.is_hscrollbar_clicked {
                    (v, f2, TheTextAreaReply { forward_to: ThePressTarget::HorizontalScrollbar, ..none })
                } else if f.is_vscrollbar_clicked {
                    (v, f2, TheTextAreaReply { forward_to: ThePressTarget::VerticalScrollbar, ..none })
                } else {
                    (after_drag(v, cursor, f.drag_start_index as int), f2, TheTextAreaReply { redraw: true, ..none })
                }
            },
            TheTextAreaEvent::MouseUp => (
                v,
                TheTextAreaFlags {
                    is_hscrollbar_clicked: false,
                    is_vscrollbar_clicked: false,
                    drag_start_index: 0,
                    ..f
                },
                TheTextAreaReply {
                    redraw: true,
                    forward_to: if f.is_hscrollbar_clicked {
                        ThePressTarget::HorizontalScrollbar
                    } else if f.is_vscrollbar_clicked {
                        ThePressTarget::VerticalScrollbar
                    } else {
                        ThePressTarget::Nothing
                    },
                    scroll_to_cursor: false,
                },
            ),
            TheTextAreaEvent::KeyDown(c) => (
                after_insert_char(v, c),
                TheTextAreaFlags {
                    modified_since_last_tick: true,
                    is_dirty: true,
                    modified_since_last_return: !f.continuous && f.modified_since_last_return,
                    ..f
                },
                TheTextAreaReply { redraw: true, ..none },
            ),
            TheTextAreaEvent::KeyCodeDown(k) => {
                let (w, r) = after_key(v, k, tab_spaces);
                (
                    w,
                    TheTextAreaFlags {
                        modified_since_last_tick: f.modified_since_last_tick || r.edited,
                        is_dirty: f.is_dirty || r.edited || r.moved,
                        ..f
                    },
                    TheTextAreaReply {
                        redraw: r.edited || r.moved,
                        forward_to: ThePressTarget::Nothing,
                        scroll_to_cursor: r.moved,
                    },
                )
            },
            TheTextAreaEvent::LostFocus => (
                v,
                TheTextAreaFlags { modified_since_last_return: false, ..f },
                none,
            ),
            TheTextAreaEvent::Hover(p) => (
                v,
                TheTextAreaFlags { hover_coord: p, ..f },
                TheTextAreaReply { redraw: !hovered, ..none },
            ),
        }
    }
}

/// The user interface after `new` is the one before with the widget's text reported as its
/// value, and nothing else changed.
pub open spec fn reported(old_ui: TheUi, new_ui: TheUi, id: TheWidgetId, text: Seq<char>) -> bool {
    &&& new_ui == (TheUi { events: new_ui.events, ..old_ui })
    &&& new_ui.events@.len() == old_ui.events@.len() + 1
    &&& new_ui.events@.drop_last() == old_ui.events@
    &&& new_ui.events@.last() matches TheEvent::ValueChanged(i, TheValue::Text(s)) && i == id
        && s@ == text
}

/// The user interface after a text area took an event, `text` being its text afterwards:
/// a disabled area changes nothing; a press gives it the focus; a typed character, when the
/// area reports continuously, and a lost focus, when a change is not yet reported, report
/// the text; a hover gives it the hover when another widget had it; nothing else changes.
pub open spec fn area_ui_after(
    old_ui: TheUi,
    new_ui: TheUi,
    id: TheWidgetId,
    f: TheTextAreaFlags,
    event: TheTextAreaEvent,
    text: Seq<char>,
) -> bool {
    if f.is_disabled {
        new_ui == old_ui
    } else {
        match event {
            TheTextAreaEvent::MouseDown { .. } => new_ui == (TheUi { focus: Some(id), ..old_ui }),
            TheTextAreaEvent::KeyDown(_) => if f.continuous {
                reported(old_ui, new_ui, id, text)
            } else {
                new_ui == old_ui
            },
            TheTextAreaEvent::LostFocus => if f.modified_since_last_return {
                reported(old_ui, new_ui, id, text)
            } else {
                new_ui == old_ui
            },
            TheTextAreaEvent::Hover(_) => if same_widget(&id, &old_ui.hover) {
                new_ui == old_ui
            } else {
                new_ui == (TheUi { hover: Some(id), ..old_ui })
            },
            _ => new_ui == old_ui,
        }
    }
}

/// Reports the text as the text area's value, and notes that nothing is left unreported.
fn emit_value_changed(
    state: &TheTextEditState,
    flags: &mut TheTextAreaFlags,
    id: &TheWidgetId,
    ui: &mut TheUi,
)
    ensures
        reported(*old(ui), *final(ui), *id, join_rows(state.text())),
        *final(flags) == (TheTextAreaFlags { modified_since_last_return: false, ..*old(flags) }),
{
    let text = state.to_text();
    ui.send_widget_value_changed(id, TheValue::Text(text));
    flags.modified_since_last_return = false;
    assert(final(ui).events@.drop_last() =~= old(ui).events@);
}

/// Takes an event as a text area does (see `after_area_event` and `area_ui_after`); the
/// caller finds the cursor under the pointer, times double clicks, passes events on to the
/// scrollbars, and scrolls the rendered text, as the reply asks.
pub fn on_text_area_event(
    state: &mut TheTextEditState,
    flags: &mut TheTextAreaFlags,
    id: &TheWidgetId,
    event: TheTextAreaEvent,
    tab_spaces: usize,
    ui: &mut TheUi,
) -> (reply: TheTextAreaReply)
    requires
        area_event_applicable(old(state)@, *old(flags), event, tab_spaces as nat),
    ensures
        (final(state)@, *final(flags), reply) == after_area_event(
            old(state)@,
            *old(flags),
            event,
            tab_spaces as nat,
            same_widget(id, &old(ui).hover),
        ),
        area_ui_after(*old(ui), *final(ui), *id, *old(flags), event, join_rows(final(state).text())),
{
    let none = TheTextAreaReply {
        redraw: false,
        forward_to: ThePressTarget::Nothing,
        scroll_to_cursor: false,
    };
    if flags.is_disabled {
        return none;
    }
    match event {
        TheTextAreaEvent::MouseDown { target, cursor, double_click } => {
            let mut reply = TheTextAreaReply { redraw: true, ..none };
            if !state.is_empty() {
                match target {
                    ThePressTarget::HorizontalScrollbar => {
                        flags.is_hscrollbar_clicked = true;
                        reply.forward_to = ThePressTarget::HorizontalScrollbar;
                    },
                    ThePressTarget::VerticalScrollbar => {
                        flags.is_vscrollbar_clicked = true;
                        reply.forward_to = ThePressTarget::VerticalScrollbar;
                    },
                    ThePressTarget::Text => {
                        flags.drag_start_index = press_text(state, cursor, double_click);
                    },
                    ThePressTarget::Nothing => {},
                }
            }
            ui.set_focus(id);
            flags.is_dirty = true;
            reply
        },
        TheTextAreaEvent::MouseDragged { cursor } => {
            flags.is_dirty = true;
            if state.is_empty() {
                none
            } else if flags.is_hscrollbar_clicked {
                TheTextAreaReply { forward_to: ThePressTarget::HorizontalScrollbar, ..none }
            } else if flags.is_vscrollbar_clicked {
                TheTextAreaReply { forward_to: ThePressTarget::VerticalScrollbar, ..none }
            } else {
                drag_text(state, cursor, flags.drag_start_index);
                TheTextAreaReply { redraw: true, ..none }
            }
        },
        TheTextAreaEvent::MouseUp => {
            let forward_to = if flags.is_hscrollbar_clicked {
                ThePressTarget::HorizontalScrollbar
            } else if flags.is_vscrollbar_clicked {
                ThePressTarget::VerticalScrollbar
            } else {
                ThePressTarget::Nothing
            };
            flags.is_hscrollbar_clicked = false;
            flags.is_vscrollbar_clicked = false;
            flags.drag_start_index = 0;
            TheTextAreaReply { redraw: true, forward_to, scroll_to_cursor: false }
        },
        TheTextAreaEvent::KeyDown(c) => {
            state.insert_char(c);
            flags.modified_since_last_tick = true;
            flags.is_dirty = true;
            if flags.continuous {
                emit_value_changed(state, flags, id, ui);
            }
            TheTextAreaReply { redraw: true, ..none }
        },
        TheTextAreaEvent::KeyCodeDown(k) => {
            let r = apply_key_code(state, k, tab_spaces);
            if r.edited {
                flags.modified_since_last_tick = true;
            }
            if r.edited || r.moved {
                flags.is_dirty = true;
            }
            TheTextAreaReply { redraw: r.edited || r.moved, forward_to: ThePressTarget::Nothing, scroll_to_cursor: r.moved }
        },
        TheTextAreaEvent::LostFocus => {
            if flags.modified_since_last_return {
                emit_value_changed(state, flags, id, ui);
            }
            none
        },
        TheTextAreaEvent::Hover(p) => {
            let mut reply = none;
            if !id.equals(&ui.hover) {
                ui.set_hover(id);
                reply.redraw = true;
            }
            flags.hover_coord = p;
            reply
        },
    }
}

} // verus!

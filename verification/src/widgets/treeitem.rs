//! An item of a tree: like a list item, with value columns and an optional embedded widget
//! to which pointer events over it are passed on.
use vstd::prelude::*;
use crate::widgets::listitem::press_selects;
use crate::widget::{
    dim_zero, only_sent, same_widget, state_event, TheContextMenu, TheDim, TheEvent,
    TheRGBABuffer, TheSizeLimiter, TheUi, TheValue, TheWidget, TheWidgetId, TheWidgetState,
    Vec2i, RGBA,
};

verus! {

/// Height of a tree item row, in which the embedded widget is centered.
pub const ROW_HEIGHT: i32 = 22;

pub struct TheTreeItem {
    pub id: TheWidgetId,
    pub limiter: TheSizeLimiter,
    pub state: TheWidgetState,
    pub text: String,
    pub sub_text: String,
    pub dim: TheDim,
    pub is_dirty: bool,
    pub icon: Option<TheRGBABuffer>,
    pub status: Option<String>,
    pub layout_id: TheWidgetId,
    pub scroll_offset: i32,
    /// Value columns: width and value.
    pub values: Vec<(i32, TheValue)>,
    /// The embedded widget and the width of its column.
    pub widget_column: Option<(i32, Box<dyn TheWidget>)>,
    pub context_menu: Option<TheContextMenu>,
    pub background: Option<RGBA>,
}

/// `p` relative to the corner of `d`, when that fits in machine integers.
pub open spec fn relative_fits(p: Vec2i, d: TheDim) -> bool {
    &&& i32::MIN <= p.x - d.x <= i32::MAX
    &&& i32::MIN <= p.y - d.y <= i32::MAX
}

/// `p` relative to the corner of `d`.
pub open spec fn relative(p: Vec2i, d: TheDim) -> Vec2i {
    Vec2i { x: (p.x - d.x) as i32, y: (p.y - d.y) as i32 }
}

/// A point relative to the corner of an area lies inside it.
pub open spec fn inside(q: Vec2i, d: TheDim) -> bool {
    q.x >= 0 && q.y >= 0 && q.x < d.width && q.y < d.height
}

/// The event shows the context menu `menu` of widget `id` at `p`.
pub open spec fn shows_menu(e: TheEvent, id: TheWidgetId, p: Vec2i, menu: TheContextMenu) -> bool {
    e matches TheEvent::ShowContextMenu(i, q, Some(m)) && i == id && q == p && m.id == menu.id
        && m.items@ == menu.items@
}

/// Where the embedded widget goes in an item of width `item_width`, given its column width
/// and the height it asks for, when that fits in machine integers: at the right, centered
/// in the row.
pub open spec fn column_dim(item_width: int, column: int, height: int) -> Option<TheDim> {
    let y = (ROW_HEIGHT - height) / 2;
    let y_toward_zero = if ROW_HEIGHT - height >= 0 { y } else { -((height - ROW_HEIGHT) / 2) };
    let x = item_width - column + 9;
    let w = column - 10;
    if i32::MIN <= ROW_HEIGHT - height <= i32::MAX && i32::MIN <= item_width - column <= i32::MAX
        && i32::MIN <= x <= i32::MAX && i32::MIN <= w <= i32::MAX {
        Some(TheDim { x: x as i32, y: y_toward_zero as i32, width: w as i32, height: height as i32, buffer_x: 0, buffer_y: 0 })
    } else {
        None
    }
}

/// Places the embedded widget, as `column_dim` says, when it fits.
fn column_dim_of(item_width: i32, column: i32, height: i32) -> (d: Option<TheDim>)
    ensures
        d == column_dim(item_width as int, column as int, height as int),
{
    let ry: i64 = ROW_HEIGHT as i64 - height as i64;
    let rx: i64 = item_width as i64 - column as i64;
    let x: i64 = rx + 9;
    let w: i64 = column as i64 - 10;
    if ry < i32::MIN as i64 || ry > i32::MAX as i64 || rx < i32::MIN as i64 || rx > i32::MAX as i64
        || x < i32::MIN as i64 || x > i32::MAX as i64 || w < i32::MIN as i64 || w > i32::MAX as i64 {
        return None;
    }
    let y: i32 = (ry as i32) / 2;
    Some(TheDim::new(x as i32, y, w as i32, height))
}

impl TheTreeItem {
    /// The fields other than the embedded widget are those of `other`.
    pub open spec fn same_but_column(&self, other: TheTreeItem) -> bool {
        *self == (TheTreeItem { widget_column: self.widget_column, ..other })
    }

    /// The column width of the embedded widget, if any.
    pub open spec fn column_width(&self) -> Option<i32> {
        match self.widget_column {
            Some((w, _)) => Some(w),
            None => None,
        }
    }

    /// The event passed on to the embedded widget, if any: the same kind of pointer event
    /// relative to it, or any event that is no pointer, hover, wheel or context event.
    pub open spec fn passed_on(&self, event: TheEvent) -> Option<TheEvent> {
        match self.widget_column {
            Some((_, w)) => match event {
                TheEvent::MouseDown(p) => {
                    let q = relative(p, w.current_dim());
                    if inside(q, w.current_dim()) { Some(TheEvent::MouseDown(q)) } else { None }
                },
                TheEvent::MouseUp(p) => {
                    let q = relative(p, w.current_dim());
                    if inside(q, w.current_dim()) { Some(TheEvent::MouseUp(q)) } else { None }
                },
                TheEvent::MouseDragged(p) => Some(TheEvent::MouseDragged(relative(p, w.current_dim()))),
                TheEvent::Hover(_) => None,
                TheEvent::MouseWheel(_) => None,
                TheEvent::Context(_) => None,
                _ => Some(event),
            },
            None => None,
        }
    }

    pub fn status_text(&self) -> (s: Option<String>)
        ensures
            s == self.status,
    {
        match &self.status {
            Some(t) => Some(t.clone()),
            None => None,
        }
    }

    pub fn set_status_text(&mut self, text: &str)
        ensures
            final(self).status matches Some(t) && t@ == text@,
            final(self).same_but_column(TheTreeItem { status: final(self).status, ..*old(self) }),
            final(self).widget_column == old(self).widget_column,
    {
        self.status = Some(text.to_string());
    }

    pub fn set_context_menu(&mut self, menu: Option<TheContextMenu>)
        ensures
            final(self).same_but_column(TheTreeItem { context_menu: menu, ..*old(self) }),
            final(self).widget_column == old(self).widget_column,
    {
        self.context_menu = menu;
    }
}

impl TheWidget for TheTreeItem {
    fn new(name: String) -> (w: Self)
        ensures
            w.id.name@ == name@,
            w.limiter.max_width == i32::MAX && w.limiter.max_height == 22,
            w.state == TheWidgetState::Normal,
            w.text@ == Seq::<char>::empty() && w.sub_text@ == Seq::<char>::empty(),
            w.dim == dim_zero(),
            w.is_dirty,
            w.icon is None && w.status is None,
            w.layout_id.name@ == Seq::<char>::empty() && w.layout_id.uuid == 0,
            w.scroll_offset == 0,
            w.values@.len() == 0,
            w.widget_column is None && w.context_menu is None && w.background is None,
    {
        let mut limiter = TheSizeLimiter::new();
        limiter.set_max_height(22);
        TheTreeItem {
            id: TheWidgetId::new(name),
            limiter,
            state: TheWidgetState::Normal,
            text: String::new(),
            sub_text: String::new(),
            dim: TheDim::zero(),
            is_dirty: true,
            icon: None,
            status: None,
            layout_id: TheWidgetId::empty(),
            scroll_offset: 0,
            values: Vec::new(),
            widget_column: None,
            context_menu: None,
            background: None,
        }
    }

    fn id(&self) -> (id: &TheWidgetId)
        ensures
            *id == self.id,
    {
        &self.id
    }

    fn limiter(&self) -> (l: &TheSizeLimiter)
        ensures
            *l == self.limiter,
    {
        &self.limiter
    }

    /// Pointer events passed on to the embedded widget must fit in machine integers relative
    /// to it, and the widget must take the event passed on.
    open spec fn accepts(&self, event: &TheEvent) -> bool {
        match self.widget_column {
            Some((_, w)) => {
                &&& event matches TheEvent::MouseDown(p) ==> relative_fits(*p, w.current_dim())
                &&& event matches TheEvent::MouseUp(p) ==> relative_fits(*p, w.current_dim())
                &&& event matches TheEvent::MouseDragged(p) ==> relative_fits(*p, w.current_dim())
                &&& self.passed_on(*event) matches Some(e) ==> w.accepts(&e)
            },
            None => true,
        }
    }

    /// A context click on an item with a context menu shows it and takes the focus; a press
    /// selects the item (telling so, with its layout, unless it was selected and focused
    /// already) and takes the focus; a wheel asks the layout to scroll; a hover over an item
    /// not selected takes the hover. Pointer events over the embedded widget, and events the
    /// item does not handle, are passed on to it, and it then decides the redraw.
    fn on_event(&mut self, event: &TheEvent, ui: &mut TheUi) -> (redraw: bool)
        ensures
            event matches TheEvent::Context(p) ==> {
                &&& final(self).widget_column == old(self).widget_column
                &&& old(self).context_menu matches Some(menu) ==> {
                    &&& redraw
                    &&& final(self).same_but_column(TheTreeItem { is_dirty: true, ..*old(self) })
                    &&& final(ui).events@.len() == old(ui).events@.len() + 1
                    &&& final(ui).events@.take(old(ui).events@.len() as int) == old(ui).events@
                    &&& shows_menu(final(ui).events@.last(), old(self).id, *p, menu)
                    &&& *final(ui) == (TheUi {
                        focus: Some(old(self).id),
                        events: final(ui).events,
                        ..*old(ui)
                    })
                }
                &&& old(self).context_menu is None ==> !redraw && final(self).same_but_column(
                    *old(self),
                ) && *final(ui) == *old(ui)
            },
            event is MouseDown ==> {
                let selects = press_selects(old(self).state, old(self).id, old(ui).focus);
                let after = if selects {
                    TheTreeItem { state: TheWidgetState::Selected, is_dirty: true, ..*old(self) }
                } else {
                    *old(self)
                };
                &&& final(self).same_but_column(after)
                &&& final(self).column_width() == old(self).column_width()
                &&& old(self).passed_on(*event) is None ==> {
                    &&& redraw == selects
                    &&& final(self).widget_column == old(self).widget_column
                    &&& selects ==> final(ui).events@ == old(ui).events@ + seq![
                        state_event(old(self).id, TheWidgetState::Selected),
                        TheEvent::NewListItemSelected(old(self).id, old(self).layout_id),
                    ]
                    &&& !selects ==> final(ui).events == old(ui).events
                    &&& *final(ui) == (TheUi {
                        focus: Some(old(self).id),
                        events: final(ui).events,
                        ..*old(ui)
                    })
                }
            },
            event is MouseUp ==> {
                &&& final(self).column_width() == old(self).column_width()
                &&& old(self).widget_column is None ==> !redraw && final(self).same_but_column(
                    *old(self),
                ) && *final(ui) == *old(ui)
                &&& old(self).widget_column is Some ==> final(self).same_but_column(
                    TheTreeItem { is_dirty: true, ..*old(self) },
                )
                &&& old(self).widget_column is Some && old(self).passed_on(*event) is None ==> !redraw
                    && *final(ui) == *old(ui)
            },
            event is MouseDragged ==> {
                &&& final(self).column_width() == old(self).column_width()
                &&& redraw == (old(self).widget_column is Some)
                &&& old(self).widget_column is None ==> final(self).same_but_column(*old(self))
                    && *final(ui) == *old(ui)
                &&& old(self).widget_column is Some ==> final(self).same_but_column(
                    TheTreeItem { is_dirty: true, ..*old(self) },
                )
            },
            event is Hover ==> {
                let takes = old(self).state != TheWidgetState::Selected
                    && !same_widget(&old(self).id, &old(ui).hover);
                &&& redraw == takes
                &&& final(self).widget_column == old(self).widget_column
                &&& takes ==> final(self).same_but_column(TheTreeItem { is_dirty: true, ..*old(self) })
                    && *final(ui) == (TheUi { hover: Some(old(self).id), ..*old(ui) })
                &&& !takes ==> final(self).same_but_column(*old(self)) && *final(ui) == *old(ui)
            },
            event matches TheEvent::MouseWheel(d) ==> {
                &&& !redraw
                &&& final(self).same_but_column(*old(self))
                &&& final(self).widget_column == old(self).widget_column
                &&& only_sent(
                    *old(ui),
                    *final(ui),
                    seq![TheEvent::ScrollLayout(old(self).layout_id, *d)],
                )
            },
            !(event is Context) && !(event is MouseDown) && !(event is MouseUp)
                && !(event is MouseDragged) && !(event is Hover) && !(event is MouseWheel) ==> {
                &&& final(self).same_but_column(*old(self))
                &&& final(self).column_width() == old(self).column_width()
                &&& old(self).widget_column is None ==> !redraw && *final(ui) == *old(ui)
            },
    {
        let mut redraw = false;
        match event {
            TheEvent::Context(coord) => {
                if let Some(context_menu) = &self.context_menu {
                    ui.send(
                        TheEvent::ShowContextMenu(self.id.clone_id(), *coord, Some(context_menu.duplicate())),
                    );
                    ui.set_focus(&self.id);
                    redraw = true;
                    self.is_dirty = true;
                }
            },
            TheEvent::MouseDown(coord) => {
                if self.state != TheWidgetState::Selected || !self.id.equals(&ui.focus) {
                    self.is_dirty = true;
                    self.state = TheWidgetState::Selected;
                    ui.send_widget_state_changed(&self.id, self.state);
                    ui.send(TheEvent::NewListItemSelected(self.id.clone_id(), self.layout_id.clone_id()));
                    redraw = true;
                }
                ui.set_focus(&self.id);
                if let Some((_, w)) = &mut self.widget_column {
                    let dim = *w.dim();
                    let widget_coord = Vec2i::new(coord.x - dim.x, coord.y - dim.y);
                    if widget_coord.x >= 0 && widget_coord.y >= 0 && widget_coord.x < dim.width
                        && widget_coord.y < dim.height {
                        redraw = w.on_event(&TheEvent::MouseDown(widget_coord), ui);
                    }
                }
            },
            TheEvent::MouseUp(coord) => {
                if let Some((_, w)) = &mut self.widget_column {
                    let dim = *w.dim();
                    let widget_coord = Vec2i::new(coord.x - dim.x, coord.y - dim.y);
                    if widget_coord.x >= 0 && widget_coord.y >= 0 && widget_coord.x < dim.width
                        && widget_coord.y < dim.height {
                        redraw = w.on_event(&TheEvent::MouseUp(widget_coord), ui);
                    }
                    self.is_dirty = true;
                }
            },
            TheEvent::MouseDragged(coord) => {
                if let Some((_, w)) = &mut self.widget_column {
                    let dim = *w.dim();
                    let widget_coord = Vec2i::new(coord.x - dim.x, coord.y - dim.y);
                    w.on_event(&TheEvent::MouseDragged(widget_coord), ui);
                    self.is_dirty = true;
                    redraw = true;
                }
            },
            TheEvent::Hover(_) => {
                if self.state != TheWidgetState::Selected && !self.id.equals(&ui.hover) {
                    self.is_dirty = true;
                    ui.set_hover(&self.id);
                    redraw = true;
                }
            },
            TheEvent::MouseWheel(delta) => {
                ui.send(TheEvent::ScrollLayout(self.layout_id.clone_id(), *delta));
            },
            _ => {
                if let Some((_, w)) = &mut self.widget_column {
                    redraw = w.on_event(event, ui);
                }
            },
        }
        redraw
    }

    fn limiter_mut(&mut self) -> (l: &mut TheSizeLimiter)
        ensures
            *l == old(self).limiter,
            *final(self) == (TheTreeItem { limiter: *final(l), ..*old(self) }),
    {
        &mut self.limiter
    }

    open spec fn current_dim(&self) -> TheDim {
        self.dim
    }

    fn dim(&self) -> (d: &TheDim)
        ensures
            *d == self.dim,
    {
        &self.dim
    }

    /// Sets the dimensions; a change asks for a redraw and places the embedded widget at the
    /// right of the item, centered in the row, where that fits in machine integers.
    fn dim_mut(&mut self) -> (d: &mut TheDim)
        ensures
            *d == old(self).dim,
            *final(self) == (TheTreeItem { dim: *final(d), ..*old(self) }),
    {
        &mut self.dim
    }

    fn set_dim(&mut self, dim: TheDim)
        ensures
            old(self).dim == dim ==> final(self).same_but_column(*old(self))
                && final(self).widget_column == old(self).widget_column,
            old(self).dim != dim ==> final(self).same_but_column(
                TheTreeItem { dim, is_dirty: true, ..*old(self) },
            ),
            final(self).column_width() == old(self).column_width(),
    {
        if self.dim != dim {
            self.dim = dim;
            self.is_dirty = true;
            let item_width = self.dim.width;
            if let Some((width, widget)) = &mut self.widget_column {
                widget.calculate_size();
                let height = widget.limiter().get_max_height();
                match column_dim_of(item_width, *width, height) {
                    Some(d) => {
                        widget.set_dim(d);
                    },
                    None => {},
                }
            }
        }
    }

    fn needs_redraw(&mut self) -> (b: bool)
        ensures
            b == old(self).is_dirty,
            final(self).same_but_column(*old(self)),
            final(self).widget_column == old(self).widget_column,
    {
        self.is_dirty
    }

    fn set_needs_redraw(&mut self, redraw: bool)
        ensures
            final(self).same_but_column(TheTreeItem { is_dirty: redraw, ..*old(self) }),
            final(self).widget_column == old(self).widget_column,
    {
        self.is_dirty = redraw;
    }

    fn state(&self) -> (s: TheWidgetState)
        ensures
            s == self.state,
    {
        self.state
    }

    fn set_state(&mut self, state: TheWidgetState)
        ensures
            final(self).same_but_column(TheTreeItem { state, is_dirty: true, ..*old(self) }),
            final(self).widget_column == old(self).widget_column,
    {
        self.state = state;
        self.is_dirty = true;
    }

    fn supports_hover(&mut self) -> (b: bool)
        ensures
            b,
            final(self).same_but_column(*old(self)),
            final(self).widget_column == old(self).widget_column,
    {
        true
    }

    /// Whether the embedded widget, if any, takes text input.
    fn supports_text_input(&self) -> (b: bool)
        ensures
            self.widget_column is None ==> !b,
    {
        if let Some((_, widget)) = &self.widget_column {
            return widget.supports_text_input();
        }
        false
    }

    /// The text, as a value.
    fn value(&self) -> (v: TheValue)
        ensures
            v == TheValue::Text(self.text),
    {
        TheValue::Text(self.text.clone())
    }

    /// An empty value clears the text and a text value sets it; others are ignored.
    fn set_value(&mut self, value: TheValue)
        ensures
            final(self).widget_column == old(self).widget_column,
            value is Empty ==> final(self).text@ == Seq::<char>::empty() && final(self).same_but_column(
                TheTreeItem { text: final(self).text, is_dirty: true, ..*old(self) },
            ),
            value matches TheValue::Text(t) ==> final(self).same_but_column(
                TheTreeItem { text: t, is_dirty: true, ..*old(self) },
            ),
            !(value is Empty) && !(value is Text) ==> final(self).same_but_column(*old(self)),
    {
        match value {
            TheValue::Empty => {
                self.text = String::new();
                self.is_dirty = true;
            },
            TheValue::Text(text) => {
                self.text = text;
                self.is_dirty = true;
            },
            _ => {},
        }
    }
}

/// Setting up a tree item.
pub trait TheTreeItemTrait {
    fn set_background_color(&mut self, color: RGBA);

    fn set_text(&mut self, text: String);

    fn set_sub_text(&mut self, sub_text: String);

    fn set_associated_layout(&mut self, id: TheWidgetId);

    fn set_size(&mut self, size: i32);

    fn set_icon(&mut self, icon: TheRGBABuffer);

    fn set_scroll_offset(&mut self, offset: i32);

    fn add_value_column(&mut self, width: i32, value: TheValue);

    fn add_widget_column(&mut self, width: i32, widget: Box<dyn TheWidget>);
}

impl TheTreeItemTrait for TheTreeItem {
    fn set_background_color(&mut self, color: RGBA)
        ensures
            final(self).same_but_column(TheTreeItem { background: Some(color), is_dirty: true, ..*old(self) }),
            final(self).widget_column == old(self).widget_column,
    {
        self.background = Some(color);
        self.is_dirty = true;
    }

    fn set_text(&mut self, text: String)
        ensures
            final(self).same_but_column(TheTreeItem { text, is_dirty: true, ..*old(self) }),
            final(self).widget_column == old(self).widget_column,
    {
        self.text = text;
        self.is_dirty = true;
    }

    fn set_sub_text(&mut self, sub_text: String)
        ensures
            final(self).same_but_column(TheTreeItem { sub_text, is_dirty: true, ..*old(self) }),
            final(self).widget_column == old(self).widget_column,
    {
        self.sub_text = sub_text;
        self.is_dirty = true;
    }

    fn set_associated_layout(&mut self, id: TheWidgetId)
        ensures
            final(self).same_but_column(TheTreeItem { layout_id: id, ..*old(self) }),
            final(self).widget_column == old(self).widget_column,
    {
        self.layout_id = id;
    }

    /// Sets the height the item asks for.
    fn set_size(&mut self, size: i32)
        ensures
            final(self).same_but_column(TheTreeItem {
                limiter: TheSizeLimiter { max_height: size, ..old(self).limiter },
                is_dirty: true,
                ..*old(self)
            }),
            final(self).widget_column == old(self).widget_column,
    {
        self.limiter.set_max_height(size);
        self.is_dirty = true;
    }

    fn set_icon(&mut self, icon: TheRGBABuffer)
        ensures
            final(self).same_but_column(TheTreeItem { icon: Some(icon), ..*old(self) }),
            final(self).widget_column == old(self).widget_column,
    {
        self.icon = Some(icon);
    }

    fn set_scroll_offset(&mut self, offset: i32)
        ensures
            final(self).same_but_column(TheTreeItem { scroll_offset: offset, ..*old(self) }),
            final(self).widget_column == old(self).widget_column,
    {
        self.scroll_offset = offset;
    }

    /// Appends a value column.
    fn add_value_column(&mut self, width: i32, value: TheValue)
        ensures
            final(self).same_but_column(TheTreeItem { values: final(self).values, ..*old(self) }),
            final(self).values@ == old(self).values@.push((width, value)),
            final(self).widget_column == old(self).widget_column,
    {
        self.values.push((width, value));
    }

    /// Embeds a widget in a column of the given width, telling it that it is embedded and in
    /// which item.
    fn add_widget_column(&mut self, width: i32, widget: Box<dyn TheWidget>)
        ensures
            final(self).same_but_column(*old(self)),
            final(self).column_width() == Some(width),
    {
        let mut widget = widget;
        widget.set_embedded(true);
        widget.set_parent_id(self.id.clone_id());
        self.widget_column = Some((width, widget));
    }
}

} // verus!

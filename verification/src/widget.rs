//! What the widgets share: identifiers, dimensions, size limits, values, events, and the
//! part of the user interface state that widgets read and change.
use vstd::prelude::*;

verus! {

/// The bits of a number that tell a version 4 (random) identifier: the version nibble and
/// the two variant bits.
pub const V4_MASK: u128 = 0xF000_C000_0000_0000_0000u128;

/// Their values in a version 4 identifier: version 4, variant `10`.
pub const V4_BITS: u128 = 0x4000_8000_0000_0000_0000u128;

/// A random identifier, as `uuid::Uuid::new_v4` makes it, taken as a number.
/// Trusted: `new_v4` masks random bits and sets the version to 4 and the variant to `10`,
/// and `as_u128` reads the bytes back in the order `from_u128` wrote them; so those bits are
/// fixed. The other bits are random, and nothing is stated of them.
#[verifier::external_body]
fn new_uuid() -> (u: u128)
    ensures
        u & V4_MASK == V4_BITS,
{
    uuid::Uuid::new_v4().as_u128()
}

/// The interaction state of a widget.
#[derive(Clone, Copy, Debug, PartialEq, Eq, Structural)]
pub enum TheWidgetState {
    Normal,
    Clicked,
    Selected,
}

/// Identifier of a widget: its name and a unique number.
#[derive(Clone, Debug)]
pub struct TheWidgetId {
    pub name: String,
    pub uuid: u128,
}

impl TheWidgetId {
    /// A new identifier with the given name and a fresh random number, which carries the
    /// marks of a version 4 identifier.
    pub fn new(name: String) -> (id: Self)
        ensures
            id.name@ == name@,
            id.uuid & V4_MASK == V4_BITS,
    {
        TheWidgetId { name, uuid: new_uuid() }
    }

    /// The identifier with an empty name and the number 0.
    pub fn empty() -> (id: Self)
        ensures
            id.name@ == Seq::<char>::empty(),
            id.uuid == 0,
    {
        TheWidgetId { name: String::new(), uuid: 0 }
    }

    /// A copy of the identifier.
    pub fn clone_id(&self) -> (id: Self)
        ensures
            id == *self,
    {
        TheWidgetId { name: self.name.clone(), uuid: self.uuid }
    }

    /// Matches the id against an optional name and an optional number; false when both are
    /// missing.
    pub fn matches(&self, name: Option<&String>, uuid: Option<&u128>) -> (b: bool)
        ensures
            b == ((name is Some && name->0@ == self.name@) || (uuid is Some && *uuid->0 == self.uuid)),
    {
        if name.is_none() && uuid.is_none() {
            return false;
        }
        let name_matches = match name {
            Some(n) => *n == self.name,
            None => false,
        };
        let uuid_matches = match uuid {
            Some(u) => *u == self.uuid,
            None => false,
        };
        name_matches || uuid_matches
    }

    /// Whether the other id, if any, refers to the same widget (the same number).
    pub fn equals(&self, other: &Option<TheWidgetId>) -> (b: bool)
        ensures
            b == same_widget(self, other),
    {
        if let Some(other) = other {
            if self.uuid == other.uuid {
                return true;
            }
        }
        false
    }
}

/// The optional id refers to the widget of `id`.
pub open spec fn same_widget(id: &TheWidgetId, other: &Option<TheWidgetId>) -> bool {
    other is Some && other->0.uuid == id.uuid
}

/// A point or a vector with integer coordinates.
#[derive(Clone, Copy, Debug, PartialEq, Eq, Structural)]
pub struct Vec2i {
    pub x: i32,
    pub y: i32,
}

impl Vec2i {
    pub fn new(x: i32, y: i32) -> (v: Self)
        ensures
            v.x == x && v.y == y,
    {
        Vec2i { x, y }
    }

    pub fn zero() -> (v: Self)
        ensures
            v.x == 0 && v.y == 0,
    {
        Vec2i { x: 0, y: 0 }
    }
}

/// Position and size of a widget, and where it is drawn in its buffer.
#[derive(Clone, Copy, Debug, PartialEq, Eq, Structural)]
pub struct TheDim {
    pub x: i32,
    pub y: i32,
    pub width: i32,
    pub height: i32,
    pub buffer_x: i32,
    pub buffer_y: i32,
}

impl TheDim {
    pub fn new(x: i32, y: i32, width: i32, height: i32) -> (d: Self)
        ensures
            d.x == x && d.y == y && d.width == width && d.height == height,
            d.buffer_x == 0 && d.buffer_y == 0,
    {
        TheDim { x, y, width, height, buffer_x: 0, buffer_y: 0 }
    }

    pub fn zero() -> (d: Self)
        ensures
            d.x == 0 && d.y == 0 && d.width == 0 && d.height == 0,
            d.buffer_x == 0 && d.buffer_y == 0,
    {
        TheDim { x: 0, y: 0, width: 0, height: 0, buffer_x: 0, buffer_y: 0 }
    }

    /// Whether the area is not empty.
    pub fn is_valid(&self) -> (b: bool)
        ensures
            b == (self.width > 0 && self.height > 0),
    {
        self.width > 0 && self.height > 0
    }

    /// Whether a point lies inside the area.
    pub fn contains(&self, p: Vec2i) -> (b: bool)
        ensures
            b == dim_contains(*self, p),
    {
        p.x >= self.x && (p.x as i64) < self.x as i64 + self.width as i64 && p.y >= self.y
            && (p.y as i64) < self.y as i64 + self.height as i64
    }
}

/// The empty area at the origin.
pub open spec fn dim_zero() -> TheDim {
    TheDim { x: 0, y: 0, width: 0, height: 0, buffer_x: 0, buffer_y: 0 }
}

/// A point lies inside an area.
pub open spec fn dim_contains(d: TheDim, p: Vec2i) -> bool {
    d.x <= p.x < d.x + d.width && d.y <= p.y < d.y + d.height
}

/// The largest size a widget asks for.
#[derive(Clone, Copy, Debug, PartialEq, Eq, Structural)]
pub struct TheSizeLimiter {
    pub max_width: i32,
    pub max_height: i32,
}

impl TheSizeLimiter {
    pub fn new() -> (l: Self)
        ensures
            l.max_width == i32::MAX && l.max_height == i32::MAX,
    {
        TheSizeLimiter { max_width: i32::MAX, max_height: i32::MAX }
    }

    pub fn set_max_width(&mut self, width: i32)
        ensures
            final(self).max_width == width && final(self).max_height == old(self).max_height,
    {
        self.max_width = width;
    }

    pub fn set_max_height(&mut self, height: i32)
        ensures
            final(self).max_height == height && final(self).max_width == old(self).max_width,
    {
        self.max_height = height;
    }

    pub fn set_max_size(&mut self, size: Vec2i)
        ensures
            final(self).max_width == size.x && final(self).max_height == size.y,
    {
        self.max_width = size.x;
        self.max_height = size.y;
    }

    pub fn get_max_height(&self) -> (h: i32)
        ensures
            h == self.max_height,
    {
        self.max_height
    }
}

/// An image: its area and its pixels, four bytes each.
#[derive(Clone, Debug)]
pub struct TheRGBABuffer {
    pub dim: TheDim,
    pub buffer: Vec<u8>,
}

/// An animation: its frames.
#[derive(Clone, Debug)]
pub struct TheRGBATile {
    pub buffer: Vec<TheRGBABuffer>,
}

impl TheRGBATile {
    /// The tile without frames.
    pub fn new() -> (t: Self)
        ensures
            t.buffer@.len() == 0,
    {
        TheRGBATile { buffer: Vec::new() }
    }
}

/// A color with red, green, blue and alpha channels.
pub type RGBA = [u8; 4];

/// A palette: its colors, each slot possibly empty.
#[derive(Clone, Debug)]
pub struct ThePalette {
    pub colors: Vec<Option<RGBA>>,
}

impl ThePalette {
    /// The palette without colors.
    pub fn new() -> (p: Self)
        ensures
            p.colors@.len() == 0,
    {
        ThePalette { colors: Vec::new() }
    }
}

/// A point of time within a day, kept as the offset within a slider of some width that
/// selects it.
#[derive(Clone, Copy, Debug, PartialEq, Eq, Structural)]
pub struct TheTime {
    pub offset: u32,
    pub width: u32,
}

impl TheTime {
    /// The time a slider of the given width selects at the offset.
    pub fn from_widget_offset(offset: u32, width: u32) -> (t: Self)
        ensures
            t == (TheTime { offset, width }),
    {
        TheTime { offset, width }
    }
}

/// A value a widget holds or reports.
#[derive(Clone, Debug)]
pub enum TheValue {
    Empty,
    Text(String),
    Int(i32),
    Time(TheTime),
}

/// A context menu: its id and the names of its items.
#[derive(Clone, Debug)]
pub struct TheContextMenu {
    pub id: TheWidgetId,
    pub items: Vec<String>,
}

impl TheContextMenu {
    /// A copy of the menu.
    pub fn duplicate(&self) -> (m: Self)
        ensures
            m.id == self.id,
            m.items@ == self.items@,
    {
        TheContextMenu { id: self.id.clone_id(), items: self.items.clone() }
    }
}

/// Two values are equal: of the same kind, with equal contents.
pub open spec fn same_value(a: TheValue, b: TheValue) -> bool {
    match (a, b) {
        (TheValue::Empty, TheValue::Empty) => true,
        (TheValue::Text(x), TheValue::Text(y)) => x@ == y@,
        (TheValue::Int(x), TheValue::Int(y)) => x == y,
        (TheValue::Time(x), TheValue::Time(y)) => x == y,
        _ => false,
    }
}

/// Whether two values are equal.
pub fn values_equal(a: &TheValue, b: &TheValue) -> (r: bool)
    ensures
        r == same_value(*a, *b),
{
    match (a, b) {
        (TheValue::Empty, TheValue::Empty) => true,
        (TheValue::Text(x), TheValue::Text(y)) => *x == *y,
        (TheValue::Int(x), TheValue::Int(y)) => *x == *y,
        (TheValue::Time(x), TheValue::Time(y)) => *x == *y,
        _ => false,
    }
}

/// A copy of a value.
pub fn copy_value(v: &TheValue) -> (r: TheValue)
    ensures
        r == *v,
{
    match v {
        TheValue::Empty => TheValue::Empty,
        TheValue::Text(t) => TheValue::Text(t.clone()),
        TheValue::Int(i) => TheValue::Int(*i),
        TheValue::Time(t) => TheValue::Time(*t),
    }
}

/// An event: what the user does to a widget, or what a widget tells the application.
#[derive(Clone, Debug)]
pub enum TheEvent {
    MouseDown(Vec2i),
    MouseUp(Vec2i),
    MouseDragged(Vec2i),
    MouseWheel(Vec2i),
    Hover(Vec2i),
    LostHover(TheWidgetId),
    Context(Vec2i),
    StateChanged(TheWidgetId, TheWidgetState),
    ValueChanged(TheWidgetId, TheValue),
    IndexChanged(TheWidgetId, usize),
    ShowContextMenu(TheWidgetId, Vec2i, Option<TheContextMenu>),
    NewListItemSelected(TheWidgetId, TheWidgetId),
    DragStarted(TheWidgetId, String, Vec2i),
    ScrollLayout(TheWidgetId, Vec2i),
}

/// The part of the user interface state that widgets read and change: which widget has the
/// focus, the hover and the overlay, whether something is being dragged, requests to redraw
/// or lay out everything, and the events sent to the application, oldest first.
pub struct TheUi {
    pub focus: Option<TheWidgetId>,
    pub hover: Option<TheWidgetId>,
    pub overlay: Option<TheWidgetId>,
    pub dragging: bool,
    pub redraw_all: bool,
    pub relayout: bool,
    pub events: Vec<TheEvent>,
}

impl TheUi {
    pub fn new() -> (ui: Self)
        ensures
            ui.focus is None && ui.hover is None && ui.overlay is None,
            !ui.dragging && !ui.redraw_all && !ui.relayout,
            ui.events@.len() == 0,
    {
        TheUi {
            focus: None,
            hover: None,
            overlay: None,
            dragging: false,
            redraw_all: false,
            relayout: false,
            events: Vec::new(),
        }
    }

    /// Sends an event to the application.
    pub fn send(&mut self, event: TheEvent)
        ensures
            *final(self) == (TheUi { events: final(self).events, ..*old(self) }),
            final(self).events@ == old(self).events@.push(event),
    {
        self.events.push(event);
    }

    /// Tells the application that a widget changed its state.
    pub fn send_widget_state_changed(&mut self, id: &TheWidgetId, state: TheWidgetState)
        ensures
            *final(self) == (TheUi { events: final(self).events, ..*old(self) }),
            final(self).events@ == old(self).events@.push(TheEvent::StateChanged(*id, state)),
    {
        self.send(TheEvent::StateChanged(id.clone_id(), state));
    }

    /// Tells the application that a widget changed its value.
    pub fn send_widget_value_changed(&mut self, id: &TheWidgetId, value: TheValue)
        ensures
            *final(self) == (TheUi { events: final(self).events, ..*old(self) }),
            final(self).events@ == old(self).events@.push(TheEvent::ValueChanged(*id, value)),
    {
        self.send(TheEvent::ValueChanged(id.clone_id(), value));
    }

    pub fn set_focus(&mut self, id: &TheWidgetId)
        ensures
            *final(self) == (TheUi { focus: Some(*id), ..*old(self) }),
    {
        self.focus = Some(id.clone_id());
    }

    pub fn clear_focus(&mut self)
        ensures
            *final(self) == (TheUi { focus: None, ..*old(self) }),
    {
        self.focus = None;
    }

    pub fn set_hover(&mut self, id: &TheWidgetId)
        ensures
            *final(self) == (TheUi { hover: Some(*id), ..*old(self) }),
    {
        self.hover = Some(id.clone_id());
    }

    pub fn clear_hover(&mut self)
        ensures
            *final(self) == (TheUi { hover: None, ..*old(self) }),
    {
        self.hover = None;
    }

    pub fn set_overlay(&mut self, id: &TheWidgetId)
        ensures
            *final(self) == (TheUi { overlay: Some(*id), ..*old(self) }),
    {
        self.overlay = Some(id.clone_id());
    }

    pub fn clear_overlay(&mut self)
        ensures
            *final(self) == (TheUi { overlay: None, ..*old(self) }),
    {
        self.overlay = None;
    }
}

/// The user interface state `new` is `old` with `events` sent, and nothing else changed.
pub open spec fn only_sent(old: TheUi, new: TheUi, events: Seq<TheEvent>) -> bool {
    &&& new == (TheUi { events: new.events, ..old })
    &&& new.events@ =~= old.events@ + events
}

/// The event that tells that a widget changed its state.
pub open spec fn state_event(id: TheWidgetId, state: TheWidgetState) -> TheEvent {
    TheEvent::StateChanged(id, state)
}

/// A widget is as it was.
pub open spec fn same_widget_state<W: ?Sized>(now: &W, before: &W) -> bool {
    now == before
}

/// The abstract functionality of a widget.
pub trait TheWidget {
    /// A new widget with the given name.
    fn new(name: String) -> Self
        where Self: Sized;

    fn id(&self) -> &TheWidgetId;

    /// The dimensions of the widget, as a value.
    spec fn current_dim(&self) -> TheDim;

    /// The dimensions of the widget.
    fn dim(&self) -> (d: &TheDim)
        ensures
            *d == self.current_dim(),
    ;

    /// The dimensions of the widget, to be changed in place.
    fn dim_mut(&mut self) -> &mut TheDim;

    /// The size the widget asks for.
    fn limiter(&self) -> &TheSizeLimiter;

    /// The size the widget asks for, to be changed in place.
    fn limiter_mut(&mut self) -> &mut TheSizeLimiter;

    /// Adjusts the size the widget asks for to its contents.
    fn calculate_size(&mut self) {
    }

    /// Sets the dimensions of the widget.
    fn set_dim(&mut self, dim: TheDim);

    /// The current state of the widget.
    fn state(&self) -> (s: TheWidgetState)
        default_ensures
            s == TheWidgetState::Normal,
    {
        TheWidgetState::Normal
    }

    /// Sets the state of the widget.
    fn set_state(&mut self, state: TheWidgetState) {
    }

    /// Whether the widget is open.
    fn is_open(&self) -> (b: bool)
        default_ensures
            !b,
    {
        false
    }

    /// Whether the widget takes text input.
    fn supports_text_input(&self) -> (b: bool)
        default_ensures
            !b,
    {
        false
    }

    /// Marks the widget as embedded in another one.
    fn set_embedded(&mut self, embedded: bool) {
    }

    /// Tells the widget which widget it is embedded in.
    fn set_parent_id(&mut self, id: TheWidgetId) {
    }

    /// Whether the widget reacts to the hover.
    fn supports_hover(&mut self) -> (b: bool)
        default_ensures
            !b,
            same_widget_state(&*final(self), &*old(self)),
    {
        false
    }

    /// Whether the widget needs a redraw.
    fn needs_redraw(&mut self) -> (b: bool)
        default_ensures
            !b,
            same_widget_state(&*final(self), &*old(self)),
    {
        false
    }

    fn set_needs_redraw(&mut self, redraw: bool) {
    }

    /// The value the widget shows.
    fn value(&self) -> (v: TheValue)
        default_ensures
            v == TheValue::Empty,
    {
        TheValue::Empty
    }

    /// Sets the value the widget shows.
    fn set_value(&mut self, value: TheValue) {
    }

    /// The events this widget can take in its current state: those on which it would
    /// otherwise index out of bounds or overflow are left out.
    spec fn accepts(&self, event: &TheEvent) -> bool;

    /// Processes an event from the user; true when the widget needs a redraw.
    fn on_event(&mut self, event: &TheEvent, ui: &mut TheUi) -> (redraw: bool)
        requires
            old(self).accepts(event),
        default_ensures
            !redraw,
            same_widget_state(&*final(self), &*old(self)),
            *final(ui) == *old(ui),
    {
        false
    }
}

} // verus!

//! An item of a list: pressing selects it, dragging it far enough starts a drag.
use vstd::prelude::*;
use crate::widget::{
    dim_zero, only_sent, same_widget, state_event, TheDim, TheEvent, TheRGBABuffer,
    TheSizeLimiter, TheUi, TheValue, TheWidget, TheWidgetId, TheWidgetState, Vec2i,
};

verus! {

/// How far, squared, the pointer must move from where it was pressed before a drag starts.
pub const DRAG_DISTANCE_SQUARED: i128 = 25;

/// The squared distance between two points.
pub open spec fn distance_squared(a: Vec2i, b: Vec2i) -> int {
    (b.x - a.x) * (b.x - a.x) + (b.y - a.y) * (b.y - a.y)
}

/// Whether `b` lies at least the drag distance away from `a`.
pub fn far_enough(a: Vec2i, b: Vec2i) -> (r: bool)
    ensures
        r == (distance_squared(a, b) >= DRAG_DISTANCE_SQUARED),
{
    let dx: i128 = b.x as i128 - a.x as i128;
    let dy: i128 = b.y as i128 - a.y as i128;
    assert(dx * dx <= 0x1_0000_0000_0000_0000) by (nonlinear_arith)
        requires
            -0x1_0000_0000 <= dx <= 0x1_0000_0000,
    ;
    assert(dy * dy <= 0x1_0000_0000_0000_0000) by (nonlinear_arith)
        requires
            -0x1_0000_0000 <= dy <= 0x1_0000_0000,
    ;
    assert(dx * dx >= 0 && dy * dy >= 0) by (nonlinear_arith);
    dx * dx + dy * dy >= DRAG_DISTANCE_SQUARED
}

/// A press on an item asks for its selection: it is not selected, or not focused.
pub open spec fn press_selects(state: TheWidgetState, id: TheWidgetId, focus: Option<TheWidgetId>) -> bool {
    state != TheWidgetState::Selected || !same_widget(&id, &focus)
}

pub struct TheListItem {
    pub id: TheWidgetId,
    pub limiter: TheSizeLimiter,
    pub state: TheWidgetState,
    pub text: String,
    pub sub_text: String,
    pub dim: TheDim,
    pub is_dirty: bool,
    /// Where a drag is measured from.
    pub mouse_down_pos: Vec2i,
    pub icon: Option<TheRGBABuffer>,
    /// The layout the item belongs to.
    pub layout_id: TheWidgetId,
}

impl TheWidget for TheListItem {
    fn new(name: String) -> (w: Self)
        ensures
            w.id.name@ == name@,
            w.limiter.max_width == i32::MAX && w.limiter.max_height == 17,
            w.state == TheWidgetState::Normal,
            w.text@ == Seq::<char>::empty() && w.sub_text@ == Seq::<char>::empty(),
            w.dim == dim_zero(),
            w.is_dirty,
            w.mouse_down_pos == (Vec2i { x: 0, y: 0 }),
            w.icon is None,
            w.layout_id.name@ == Seq::<char>::empty() && w.layout_id.uuid == 0,
    {
        let mut limiter = TheSizeLimiter::new();
        limiter.set_max_height(17);
        TheListItem {
            id: TheWidgetId::new(name),
            limiter,
            state: TheWidgetState::Normal,
            text: String::new(),
            sub_text: String::new(),
            dim: TheDim::zero(),
            is_dirty: true,
            mouse_down_pos: Vec2i::zero(),
            icon: None,
            layout_id: TheWidgetId::empty(),
        }
    }

    fn id(&self) -> (id: &TheWidgetId)
        ensures
            *id == self.id,
    {
        &self.id
    }

    open spec fn accepts(&self, event: &TheEvent) -> bool {
        true
    }

    /// A context click asks for the context menu; a press selects the item (telling so,
    /// with its layout, unless it was selected and focused already) and takes the focus; a
    /// drag far enough from where the item was pressed, while nothing is being dropped,
    /// starts a drag of its text; a hover over an item not selected takes the hover.
    fn on_event(&mut self, event: &TheEvent, ui: &mut TheUi) -> (redraw: bool)
        ensures
            event matches TheEvent::Context(p) ==> !redraw && *final(self) == *old(self)
                && only_sent(*old(ui), *final(ui), seq![TheEvent::ShowContextMenu(old(self).id, *p, None)]),
            event is MouseDown ==> {
                let selects = press_selects(old(self).state, old(self).id, old(ui).focus);
                &&& redraw == selects
                &&& selects ==> *final(self) == (TheListItem {
                    state: TheWidgetState::Selected,
                    is_dirty: true,
                    ..*old(self)
                }) && final(ui).events@ == old(ui).events@ + seq![
                    state_event(old(self).id, TheWidgetState::Selected),
                    TheEvent::NewListItemSelected(old(self).id, old(self).layout_id),
                ]
                &&& !selects ==> *final(self) == *old(self) && final(ui).events == old(ui).events
                &&& *final(ui) == (TheUi {
                    focus: Some(old(self).id),
                    events: final(ui).events,
                    ..*old(ui)
                })
            },
            event matches TheEvent::MouseDragged(p) ==> {
                let starts = !old(ui).dragging && distance_squared(old(self).mouse_down_pos, *p)
                    >= DRAG_DISTANCE_SQUARED;
                &&& !redraw
                &&& *final(self) == *old(self)
                &&& starts ==> only_sent(
                    *old(ui),
                    *final(ui),
                    seq![TheEvent::DragStarted(old(self).id, old(self).text, *p)],
                )
                &&& !starts ==> *final(ui) == *old(ui)
            },
            event is Hover ==> {
                let takes = old(self).state != TheWidgetState::Selected
                    && !same_widget(&old(self).id, &old(ui).hover);
                &&& redraw == takes
                &&& takes ==> *final(self) == (TheListItem { is_dirty: true, ..*old(self) })
                    && *final(ui) == (TheUi { hover: Some(old(self).id), ..*old(ui) })
                &&& !takes ==> *final(self) == *old(self) && *final(ui) == *old(ui)
            },
            !(event is Context) && !(event is MouseDown) && !(event is MouseDragged)
                && !(event is Hover) ==> !redraw && *final(self) == *old(self) && *final(ui)
                == *old(ui),
    {
        let mut redraw = false;
        match event {
            TheEvent::Context(coord) => {
                ui.send(TheEvent::ShowContextMenu(self.id.clone_id(), *coord, None));
            },
            TheEvent::MouseDown(_) => {
                if self.state != TheWidgetState::Selected || !self.id.equals(&ui.focus) {
                    self.is_dirty = true;
                    self.state = TheWidgetState::Selected;
                    ui.send_widget_state_changed(&self.id, self.state);
                    ui.send(TheEvent::NewListItemSelected(self.id.clone_id(), self.layout_id.clone_id()));
                    redraw = true;
                }
                ui.set_focus(&self.id);
            },
            TheEvent::MouseDragged(coord) => {
                if !ui.dragging && far_enough(self.mouse_down_pos, *coord) {
                    ui.send(TheEvent::DragStarted(self.id.clone_id(), self.text.clone(), *coord));
                }
            },
            TheEvent::Hover(_) => {
                if self.state != TheWidgetState::Selected && !self.id.equals(&ui.hover) {
                    self.is_dirty = true;
                    ui.set_hover(&self.id);
                    redraw = true;
                }
            },
            _ => {},
        }
        redraw
    }

    fn limiter(&self) -> (l: &TheSizeLimiter)
        ensures
            *l == self.limiter,
    {
        &self.limiter
    }

    fn limiter_mut(&mut self) -> (l: &mut TheSizeLimiter)
        ensures
            *l == old(self).limiter,
            *final(self) == (TheListItem { limiter: *final(l), ..*old(self) }),
    {
        &mut self.limiter
    }

    open spec fn current_dim(&self) -> TheDim {
        self.dim
    }

    fn dim(&self) -> (d: &TheDim)
        ensures
            *d == self.dim,
    {
        &self.dim
    }

    fn dim_mut(&mut self) -> (d: &mut TheDim)
        ensures
            *d == old(self).dim,
            *final(self) == (TheListItem { dim: *final(d), ..*old(self) }),
    {
        &mut self.dim
    }

    fn set_dim(&mut self, dim: TheDim)
        ensures
            *final(self) == (TheListItem {
                dim,
                is_dirty: old(self).is_dirty || old(self).dim != dim,
                ..*old(self)
            }),
    {
        if self.dim != dim {
            self.dim = dim;
            self.is_dirty = true;
        }
    }

    fn needs_redraw(&mut self) -> (b: bool)
        ensures
            b == old(self).is_dirty,
            *final(self) == *old(self),
    {
        self.is_dirty
    }

    fn set_needs_redraw(&mut self, redraw: bool)
        ensures
            *final(self) == (TheListItem { is_dirty: redraw, ..*old(self) }),
    {
        self.is_dirty = redraw;
    }

    fn state(&self) -> (s: TheWidgetState)
        ensures
            s == self.state,
    {
        self.state
    }

    fn set_state(&mut self, state: TheWidgetState)
        ensures
            *final(self) == (TheListItem { state, is_dirty: true, ..*old(self) }),
    {
        self.state = state;
        self.is_dirty = true;
    }

    fn supports_hover(&mut self) -> (b: bool)
        ensures
            b,
            *final(self) == *old(self),
    {
        true
    }

    /// The text, as a value.
    fn value(&self) -> (v: TheValue)
        ensures
            v == TheValue::Text(self.text),
    {
        TheValue::Text(self.text.clone())
    }

    /// An empty value clears the text and a text value sets it; others are ignored.
    fn set_value(&mut self, value: TheValue)
        ensures
            value is Empty ==> final(self).text@ == Seq::<char>::empty() && *final(self)
                == (TheListItem { text: final(self).text, is_dirty: true, ..*old(self) }),
            value matches TheValue::Text(t) ==> *final(self) == (TheListItem {
                text: t,
                is_dirty: true,
                ..*old(self)
            }),
            !(value is Empty) && !(value is Text) ==> *final(self) == *old(self),
    {
        match value {
            TheValue::Empty => {
                self.text = String::new();
                self.is_dirty = true;
            },
            TheValue::Text(text) => {
                self.text = text;
                self.is_dirty = true;
            },
            _ => {},
        }
    }
}

/// Setting up a list item.
pub trait TheListItemTrait {
    fn set_text(&mut self, text: String);

    fn set_sub_text(&mut self, sub_text: String);

    fn set_associated_layout(&mut self, id: TheWidgetId);

    fn set_size(&mut self, size: i32);

    fn set_icon(&mut self, icon: TheRGBABuffer);
}

impl TheListItemTrait for TheListItem {
    fn set_text(&mut self, text: String)
        ensures
            *final(self) == (TheListItem { text, is_dirty: true, ..*old(self) }),
    {
        self.text = text;
        self.is_dirty = true;
    }

    fn set_sub_text(&mut self, sub_text: String)
        ensures
            *final(self) == (TheListItem { sub_text, is_dirty: true, ..*old(self) }),
    {
        self.sub_text = sub_text;
        self.is_dirty = true;
    }

    fn set_associated_layout(&mut self, id: TheWidgetId)
        ensures
            *final(self) == (TheListItem { layout_id: id, ..*old(self) }),
    {
        self.layout_id = id;
    }

    /// Sets the height the item asks for.
    fn set_size(&mut self, size: i32)
        ensures
            *final(self) == (TheListItem {
                limiter: crate::widget::TheSizeLimiter { max_height: size, ..old(self).limiter },
                is_dirty: true,
                ..*old(self)
            }),
    {
        self.limiter.set_max_height(size);
        self.is_dirty = true;
    }

    fn set_icon(&mut self, icon: TheRGBABuffer)
        ensures
            *final(self) == (TheListItem { icon: Some(icon), ..*old(self) }),
    {
        self.icon = Some(icon);
    }
}

} // verus!

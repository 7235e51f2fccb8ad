//! A vertical scrollbar: dragging it scrolls the content by the distance dragged.
use vstd::prelude::*;
use crate::widget::{
    dim_zero, only_sent, same_widget, state_event, TheDim, TheEvent, TheSizeLimiter, TheUi,
    TheWidget, TheWidgetId, TheWidgetState, Vec2i,
};

verus! {

/// The offset after scrolling `offset` by `delta`: not below 0, and then not beyond
/// `max_offset` (which wins when it is negative).
pub open spec fn clamped_scroll(offset: int, delta: int, max_offset: int) -> int {
    let moved = if offset + delta < 0 { 0 } else { offset + delta };
    if moved > max_offset { max_offset } else { moved }
}

/// The same clamp on machine integers, for offsets and deltas whose sum fits.
pub fn clamp_scroll(offset: i32, delta: i32, max_offset: i32) -> (r: i32)
    requires
        i32::MIN <= offset + delta <= i32::MAX,
    ensures
        r == clamped_scroll(offset as int, delta as int, max_offset as int),
{
    let moved = offset + delta;
    let moved = if moved < 0 { 0 } else { moved };
    if moved > max_offset { max_offset } else { moved }
}

pub struct TheVerticalScrollbar {
    pub widget_id: TheWidgetId,
    pub limiter: TheSizeLimiter,
    pub state: TheWidgetState,
    pub scroll_offset: i32,
    pub total_height: i32,
    pub mouse_down_coord: Vec2i,
    pub dim: TheDim,
    pub is_dirty: bool,
}

impl TheVerticalScrollbar {
    /// Scrolling by `delta` stays within machine integers.
    pub open spec fn scroll_fits(&self, delta: int) -> bool {
        &&& i32::MIN <= self.scroll_offset + delta <= i32::MAX
        &&& i32::MIN <= self.total_height - self.dim.height <= i32::MAX
    }
}

impl TheWidget for TheVerticalScrollbar {
    fn new(name: String) -> (w: Self)
        ensures
            w.widget_id.name@ == name@,
            w.limiter.max_width == 142 && w.limiter.max_height == 20,
            w.state == TheWidgetState::Normal,
            w.scroll_offset == 0 && w.total_height == 0,
            w.mouse_down_coord == (Vec2i { x: 0, y: 0 }),
            w.dim == dim_zero(),
            !w.is_dirty,
    {
        let mut limiter = TheSizeLimiter::new();
        limiter.set_max_width(142);
        limiter.set_max_height(20);
        TheVerticalScrollbar {
            widget_id: TheWidgetId::new(name),
            limiter,
            state: TheWidgetState::Normal,
            scroll_offset: 0,
            total_height: 0,
            mouse_down_coord: Vec2i::zero(),
            dim: TheDim::zero(),
            is_dirty: false,
        }
    }

    fn id(&self) -> (id: &TheWidgetId)
        ensures
            *id == self.widget_id,
    {
        &self.widget_id
    }

    open spec fn accepts(&self, event: &TheEvent) -> bool {
        event matches TheEvent::MouseDragged(p) ==> {
            &&& i32::MIN <= p.x - self.mouse_down_coord.x <= i32::MAX
            &&& i32::MIN <= p.y - self.mouse_down_coord.y <= i32::MAX
            &&& self.scroll_fits(p.y - self.mouse_down_coord.y)
        }
    }

    /// A press takes hold of the bar (telling so once) and remembers where; a drag scrolls by
    /// the vertical distance from the last position; a release lets go; a hover over a bar
    /// not held takes the hover.
    fn on_event(&mut self, event: &TheEvent, ui: &mut TheUi) -> (redraw: bool)
        ensures
            event matches TheEvent::MouseDown(p) ==> {
                let grabs = old(self).state != TheWidgetState::Clicked;
                &&& redraw
                &&& *final(self) == (TheVerticalScrollbar {
                    state: TheWidgetState::Clicked,
                    mouse_down_coord: *p,
                    is_dirty: true,
                    ..*old(self)
                })
                &&& grabs ==> final(ui).events@ == old(ui).events@.push(
                    state_event(old(self).widget_id, TheWidgetState::Clicked),
                ) && *final(ui) == (TheUi {
                    focus: Some(old(self).widget_id),
                    events: final(ui).events,
                    ..*old(ui)
                })
                &&& !grabs ==> *final(ui) == *old(ui)
            },
            event matches TheEvent::MouseDragged(p) ==> {
                &&& redraw
                &&& *final(self) == (TheVerticalScrollbar {
                    scroll_offset: clamped_scroll(
                        old(self).scroll_offset as int,
                        p.y - old(self).mouse_down_coord.y,
                        old(self).total_height - old(self).dim.height,
                    ) as i32,
                    mouse_down_coord: *p,
                    is_dirty: true,
                    ..*old(self)
                })
                &&& *final(ui) == *old(ui)
            },
            event is MouseUp ==> {
                let lets_go = old(self).state == TheWidgetState::Clicked;
                &&& redraw
                &&& *final(self) == (TheVerticalScrollbar {
                    state: if lets_go { TheWidgetState::Normal } else { old(self).state },
                    is_dirty: true,
                    ..*old(self)
                })
                &&& lets_go ==> only_sent(
                    *old(ui),
                    *final(ui),
                    seq![state_event(old(self).widget_id, TheWidgetState::Normal)],
                )
                &&& !lets_go ==> *final(ui) == *old(ui)
            },
            event is Hover ==> {
                let takes = old(self).state != TheWidgetState::Clicked
                    && !same_widget(&old(self).widget_id, &old(ui).hover);
                &&& redraw == takes
                &&& takes ==> *final(self) == (TheVerticalScrollbar { is_dirty: true, ..*old(self) })
                    && *final(ui) == (TheUi { hover: Some(old(self).widget_id), ..*old(ui) })
                &&& !takes ==> *final(self) == *old(self) && *final(ui) == *old(ui)
            },
            !(event is MouseDown) && !(event is MouseDragged) && !(event is MouseUp)
                && !(event is Hover) ==> !redraw && *final(self) == *old(self) && *final(ui)
                == *old(ui),
    {
        let mut redraw = false;
        match event {
            TheEvent::MouseDown(coord) => {
                self.is_dirty = true;
                if self.state != TheWidgetState::Clicked {
                    self.state = TheWidgetState::Clicked;
                    ui.send_widget_state_changed(&self.widget_id, self.state);
                    ui.set_focus(&self.widget_id);
                }
                self.mouse_down_coord = *coord;
                redraw = true;
            },
            TheEvent::MouseDragged(coord) => {
                self.is_dirty = true;
                redraw = true;
                let d = Vec2i::new(coord.x - self.mouse_down_coord.x, coord.y - self.mouse_down_coord.y);
                self.scroll_by(d.y);
                self.mouse_down_coord = *coord;
            },
            TheEvent::MouseUp(_) => {
                self.is_dirty = true;
                if self.state == TheWidgetState::Clicked {
                    self.state = TheWidgetState::Normal;
                    ui.send_widget_state_changed(&self.widget_id, self.state);
                }
                redraw = true;
            },
            TheEvent::Hover(_) => {
                if self.state != TheWidgetState::Clicked && !self.widget_id.equals(&ui.hover) {
                    self.is_dirty = true;
                    ui.set_hover(&self.widget_id);
                    redraw = true;
                }
            },
            _ => {},
        }
        redraw
    }

    fn limiter(&self) -> (l: &TheSizeLimiter)
        ensures
            *l == self.limiter,
    {
        &self.limiter
    }

    fn limiter_mut(&mut self) -> (l: &mut TheSizeLimiter)
        ensures
            *l == old(self).limiter,
            *final(self) == (TheVerticalScrollbar { limiter: *final(l), ..*old(self) }),
    {
        &mut self.limiter
    }

    open spec fn current_dim(&self) -> TheDim {
        self.dim
    }

    fn dim(&self) -> (d: &TheDim)
        ensures
            *d == self.dim,
    {
        &self.dim
    }

    fn dim_mut(&mut self) -> (d: &mut TheDim)
        ensures
            *d == old(self).dim,
            *final(self) == (TheVerticalScrollbar { dim: *final(d), ..*old(self) }),
    {
        &mut self.dim
    }

    fn set_dim(&mut self, dim: TheDim)
        ensures
            *final(self) == (TheVerticalScrollbar {
                dim,
                is_dirty: old(self).is_dirty || old(self).dim != dim,
                ..*old(self)
            }),
    {
        if self.dim != dim {
            self.dim = dim;
            self.is_dirty = true;
        }
    }

    fn needs_redraw(&mut self) -> (b: bool)
        ensures
            b == old(self).is_dirty,
            *final(self) == *old(self),
    {
        self.is_dirty
    }

    fn set_needs_redraw(&mut self, redraw: bool)
        ensures
            *final(self) == (TheVerticalScrollbar { is_dirty: redraw, ..*old(self) }),
    {
        self.is_dirty = redraw;
    }

    fn state(&self) -> (s: TheWidgetState)
        ensures
            s == self.state,
    {
        self.state
    }

    fn set_state(&mut self, state: TheWidgetState)
        ensures
            *final(self) == (TheVerticalScrollbar { state, is_dirty: true, ..*old(self) }),
    {
        self.state = state;
        self.is_dirty = true;
    }

    fn supports_hover(&mut self) -> (b: bool)
        ensures
            b,
            *final(self) == *old(self),
    {
        true
    }
}

/// The content a vertical scrollbar scrolls: its total height, the visible height and the
/// scroll offset.
pub trait TheVerticalScrollbarTrait {
    /// The size of the content, as a value.
    spec fn content_total(&self) -> i32;

    /// The size of the visible area, as a value.
    spec fn content_viewport(&self) -> i32;

    /// The scroll offset, as a value.
    spec fn content_offset(&self) -> i32;

    fn total_height(&self) -> (v: i32)
        ensures
            v == self.content_total(),
    ;

    fn set_total_height(&mut self, value: i32);

    fn viewport_height(&self) -> (v: i32)
        ensures
            v == self.content_viewport(),
    ;

    fn scroll_offset(&self) -> (v: i32)
        ensures
            v == self.content_offset(),
    ;

    fn set_scroll_offset(&mut self, offset: i32)
        ensures
            final(self).content_offset() == offset,
            final(self).content_total() == old(self).content_total(),
            final(self).content_viewport() == old(self).content_viewport(),
    ;

    /// Scrolls by `delta` (positive scrolls down), keeping the offset within the content:
    /// not below 0, and then not beyond the content's size less the visible size.
    fn scroll_by(&mut self, delta: i32)
        requires
            i32::MIN <= old(self).content_offset() + delta <= i32::MAX,
            i32::MIN <= old(self).content_total() - old(self).content_viewport() <= i32::MAX,
        default_ensures
            final(self).content_offset() == clamped_scroll(
                old(self).content_offset() as int,
                delta as int,
                old(self).content_total() - old(self).content_viewport(),
            ),
            final(self).content_total() == old(self).content_total(),
            final(self).content_viewport() == old(self).content_viewport(),
    {
        let max_offset = self.total_height() - self.viewport_height();
        let offset = clamp_scroll(self.scroll_offset(), delta, max_offset);
        self.set_scroll_offset(offset);
    }

    /// Whether the content is higher than the visible area.
    fn needs_scrollbar(&self) -> bool;
}

impl TheVerticalScrollbarTrait for TheVerticalScrollbar {
    open spec fn content_total(&self) -> i32 {
        self.total_height
    }

    open spec fn content_viewport(&self) -> i32 {
        self.dim.height
    }

    open spec fn content_offset(&self) -> i32 {
        self.scroll_offset
    }

    fn total_height(&self) -> (h: i32)
        ensures
            h == self.total_height,
    {
        self.total_height
    }

    fn set_total_height(&mut self, value: i32)
        ensures
            *final(self) == (TheVerticalScrollbar { total_height: value, ..*old(self) }),
    {
        self.total_height = value;
    }

    fn viewport_height(&self) -> (h: i32)
        ensures
            h == self.dim.height,
    {
        self.dim.height
    }

    fn scroll_offset(&self) -> (o: i32)
        ensures
            o == self.scroll_offset,
    {
        self.scroll_offset
    }

    fn set_scroll_offset(&mut self, offset: i32)
        ensures
            *final(self) == (TheVerticalScrollbar { scroll_offset: offset, ..*old(self) }),
    {
        self.scroll_offset = offset;
    }

    fn scroll_by(&mut self, delta: i32)
        ensures
            *final(self) == (TheVerticalScrollbar {
                scroll_offset: clamped_scroll(
                    old(self).scroll_offset as int,
                    delta as int,
                    old(self).total_height - old(self).dim.height,
                ) as i32,
                ..*old(self)
            }),
    {
        let max_offset = self.total_height - self.dim.height;
        self.scroll_offset = clamp_scroll(self.scroll_offset, delta, max_offset);
    }

    fn needs_scrollbar(&self) -> (b: bool)
        ensures
            b == (self.total_height > self.dim.height),
    {
        self.total_height > self.dim.height
    }
}

} // verus!

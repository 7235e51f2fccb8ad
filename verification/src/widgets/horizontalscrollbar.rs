//! A horizontal scrollbar. Where its thumb stands and how wide it is are computed in
//! floating point by the caller, which hands them over with `set_thumb`; a drag of the
//! thumb leaves the distance dragged for the caller, which scales it to the content.
use vstd::prelude::*;
use crate::widget::{
    dim_contains, dim_zero, only_sent, same_widget, state_event, TheDim, TheEvent,
    TheSizeLimiter, TheUi, TheWidget, TheWidgetId, TheWidgetState, Vec2i,
};
use crate::widgets::verticalscrollbar::{clamp_scroll, clamped_scroll};

verus! {

pub struct TheHorizontalScrollbar {
    pub id: TheWidgetId,
    pub limiter: TheSizeLimiter,
    pub state: TheWidgetState,
    pub scroll_offset: i32,
    pub total_width: i32,
    pub mouse_down_coord: Vec2i,
    pub dim: TheDim,
    pub is_dirty: bool,
    /// Where the thumb stands and how wide it is, as the caller last computed them.
    pub thumb_x: i32,
    pub thumb_width: i32,
    /// The distance the thumb was last dragged, until the caller scrolls the content by it.
    pub pending_thumb_delta: Option<i32>,
}

/// What handling an event asks of the caller: a redraw, and the horizontal distance the
/// thumb was dragged, which the caller turns into a scroll of the content.
#[derive(Clone, Copy, Debug, PartialEq, Eq, Structural)]
pub struct TheScrollbarReply {
    pub redraw: bool,
    pub thumb_delta: Option<i32>,
}

/// The area of the thumb.
pub open spec fn thumb_dim(thumb_x: i32, thumb_width: i32, height: i32) -> TheDim {
    TheDim { x: thumb_x, y: 0, width: thumb_width, height, buffer_x: 0, buffer_y: 0 }
}

/// The offset after a click on the track at `click_x`: a page back left of the thumb, a page
/// on right of it, clamped to the content; unchanged on the thumb.
pub open spec fn track_click_offset(
    offset: int,
    viewport: int,
    total: int,
    click_x: int,
    thumb_x: int,
    thumb_width: int,
) -> int {
    if click_x < thumb_x {
        clamped_scroll(offset, -viewport, total - viewport)
    } else if click_x > thumb_x + thumb_width {
        clamped_scroll(offset, viewport, total - viewport)
    } else {
        offset
    }
}

/// What handling `event` with the thumb at `thumb_x`, `thumb_width` makes of the bar `s`
/// (now `t`) and of the user interface state `u0` (now `u1`), with `reply`: a press on the
/// thumb takes hold of the bar (telling so once) and remembers where; a press beside it
/// pages the content; a drag of the held bar hands back the distance dragged; a release
/// lets go; a hover over the thumb of a bar not held takes the hover, elsewhere it clears it.
pub open spec fn handled_with_thumb(
    s: TheHorizontalScrollbar,
    t: TheHorizontalScrollbar,
    u0: TheUi,
    u1: TheUi,
    event: &TheEvent,
    thumb_x: i32,
    thumb_width: i32,
    reply: TheScrollbarReply,
) -> bool {
    &&& event matches TheEvent::MouseDown(p) ==> {
        let on_thumb = dim_contains(thumb_dim(thumb_x, thumb_width, s.dim.height), *p);
        let grabs = on_thumb && s.state != TheWidgetState::Clicked;
        &&& reply == (TheScrollbarReply { redraw: true, thumb_delta: None })
        &&& grabs ==> t == (TheHorizontalScrollbar {
            state: TheWidgetState::Clicked,
            mouse_down_coord: *p,
            is_dirty: true,
            ..s
        }) && u1.events@ == u0.events@.push(
            state_event(s.id, TheWidgetState::Clicked),
        ) && u1 == (TheUi {
            focus: Some(s.id),
            events: u1.events,
            ..u0
        })
        &&& on_thumb && !grabs ==> t == (TheHorizontalScrollbar {
            is_dirty: true,
            ..s
        }) && u1 == u0
        &&& !on_thumb ==> t == (TheHorizontalScrollbar {
            scroll_offset: track_click_offset(
                s.scroll_offset as int,
                s.dim.width as int,
                s.total_width as int,
                p.x as int,
                thumb_x as int,
                thumb_width as int,
            ) as i32,
            is_dirty: true,
            ..s
        }) && u1 == u0
    }
    &&& event matches TheEvent::MouseDragged(p) ==> {
        let held = s.state == TheWidgetState::Clicked;
        &&& u1 == u0
        &&& held ==> reply == (TheScrollbarReply {
            redraw: true,
            thumb_delta: Some((p.x - s.mouse_down_coord.x) as i32),
        }) && t == (TheHorizontalScrollbar {
            mouse_down_coord: *p,
            is_dirty: true,
            ..s
        })
        &&& !held ==> reply == (TheScrollbarReply { redraw: false, thumb_delta: None })
            && t == s
    }
    &&& event is MouseUp ==> {
        let lets_go = s.state == TheWidgetState::Clicked;
        &&& reply == (TheScrollbarReply { redraw: true, thumb_delta: None })
        &&& t == (TheHorizontalScrollbar {
            state: if lets_go { TheWidgetState::Normal } else { s.state },
            is_dirty: true,
            ..s
        })
        &&& lets_go ==> only_sent(
            u0,
            u1,
            seq![state_event(s.id, TheWidgetState::Normal)],
        )
        &&& !lets_go ==> u1 == u0
    }
    &&& event matches TheEvent::Hover(p) ==> {
        let free = s.state != TheWidgetState::Clicked;
        let on_thumb = dim_contains(thumb_dim(thumb_x, thumb_width, s.dim.height), *p);
        let takes = free && on_thumb && !same_widget(&s.id, &u0.hover);
        let clears = free && !on_thumb;
        &&& reply == (TheScrollbarReply { redraw: takes || clears, thumb_delta: None })
        &&& takes ==> t == (TheHorizontalScrollbar { is_dirty: true, ..s })
            && u1 == (TheUi { hover: Some(s.id), ..u0 })
        &&& clears ==> t == (TheHorizontalScrollbar { is_dirty: true, ..s })
            && u1 == (TheUi { hover: None, ..u0 })
        &&& !takes && !clears ==> t == s && u1 == u0
    }
    &&& !(event is MouseDown) && !(event is MouseDragged) && !(event is MouseUp)
        && !(event is Hover) ==> reply == (TheScrollbarReply {
        redraw: false,
        thumb_delta: None,
    }) && t == s && u1 == u0
}

impl TheHorizontalScrollbar {
    /// Hands over where the thumb stands and how wide it is.
    pub fn set_thumb(&mut self, thumb_x: i32, thumb_width: i32)
        ensures
            *final(self) == (TheHorizontalScrollbar { thumb_x, thumb_width, ..*old(self) }),
    {
        self.thumb_x = thumb_x;
        self.thumb_width = thumb_width;
    }

    /// Takes the distance the thumb was last dragged, leaving none.
    pub fn take_thumb_delta(&mut self) -> (d: Option<i32>)
        ensures
            d == old(self).pending_thumb_delta,
            *final(self) == (TheHorizontalScrollbar { pending_thumb_delta: None, ..*old(self) }),
    {
        let d = self.pending_thumb_delta;
        self.pending_thumb_delta = None;
        d
    }

    /// The machine integers the content and a page of it need.
    pub open spec fn pages_fit(&self) -> bool {
        &&& i32::MIN <= self.total_width - self.dim.width <= i32::MAX
        &&& i32::MIN <= self.scroll_offset - self.dim.width <= i32::MAX
        &&& i32::MIN <= self.scroll_offset + self.dim.width <= i32::MAX
    }

    /// The offset after a click on the track at `click_x`, given the thumb.
    pub fn scroll_from_track_click(&mut self, click_x: i32, thumb_x: i32, thumb_width: i32)
        requires
            old(self).pages_fit(),
            i32::MIN <= thumb_x + thumb_width <= i32::MAX,
        ensures
            *final(self) == (TheHorizontalScrollbar {
                scroll_offset: track_click_offset(
                    old(self).scroll_offset as int,
                    old(self).dim.width as int,
                    old(self).total_width as int,
                    click_x as int,
                    thumb_x as int,
                    thumb_width as int,
                ) as i32,
                ..*old(self)
            }),
    {
        let thumb_end = thumb_x + thumb_width;
        let max_offset = self.total_width - self.dim.width;
        if click_x < thumb_x {
            self.scroll_offset = clamp_scroll(self.scroll_offset - self.dim.width, 0, max_offset);
        } else if click_x > thumb_end {
            self.scroll_offset = clamp_scroll(self.scroll_offset + self.dim.width, 0, max_offset);
        }
    }

    /// What an event needs, given the thumb.
    pub open spec fn accepts_with_thumb(&self, event: &TheEvent, thumb_x: i32, thumb_width: i32) -> bool {
        &&& event matches TheEvent::MouseDown(p) ==> !dim_contains(
            thumb_dim(thumb_x, thumb_width, self.dim.height),
            *p,
        ) ==> self.pages_fit() && i32::MIN <= thumb_x + thumb_width <= i32::MAX
        &&& event matches TheEvent::MouseDragged(p) ==> self.state == TheWidgetState::Clicked ==> {
            &&& i32::MIN <= p.x - self.mouse_down_coord.x <= i32::MAX
            &&& i32::MIN <= p.y - self.mouse_down_coord.y <= i32::MAX
        }
    }

    /// A press on the thumb takes hold of the bar (telling so once) and remembers where; a
    /// press beside it pages the content; a drag of the held bar hands back the distance
    /// dragged; a release lets go; a hover over the thumb of a bar not held takes the hover,
    /// elsewhere it clears it.
    pub fn on_event_with_thumb(
        &mut self,
        event: &TheEvent,
        ui: &mut TheUi,
        thumb_x: i32,
        thumb_width: i32,
    ) -> (reply: TheScrollbarReply)
        requires
            old(self).accepts_with_thumb(event, thumb_x, thumb_width),
        ensures
            handled_with_thumb(
                *old(self),
                *final(self),
                *old(ui),
                *final(ui),
                event,
                thumb_x,
                thumb_width,
                reply,
            ),
    {
        let mut redraw = false;
        let mut thumb_delta: Option<i32> = None;
        match event {
            TheEvent::MouseDown(coord) => {
                let thumb = TheDim::new(thumb_x, 0, thumb_width, self.dim.height);
                if thumb.contains(*coord) {
                    self.is_dirty = true;
                    if self.state != TheWidgetState::Clicked {
                        self.state = TheWidgetState::Clicked;
                        ui.send_widget_state_changed(&self.id, self.state);
                        ui.set_focus(&self.id);
                        self.mouse_down_coord = *coord;
                    }
                } else {
                    self.is_dirty = true;
                    self.scroll_from_track_click(coord.x, thumb_x, thumb_width);
                }
                redraw = true;
            },
            TheEvent::MouseDragged(coord) => {
                if self.state == TheWidgetState::Clicked {
                    self.is_dirty = true;
                    redraw = true;
                    let d = Vec2i::new(coord.x - self.mouse_down_coord.x, coord.y - self.mouse_down_coord.y);
                    thumb_delta = Some(d.x);
                    self.mouse_down_coord = *coord;
                }
            },
            TheEvent::MouseUp(_) => {
                self.is_dirty = true;
                if self.state == TheWidgetState::Clicked {
                    self.state = TheWidgetState::Normal;
                    ui.send_widget_state_changed(&self.id, self.state);
                }
                redraw = true;
            },
            TheEvent::Hover(coord) => {
                if self.state != TheWidgetState::Clicked {
                    let thumb = TheDim::new(thumb_x, 0, thumb_width, self.dim.height);
                    if thumb.contains(*coord) {
                        if !self.id.equals(&ui.hover) {
                            self.is_dirty = true;
                            ui.set_hover(&self.id);
                            redraw = true;
                        }
                    } else {
                        self.is_dirty = true;
                        ui.clear_hover();
                        redraw = true;
                    }
                }
            },
            _ => {},
        }
        TheScrollbarReply { redraw, thumb_delta }
    }
}

impl TheWidget for TheHorizontalScrollbar {
    fn new(name: String) -> (w: Self)
        ensures
            w.id.name@ == name@,
            w.limiter.max_width == i32::MAX && w.limiter.max_height == 20,
            w.state == TheWidgetState::Normal,
            w.scroll_offset == 0 && w.total_width == 0,
            w.mouse_down_coord == (Vec2i { x: 0, y: 0 }),
            w.dim == dim_zero(),
            !w.is_dirty,
            w.thumb_x == 0 && w.thumb_width == 0,
            w.pending_thumb_delta is None,
    {
        let mut limiter = TheSizeLimiter::new();
        limiter.set_max_height(20);
        TheHorizontalScrollbar {
            id: TheWidgetId::new(name),
            limiter,
            state: TheWidgetState::Normal,
            scroll_offset: 0,
            total_width: 0,
            mouse_down_coord: Vec2i::zero(),
            dim: TheDim::zero(),
            is_dirty: false,
            thumb_x: 0,
            thumb_width: 0,
            pending_thumb_delta: None,
        }
    }

    fn id(&self) -> (id: &TheWidgetId)
        ensures
            *id == self.id,
    {
        &self.id
    }

    open spec fn accepts(&self, event: &TheEvent) -> bool {
        self.accepts_with_thumb(event, self.thumb_x, self.thumb_width)
    }

    /// Handles an event with the thumb last handed over (see `handled_with_thumb`), and
    /// leaves the distance a drag moved the thumb, if any, for the caller.
    fn on_event(&mut self, event: &TheEvent, ui: &mut TheUi) -> (redraw: bool)
        ensures
            handled_with_thumb(
                *old(self),
                TheHorizontalScrollbar {
                    pending_thumb_delta: old(self).pending_thumb_delta,
                    ..*final(self)
                },
                *old(ui),
                *final(ui),
                event,
                old(self).thumb_x,
                old(self).thumb_width,
                TheScrollbarReply { redraw, thumb_delta: final(self).pending_thumb_delta },
            ),
    {
        let thumb_x = self.thumb_x;
        let thumb_width = self.thumb_width;
        let reply = self.on_event_with_thumb(event, ui, thumb_x, thumb_width);
        self.pending_thumb_delta = reply.thumb_delta;
        reply.redraw
    }

    fn limiter(&self) -> (l: &TheSizeLimiter)
        ensures
            *l == self.limiter,
    {
        &self.limiter
    }

    fn limiter_mut(&mut self) -> (l: &mut TheSizeLimiter)
        ensures
            *l == old(self).limiter,
            *final(self) == (TheHorizontalScrollbar { limiter: *final(l), ..*old(self) }),
    {
        &mut self.limiter
    }

    open spec fn current_dim(&self) -> TheDim {
        self.dim
    }

    fn dim(&self) -> (d: &TheDim)
        ensures
            *d == self.dim,
    {
        &self.dim
    }

    fn dim_mut(&mut self) -> (d: &mut TheDim)
        ensures
            *d == old(self).dim,
            *final(self) == (TheHorizontalScrollbar { dim: *final(d), ..*old(self) }),
    {
        &mut self.dim
    }

    fn set_dim(&mut self, dim: TheDim)
        ensures
            *final(self) == (TheHorizontalScrollbar {
                dim,
                is_dirty: old(self).is_dirty || old(self).dim != dim,
                ..*old(self)
            }),
    {
        if self.dim != dim {
            self.dim = dim;
            self.is_dirty = true;
        }
    }

    fn needs_redraw(&mut self) -> (b: bool)
        ensures
            b == old(self).is_dirty,
            *final(self) == *old(self),
    {
        self.is_dirty
    }

    fn set_needs_redraw(&mut self, redraw: bool)
        ensures
            *final(self) == (TheHorizontalScrollbar { is_dirty: redraw, ..*old(self) }),
    {
        self.is_dirty = redraw;
    }

    fn state(&self) -> (s: TheWidgetState)
        ensures
            s == self.state,
    {
        self.state
    }

    fn set_state(&mut self, state: TheWidgetState)
        ensures
            *final(self) == (TheHorizontalScrollbar { state, is_dirty: true, ..*old(self) }),
    {
        self.state = state;
        self.is_dirty = true;
    }

    fn supports_hover(&mut self) -> (b: bool)
        ensures
            b,
            *final(self) == *old(self),
    {
        true
    }
}

/// The content a horizontal scrollbar scrolls: its total width, the visible width and the
/// scroll offset.
pub trait TheHorizontalScrollbarTrait {
    /// The size of the content, as a value.
    spec fn content_total(&self) -> i32;

    /// The size of the visible area, as a value.
    spec fn content_viewport(&self) -> i32;

    /// The scroll offset, as a value.
    spec fn content_offset(&self) -> i32;

    fn total_width(&self) -> (v: i32)
        ensures
            v == self.content_total(),
    ;

    fn set_total_width(&mut self, value: i32);

    fn viewport_width(&self) -> (v: i32)
        ensures
            v == self.content_viewport(),
    ;

    fn scroll_offset(&self) -> (v: i32)
        ensures
            v == self.content_offset(),
    ;

    fn set_scroll_offset(&mut self, offset: i32)
        ensures
            final(self).content_offset() == offset,
            final(self).content_total() == old(self).content_total(),
            final(self).content_viewport() == old(self).content_viewport(),
    ;

    /// Scrolls by `delta` (positive scrolls right), keeping the offset within the content:
    /// not below 0, and then not beyond the content's size less the visible size.
    fn scroll_by(&mut self, delta: i32)
        requires
            i32::MIN <= old(self).content_offset() + delta <= i32::MAX,
            i32::MIN <= old(self).content_total() - old(self).content_viewport() <= i32::MAX,
        default_ensures
            final(self).content_offset() == clamped_scroll(
                old(self).content_offset() as int,
                delta as int,
                old(self).content_total() - old(self).content_viewport(),
            ),
            final(self).content_total() == old(self).content_total(),
            final(self).content_viewport() == old(self).content_viewport(),
    {
        let max_offset = self.total_width() - self.viewport_width();
        let offset = clamp_scroll(self.scroll_offset(), delta, max_offset);
        self.set_scroll_offset(offset);
    }

    /// Whether the content is wider than the visible area.
    fn needs_scrollbar(&self) -> bool;
}

impl TheHorizontalScrollbarTrait for TheHorizontalScrollbar {
    open spec fn content_total(&self) -> i32 {
        self.total_width
    }

    open spec fn content_viewport(&self) -> i32 {
        self.dim.width
    }

    open spec fn content_offset(&self) -> i32 {
        self.scroll_offset
    }

    fn total_width(&self) -> (w: i32)
        ensures
            w == self.total_width,
    {
        self.total_width
    }

    fn set_total_width(&mut self, value: i32)
        ensures
            *final(self) == (TheHorizontalScrollbar { total_width: value, ..*old(self) }),
    {
        self.total_width = value;
    }

    fn viewport_width(&self) -> (w: i32)
        ensures
            w == self.dim.width,
    {
        self.dim.width
    }

    fn scroll_offset(&self) -> (o: i32)
        ensures
            o == self.scroll_offset,
    {
        self.scroll_offset
    }

    fn set_scroll_offset(&mut self, offset: i32)
        ensures
            *final(self) == (TheHorizontalScrollbar { scroll_offset: offset, ..*old(self) }),
    {
        self.scroll_offset = offset;
    }

    fn scroll_by(&mut self, delta: i32)
        ensures
            *final(self) == (TheHorizontalScrollbar {
                scroll_offset: clamped_scroll(
                    old(self).scroll_offset as int,
                    delta as int,
                    old(self).total_width - old(self).dim.width,
                ) as i32,
                ..*old(self)
            }),
    {
        let max_offset = self.total_width - self.dim.width;
        self.scroll_offset = clamp_scroll(self.scroll_offset, delta, max_offset);
    }

    fn needs_scrollbar(&self) -> (b: bool)
        ensures
            b == (self.total_width > self.dim.width),
    {
        self.total_width > self.dim.width
    }
}

} // verus!

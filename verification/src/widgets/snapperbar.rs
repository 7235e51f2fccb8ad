//! The bar of a collapsible section: a press and release opens or closes it.
use vstd::prelude::*;
use crate::widget::{
    dim_zero, same_widget, state_event, TheDim, TheEvent, TheSizeLimiter, TheUi, TheWidget,
    TheWidgetId, TheWidgetState,
};

verus! {

pub struct TheSnapperbar {
    pub id: TheWidgetId,
    pub limiter: TheSizeLimiter,
    pub state: TheWidgetState,
    pub open: bool,
    /// The number of the canvas that collapses with the section.
    pub collapse_uuid: Option<u128>,
    pub dim: TheDim,
    pub text: String,
    pub is_dirty: bool,
}

/// The bar after a press: held, and to be redrawn.
pub open spec fn snapper_pressed(s: TheSnapperbar) -> TheSnapperbar {
    TheSnapperbar { state: TheWidgetState::Clicked, is_dirty: true, ..s }
}

/// The bar after a release: a held bar lets go and flips between open and closed.
pub open spec fn snapper_released(s: TheSnapperbar) -> TheSnapperbar {
    if s.state == TheWidgetState::Clicked {
        TheSnapperbar { state: TheWidgetState::Normal, open: !s.open, is_dirty: true, ..s }
    } else {
        TheSnapperbar { is_dirty: true, ..s }
    }
}

impl TheWidget for TheSnapperbar {
    fn new(name: String) -> (w: Self)
        ensures
            w.id.name@ == name@,
            w.limiter.max_width == i32::MAX && w.limiter.max_height == 22,
            w.state == TheWidgetState::Normal,
            w.open,
            w.collapse_uuid is None,
            w.dim == dim_zero(),
            w.text@ == Seq::<char>::empty(),
            !w.is_dirty,
    {
        let mut limiter = TheSizeLimiter::new();
        limiter.set_max_height(22);
        TheSnapperbar {
            id: TheWidgetId::new(name),
            limiter,
            state: TheWidgetState::Normal,
            open: true,
            collapse_uuid: None,
            dim: TheDim::zero(),
            text: String::new(),
            is_dirty: false,
        }
    }

    fn id(&self) -> (id: &TheWidgetId)
        ensures
            *id == self.id,
    {
        &self.id
    }

    fn limiter(&self) -> (l: &TheSizeLimiter)
        ensures
            *l == self.limiter,
    {
        &self.limiter
    }

    fn limiter_mut(&mut self) -> (l: &mut TheSizeLimiter)
        ensures
            *l == old(self).limiter,
            *final(self) == (TheSnapperbar { limiter: *final(l), ..*old(self) }),
    {
        &mut self.limiter
    }

    open spec fn current_dim(&self) -> TheDim {
        self.dim
    }

    fn dim(&self) -> (d: &TheDim)
        ensures
            *d == self.dim,
    {
        &self.dim
    }

    fn dim_mut(&mut self) -> (d: &mut TheDim)
        ensures
            *d == old(self).dim,
            *final(self) == (TheSnapperbar { dim: *final(d), ..*old(self) }),
    {
        &mut self.dim
    }

    fn set_dim(&mut self, dim: TheDim)
        ensures
            *final(self) == (TheSnapperbar {
                dim,
                is_dirty: old(self).is_dirty || old(self).dim != dim,
                ..*old(self)
            }),
    {
        if self.dim != dim {
            self.dim = dim;
            self.is_dirty = true;
        }
    }

    fn state(&self) -> (s: TheWidgetState)
        ensures
            s == self.state,
    {
        self.state
    }

    fn set_state(&mut self, state: TheWidgetState)
        ensures
            *final(self) == (TheSnapperbar { state, is_dirty: true, ..*old(self) }),
    {
        self.state = state;
        self.is_dirty = true;
    }

    fn supports_hover(&mut self) -> (b: bool)
        ensures
            b,
            *final(self) == *old(self),
    {
        true
    }

    fn is_open(&self) -> bool
        returns
            self.open,
    {
        self.open
    }

    fn needs_redraw(&mut self) -> (b: bool)
        ensures
            b == old(self).is_dirty,
            *final(self) == *old(self),
    {
        self.is_dirty
    }

    fn set_needs_redraw(&mut self, redraw: bool)
        ensures
            *final(self) == (TheSnapperbar { is_dirty: redraw, ..*old(self) }),
    {
        self.is_dirty = redraw;
    }

    open spec fn accepts(&self, event: &TheEvent) -> bool {
        true
    }

    /// A press takes hold of the bar (telling so once, and taking the focus); a release of
    /// the held bar lets go, opens a closed section or closes an open one, and asks for a
    /// new layout and a redraw of everything; a hover over a bar not held takes the hover.
    fn on_event(&mut self, event: &TheEvent, ui: &mut TheUi) -> (redraw: bool)
        ensures
            event is MouseDown ==> {
                let grabs = old(self).state != TheWidgetState::Clicked;
                &&& redraw
                &&& *final(self) == snapper_pressed(*old(self))
                &&& grabs ==> final(ui).events@ == old(ui).events@.push(
                    state_event(old(self).id, TheWidgetState::Clicked),
                ) && *final(ui) == (TheUi {
                    focus: Some(old(self).id),
                    events: final(ui).events,
                    ..*old(ui)
                })
                &&& !grabs ==> *final(ui) == *old(ui)
            },
            event is MouseUp ==> {
                let lets_go = old(self).state == TheWidgetState::Clicked;
                &&& redraw
                &&& *final(self) == snapper_released(*old(self))
                &&& lets_go ==> final(ui).events@ == old(ui).events@.push(
                    state_event(old(self).id, TheWidgetState::Normal),
                ) && *final(ui) == (TheUi {
                    redraw_all: true,
                    relayout: true,
                    events: final(ui).events,
                    ..*old(ui)
                })
                &&& !lets_go ==> *final(ui) == *old(ui)
            },
            event is Hover ==> {
                let takes = old(self).state != TheWidgetState::Clicked
                    && !same_widget(&old(self).id, &old(ui).hover);
                &&& redraw == takes
                &&& takes ==> *final(self) == (TheSnapperbar { is_dirty: true, ..*old(self) })
                    && *final(ui) == (TheUi { hover: Some(old(self).id), ..*old(ui) })
                &&& !takes ==> *final(self) == *old(self) && *final(ui) == *old(ui)
            },
            !(event is MouseDown) && !(event is MouseUp) && !(event is Hover) ==> !redraw
                && *final(self) == *old(self) && *final(ui) == *old(ui),
    {
        let mut redraw = false;
        match event {
            TheEvent::MouseDown(_) => {
                self.is_dirty = true;
                if self.state != TheWidgetState::Clicked {
                    self.state = TheWidgetState::Clicked;
                    ui.send_widget_state_changed(&self.id, self.state);
                    ui.set_focus(&self.id);
                }
                redraw = true;
            },
            TheEvent::MouseUp(_) => {
                self.is_dirty = true;
                if self.state == TheWidgetState::Clicked {
                    self.state = TheWidgetState::Normal;
                    ui.send_widget_state_changed(&self.id, self.state);
                    self.open = !self.open;
                    ui.redraw_all = true;
                    ui.relayout = true;
                }
                redraw = true;
            },
            TheEvent::Hover(_) => {
                if self.state != TheWidgetState::Clicked && !self.id.equals(&ui.hover) {
                    self.is_dirty = true;
                    ui.set_hover(&self.id);
                    redraw = true;
                }
            },
            _ => {},
        }
        redraw
    }
}

/// Setting up a snapper bar.
pub trait TheSnapperbarTrait {
    fn set_text(&mut self, text: String);

    fn set_canvas_collapse_uuid(&mut self, collapse: u128);

    fn is_open(&self) -> bool;
}

impl TheSnapperbarTrait for TheSnapperbar {
    fn set_text(&mut self, text: String)
        ensures
            *final(self) == (TheSnapperbar { text, is_dirty: true, ..*old(self) }),
    {
        self.text = text;
        self.is_dirty = true;
    }

    fn set_canvas_collapse_uuid(&mut self, collapse: u128)
        ensures
            *final(self) == (TheSnapperbar { collapse_uuid: Some(collapse), ..*old(self) }),
    {
        self.collapse_uuid = Some(collapse);
    }

    fn is_open(&self) -> bool
        returns
            self.open,
    {
        self.open
    }
}

} // verus!

//! A button of a section bar: pressing it selects it.
use vstd::prelude::*;
use crate::widget::{TheSizeLimiter, 
    dim_zero, only_sent, same_widget, state_event, TheDim, TheEvent, TheUi, TheWidget,
    TheWidgetId, TheWidgetState,
};

verus! {

pub struct TheSectionbarButton {
    pub widget_id: TheWidgetId,
    pub limiter: TheSizeLimiter,
    pub state: TheWidgetState,
    pub dim: TheDim,
    pub text: String,
    pub is_dirty: bool,
}

impl TheWidget for TheSectionbarButton {
    fn new(name: String) -> (w: Self)
        ensures
            w.widget_id.name@ == name@,
            w.limiter.max_width == i32::MAX && w.limiter.max_height == i32::MAX,
            w.state == TheWidgetState::Normal,
            w.dim == dim_zero(),
            w.text@ == Seq::<char>::empty(),
            !w.is_dirty,
    {
        TheSectionbarButton {
            widget_id: TheWidgetId::new(name),
            limiter: TheSizeLimiter::new(),
            state: TheWidgetState::Normal,
            dim: TheDim::zero(),
            text: String::new(),
            is_dirty: false,
        }
    }

    fn id(&self) -> (id: &TheWidgetId)
        ensures
            *id == self.widget_id,
    {
        &self.widget_id
    }

    /// A press selects the button (and tells so once); a hover over a button that is not
    /// selected takes the hover.
    open spec fn accepts(&self, event: &TheEvent) -> bool {
        true
    }

    fn on_event(&mut self, event: &TheEvent, ui: &mut TheUi) -> (redraw: bool)
        ensures
            event is MouseDown ==> {
                &&& redraw
                &&& *final(self) == (TheSectionbarButton {
                    state: TheWidgetState::Selected,
                    is_dirty: true,
                    ..*old(self)
                })
                &&& old(self).state != TheWidgetState::Selected ==> only_sent(
                    *old(ui),
                    *final(ui),
                    seq![state_event(old(self).widget_id, TheWidgetState::Selected)],
                )
                &&& old(self).state == TheWidgetState::Selected ==> *final(ui) == *old(ui)
            },
            event is Hover ==> {
                let takes = old(self).state != TheWidgetState::Selected
                    && !same_widget(&old(self).widget_id, &old(ui).hover);
                &&& redraw == takes
                &&& takes ==> *final(self) == (TheSectionbarButton { is_dirty: true, ..*old(self) })
                    && *final(ui) == (TheUi { hover: Some(old(self).widget_id), ..*old(ui) })
                &&& !takes ==> *final(self) == *old(self) && *final(ui) == *old(ui)
            },
            !(event is MouseDown) && !(event is Hover) ==> !redraw && *final(self) == *old(self)
                && *final(ui) == *old(ui),
    {
        let mut redraw = false;
        match event {
            TheEvent::MouseDown(_) => {
                self.is_dirty = true;
                if self.state != TheWidgetState::Selected {
                    self.state = TheWidgetState::Selected;
                    ui.send_widget_state_changed(&self.widget_id, self.state);
                }
                redraw = true;
            },
            TheEvent::Hover(_) => {
                if self.state != TheWidgetState::Selected && !self.widget_id.equals(&ui.hover) {
                    self.is_dirty = true;
                    ui.set_hover(&self.widget_id);
                    redraw = true;
                }
            },
            _ => {},
        }
        redraw
    }

    fn limiter(&self) -> (l: &TheSizeLimiter)
        ensures
            *l == self.limiter,
    {
        &self.limiter
    }

    fn limiter_mut(&mut self) -> (l: &mut TheSizeLimiter)
        ensures
            *l == old(self).limiter,
            *final(self) == (TheSectionbarButton { limiter: *final(l), ..*old(self) }),
    {
        &mut self.limiter
    }

    open spec fn current_dim(&self) -> TheDim {
        self.dim
    }

    fn dim(&self) -> (d: &TheDim)
        ensures
            *d == self.dim,
    {
        &self.dim
    }

    fn dim_mut(&mut self) -> (d: &mut TheDim)
        ensures
            *d == old(self).dim,
            *final(self) == (TheSectionbarButton { dim: *final(d), ..*old(self) }),
    {
        &mut self.dim
    }

    fn set_dim(&mut self, dim: TheDim)
        ensures
            *final(self) == (TheSectionbarButton {
                dim,
                is_dirty: old(self).is_dirty || old(self).dim != dim,
                ..*old(self)
            }),
    {
        if self.dim != dim {
            self.dim = dim;
            self.is_dirty = true;
        }
    }

    fn state(&self) -> (s: TheWidgetState)
        ensures
            s == self.state,
    {
        self.state
    }

    fn set_state(&mut self, state: TheWidgetState)
        ensures
            *final(self) == (TheSectionbarButton { state, is_dirty: true, ..*old(self) }),
    {
        self.state = state;
        self.is_dirty = true;
    }

    fn supports_hover(&mut self) -> (b: bool)
        ensures
            b,
            *final(self) == *old(self),
    {
        true
    }

    fn needs_redraw(&mut self) -> (b: bool)
        ensures
            b == old(self).is_dirty,
            *final(self) == *old(self),
    {
        self.is_dirty
    }

    fn set_needs_redraw(&mut self, redraw: bool)
        ensures
            *final(self) == (TheSectionbarButton { is_dirty: redraw, ..*old(self) }),
    {
        self.is_dirty = redraw;
    }
}

/// Setting the text of a section bar button.
pub trait TheSectionbarButtonTrait {
    fn set_text(&mut self, text: String);
}

impl TheSectionbarButtonTrait for TheSectionbarButton {
    fn set_text(&mut self, text: String)
        ensures
            *final(self) == (TheSectionbarButton { text, ..*old(self) }),
    {
        self.text = text;
    }
}

} // verus!

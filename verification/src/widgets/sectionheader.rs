//! The header of a section: pressing it takes the focus.
use vstd::prelude::*;
use crate::widget::{TheSizeLimiter, dim_zero, TheDim, TheEvent, TheUi, TheWidget, TheWidgetId, TheWidgetState};

verus! {

pub struct TheSectionHeader {
    pub widget_id: TheWidgetId,
    pub limiter: TheSizeLimiter,
    pub widget_state: TheWidgetState,
    pub dim: TheDim,
    pub text: String,
}

impl TheWidget for TheSectionHeader {
    fn new(name: String) -> (w: Self)
        ensures
            w.widget_id.name@ == name@,
            w.limiter.max_width == i32::MAX && w.limiter.max_height == i32::MAX,
            w.widget_state == TheWidgetState::Normal,
            w.dim == dim_zero(),
            w.text@ == Seq::<char>::empty(),
    {
        TheSectionHeader {
            widget_id: TheWidgetId::new(name),
            limiter: TheSizeLimiter::new(),
            widget_state: TheWidgetState::Normal,
            dim: TheDim::zero(),
            text: String::new(),
        }
    }

    fn id(&self) -> (id: &TheWidgetId)
        ensures
            *id == self.widget_id,
    {
        &self.widget_id
    }

    fn state(&self) -> (s: TheWidgetState)
        ensures
            s == self.widget_state,
    {
        self.widget_state
    }

    /// A press takes the focus; nothing else is handled.
    open spec fn accepts(&self, event: &TheEvent) -> bool {
        true
    }

    fn on_event(&mut self, event: &TheEvent, ui: &mut TheUi) -> (redraw: bool)
        ensures
            !redraw,
            *final(self) == *old(self),
            event is MouseDown ==> *final(ui) == (TheUi {
                focus: Some(old(self).widget_id),
                ..*old(ui)
            }),
            !(event is MouseDown) ==> *final(ui) == *old(ui),
    {
        match event {
            TheEvent::MouseDown(_) => {
                ui.set_focus(&self.widget_id);
            },
            _ => {},
        }
        false
    }

    fn limiter(&self) -> (l: &TheSizeLimiter)
        ensures
            *l == self.limiter,
    {
        &self.limiter
    }

    fn limiter_mut(&mut self) -> (l: &mut TheSizeLimiter)
        ensures
            *l == old(self).limiter,
            *final(self) == (TheSectionHeader { limiter: *final(l), ..*old(self) }),
    {
        &mut self.limiter
    }

    open spec fn current_dim(&self) -> TheDim {
        self.dim
    }

    fn dim(&self) -> (d: &TheDim)
        ensures
            *d == self.dim,
    {
        &self.dim
    }

    fn dim_mut(&mut self) -> (d: &mut TheDim)
        ensures
            *d == old(self).dim,
            *final(self) == (TheSectionHeader { dim: *final(d), ..*old(self) }),
    {
        &mut self.dim
    }

    fn set_dim(&mut self, dim: TheDim)
        ensures
            *final(self) == (TheSectionHeader { dim, ..*old(self) }),
    {
        self.dim = dim;
    }
}

/// Setting the text of a section header.
pub trait TheSectionHeaderTrait {
    fn set_text(&mut self, text: String);
}

impl TheSectionHeaderTrait for TheSectionHeader {
    fn set_text(&mut self, text: String)
        ensures
            *final(self) == (TheSectionHeader { text, ..*old(self) }),
    {
        self.text = text;
    }
}

} // verus!

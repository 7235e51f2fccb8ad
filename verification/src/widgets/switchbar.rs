//! A bar that switches between sections; it does not react to events.
use vstd::prelude::*;
use crate::widget::{TheSizeLimiter, dim_zero, TheDim, TheEvent, TheUi, TheWidget, TheWidgetId};

verus! {

pub struct TheSwitchbar {
    pub widget_id: TheWidgetId,
    pub limiter: TheSizeLimiter,
    pub dim: TheDim,
    pub text: String,
    pub is_dirty: bool,
}

impl TheWidget for TheSwitchbar {
    fn new(name: String) -> (w: Self)
        ensures
            w.widget_id.name@ == name@,
            w.limiter.max_width == i32::MAX && w.limiter.max_height == i32::MAX,
            w.dim == dim_zero(),
            w.text@ == Seq::<char>::empty(),
            !w.is_dirty,
    {
        TheSwitchbar {
            widget_id: TheWidgetId::new(name),
            limiter: TheSizeLimiter::new(),
            dim: TheDim::zero(),
            text: String::new(),
            is_dirty: false,
        }
    }

    fn id(&self) -> (id: &TheWidgetId)
        ensures
            *id == self.widget_id,
    {
        &self.widget_id
    }

    open spec fn accepts(&self, event: &TheEvent) -> bool {
        true
    }

    fn on_event(&mut self, event: &TheEvent, ui: &mut TheUi) -> (redraw: bool)
        ensures
            !redraw,
            *final(self) == *old(self),
            *final(ui) == *old(ui),
    {
        false
    }

    fn limiter(&self) -> (l: &TheSizeLimiter)
        ensures
            *l == self.limiter,
    {
        &self.limiter
    }

    fn limiter_mut(&mut self) -> (l: &mut TheSizeLimiter)
        ensures
            *l == old(self).limiter,
            *final(self) == (TheSwitchbar { limiter: *final(l), ..*old(self) }),
    {
        &mut self.limiter
    }

    open spec fn current_dim(&self) -> TheDim {
        self.dim
    }

    fn dim(&self) -> (d: &TheDim)
        ensures
            *d == self.dim,
    {
        &self.dim
    }

    fn dim_mut(&mut self) -> (d: &mut TheDim)
        ensures
            *d == old(self).dim,
            *final(self) == (TheSwitchbar { dim: *final(d), ..*old(self) }),
    {
        &mut self.dim
    }

    fn set_dim(&mut self, dim: TheDim)
        ensures
            *final(self) == (TheSwitchbar {
                dim,
                is_dirty: old(self).is_dirty || old(self).dim != dim,
                ..*old(self)
            }),
    {
        if self.dim != dim {
            self.dim = dim;
            self.is_dirty = true;
        }
    }

    fn needs_redraw(&mut self) -> (b: bool)
        ensures
            b == old(self).is_dirty,
            *final(self) == *old(self),
    {
        self.is_dirty
    }
}

/// Setting the text of a switch bar.
pub trait TheSectionHeaderTrait {
    fn set_text(&mut self, text: String);
}

impl TheSectionHeaderTrait for TheSwitchbar {
    fn set_text(&mut self, text: String)
        ensures
            *final(self) == (TheSwitchbar { text, ..*old(self) }),
    {
        self.text = text;
    }
}

} // verus!

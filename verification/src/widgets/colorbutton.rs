//! A button that shows a color.
use vstd::prelude::*;
use crate::widget::{TheSizeLimiter, dim_zero, RGBA, TheDim, TheEvent, TheUi, TheWidget, TheWidgetId};

verus! {

/// The color white.
pub const WHITE: RGBA = [255u8, 255u8, 255u8, 255u8];

pub struct TheColorButton {
    pub widget_id: TheWidgetId,
    pub limiter: TheSizeLimiter,
    pub dim: TheDim,
    pub color: RGBA,
    pub is_dirty: bool,
}

impl TheWidget for TheColorButton {
    fn new(name: String) -> (w: Self)
        ensures
            w.widget_id.name@ == name@,
            w.limiter.max_width == i32::MAX && w.limiter.max_height == i32::MAX,
            w.dim == dim_zero(),
            w.color == WHITE,
            !w.is_dirty,
    {
        TheColorButton {
            widget_id: TheWidgetId::new(name),
            limiter: TheSizeLimiter::new(),
            dim: TheDim::zero(),
            color: WHITE,
            is_dirty: false,
        }
    }

    fn id(&self) -> (id: &TheWidgetId)
        ensures
            *id == self.widget_id,
    {
        &self.widget_id
    }

    fn limiter(&self) -> (l: &TheSizeLimiter)
        ensures
            *l == self.limiter,
    {
        &self.limiter
    }

    fn limiter_mut(&mut self) -> (l: &mut TheSizeLimiter)
        ensures
            *l == old(self).limiter,
            *final(self) == (TheColorButton { limiter: *final(l), ..*old(self) }),
    {
        &mut self.limiter
    }

    open spec fn current_dim(&self) -> TheDim {
        self.dim
    }

    fn dim(&self) -> (d: &TheDim)
        ensures
            *d == self.dim,
    {
        &self.dim
    }

    fn dim_mut(&mut self) -> (d: &mut TheDim)
        ensures
            *d == old(self).dim,
            *final(self) == (TheColorButton { dim: *final(d), ..*old(self) }),
    {
        &mut self.dim
    }

    fn set_dim(&mut self, dim: TheDim)
        ensures
            *final(self) == (TheColorButton {
                dim,
                is_dirty: old(self).is_dirty || old(self).dim != dim,
                ..*old(self)
            }),
    {
        if self.dim != dim {
            self.dim = dim;
            self.is_dirty = true;
        }
    }

    fn needs_redraw(&mut self) -> (b: bool)
        ensures
            b == old(self).is_dirty,
            *final(self) == *old(self),
    {
        self.is_dirty
    }

    fn set_needs_redraw(&mut self, redraw: bool)
        ensures
            *final(self) == (TheColorButton { is_dirty: redraw, ..*old(self) }),
    {
        self.is_dirty = redraw;
    }

    /// A press takes the focus and marks the button for a redraw; nothing else is handled.
    open spec fn accepts(&self, event: &TheEvent) -> bool {
        true
    }

    fn on_event(&mut self, event: &TheEvent, ui: &mut TheUi) -> (redraw: bool)
        ensures
            !redraw,
            event is MouseDown ==> {
                &&& *final(self) == (TheColorButton { is_dirty: true, ..*old(self) })
                &&& *final(ui) == (TheUi { focus: Some(old(self).widget_id), ..*old(ui) })
            },
            !(event is MouseDown) ==> *final(self) == *old(self) && *final(ui) == *old(ui),
    {
        match event {
            TheEvent::MouseDown(_) => {
                ui.set_focus(&self.widget_id);
                self.is_dirty = true;
            },
            _ => {},
        }
        false
    }
}

/// Setting the color of a color button.
pub trait TheColorColorButtonTrait {
    fn set_color(&mut self, color: RGBA);
}

impl TheColorColorButtonTrait for TheColorButton {
    fn set_color(&mut self, color: RGBA)
        ensures
            *final(self) == (TheColorButton { color, ..*old(self) }),
    {
        self.color = color;
    }
}

} // verus!

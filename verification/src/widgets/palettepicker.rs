//! A picker of a palette color: pressing it reports a click.
use vstd::prelude::*;
use crate::widget::{
    dim_zero, only_sent, state_event, TheDim, TheEvent, ThePalette, TheSizeLimiter, TheUi,
    TheWidget, TheWidgetId, TheWidgetState, RGBA,
};

verus! {

pub struct ThePalettePicker {
    pub id: TheWidgetId,
    pub limiter: TheSizeLimiter,
    pub is_dirty: bool,
    pub palette: ThePalette,
    pub index: usize,
    pub border_color: Option<RGBA>,
    pub dim: TheDim,
}

impl TheWidget for ThePalettePicker {
    fn new(name: String) -> (w: Self)
        ensures
            w.id.name@ == name@,
            w.limiter.max_width == 200 && w.limiter.max_height == 200,
            w.is_dirty,
            w.palette.colors@.len() == 0,
            w.index == 0,
            w.border_color is None,
            w.dim == dim_zero(),
    {
        let mut limiter = TheSizeLimiter::new();
        limiter.set_max_size(crate::widget::Vec2i::new(200, 200));
        ThePalettePicker {
            id: TheWidgetId::new(name),
            limiter,
            is_dirty: true,
            palette: ThePalette::new(),
            index: 0,
            border_color: None,
            dim: TheDim::zero(),
        }
    }

    fn id(&self) -> (id: &TheWidgetId)
        ensures
            *id == self.id,
    {
        &self.id
    }

    open spec fn accepts(&self, event: &TheEvent) -> bool {
        true
    }

    /// A press reports a click and asks for a redraw; nothing else is handled.
    fn on_event(&mut self, event: &TheEvent, ui: &mut TheUi) -> (redraw: bool)
        ensures
            event is MouseDown ==> redraw && *final(self) == (ThePalettePicker {
                is_dirty: true,
                ..*old(self)
            }) && only_sent(
                *old(ui),
                *final(ui),
                seq![state_event(old(self).id, TheWidgetState::Clicked)],
            ),
            !(event is MouseDown) ==> !redraw && *final(self) == *old(self) && *final(ui)
                == *old(ui),
    {
        let mut redraw = false;
        match event {
            TheEvent::MouseDown(_) => {
                ui.send_widget_state_changed(&self.id, TheWidgetState::Clicked);
                self.is_dirty = true;
                redraw = true;
            },
            _ => {},
        }
        redraw
    }

    fn limiter(&self) -> (l: &TheSizeLimiter)
        ensures
            *l == self.limiter,
    {
        &self.limiter
    }

    fn limiter_mut(&mut self) -> (l: &mut TheSizeLimiter)
        ensures
            *l == old(self).limiter,
            *final(self) == (ThePalettePicker { limiter: *final(l), ..*old(self) }),
    {
        &mut self.limiter
    }

    open spec fn current_dim(&self) -> TheDim {
        self.dim
    }

    fn dim(&self) -> (d: &TheDim)
        ensures
            *d == self.dim,
    {
        &self.dim
    }

    /// Sets the dimensions; this does not ask for a redraw.
    fn dim_mut(&mut self) -> (d: &mut TheDim)
        ensures
            *d == old(self).dim,
            *final(self) == (ThePalettePicker { dim: *final(d), ..*old(self) }),
    {
        &mut self.dim
    }

    fn set_dim(&mut self, dim: TheDim)
        ensures
            *final(self) == (ThePalettePicker { dim, ..*old(self) }),
    {
        if self.dim != dim {
            self.dim = dim;
        }
    }

    fn needs_redraw(&mut self) -> (b: bool)
        ensures
            b == old(self).is_dirty,
            *final(self) == *old(self),
    {
        self.is_dirty
    }
}

/// Setting the palette of a picker.
pub trait ThePalettePickerTrait {
    fn set_palette(&mut self, palette: ThePalette);
}

impl ThePalettePickerTrait for ThePalettePicker {
    fn set_palette(&mut self, palette: ThePalette)
        ensures
            *final(self) == (ThePalettePicker { palette, ..*old(self) }),
    {
        self.palette = palette;
    }
}

} // verus!

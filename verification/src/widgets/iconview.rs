//! A view of an animated icon: stepping it shows the next frame.
use vstd::prelude::*;
use crate::widget::{dim_zero, TheDim, TheEvent, TheRGBATile, TheSizeLimiter, TheUi, TheWidget, TheWidgetId};

verus! {

pub struct TheIconView {
    pub id: TheWidgetId,
    pub limiter: TheSizeLimiter,
    pub is_dirty: bool,
    pub tile: TheRGBATile,
    /// The frame shown.
    pub index: usize,
    pub dim: TheDim,
}

/// The frame after `index` among `frames` frames, going round.
pub open spec fn next_frame(index: nat, frames: nat) -> nat {
    if index + 1 >= frames {
        0
    } else {
        index + 1
    }
}

/// The frame shown after `k` steps from frame `index` among `frames` frames.
pub open spec fn frame_after_steps(index: nat, frames: nat, k: nat) -> nat
    decreases k,
{
    if k == 0 {
        index
    } else {
        next_frame(frame_after_steps(index, frames, (k - 1) as nat), frames)
    }
}

impl TheWidget for TheIconView {
    fn new(name: String) -> (w: Self)
        ensures
            w.id.name@ == name@,
            w.limiter.max_width == 24 && w.limiter.max_height == 24,
            w.is_dirty,
            w.tile.buffer@.len() == 0,
            w.index == 0,
            w.dim == dim_zero(),
    {
        let mut limiter = TheSizeLimiter::new();
        limiter.set_max_size(crate::widget::Vec2i::new(24, 24));
        TheIconView {
            id: TheWidgetId::new(name),
            limiter,
            is_dirty: true,
            tile: TheRGBATile::new(),
            index: 0,
            dim: TheDim::zero(),
        }
    }

    fn id(&self) -> (id: &TheWidgetId)
        ensures
            *id == self.id,
    {
        &self.id
    }

    open spec fn accepts(&self, event: &TheEvent) -> bool {
        true
    }

    fn limiter(&self) -> (l: &TheSizeLimiter)
        ensures
            *l == self.limiter,
    {
        &self.limiter
    }

    fn limiter_mut(&mut self) -> (l: &mut TheSizeLimiter)
        ensures
            *l == old(self).limiter,
            *final(self) == (TheIconView { limiter: *final(l), ..*old(self) }),
    {
        &mut self.limiter
    }

    open spec fn current_dim(&self) -> TheDim {
        self.dim
    }

    fn dim(&self) -> (d: &TheDim)
        ensures
            *d == self.dim,
    {
        &self.dim
    }

    /// Sets the dimensions; this does not ask for a redraw.
    fn dim_mut(&mut self) -> (d: &mut TheDim)
        ensures
            *d == old(self).dim,
            *final(self) == (TheIconView { dim: *final(d), ..*old(self) }),
    {
        &mut self.dim
    }

    fn set_dim(&mut self, dim: TheDim)
        ensures
            *final(self) == (TheIconView { dim, ..*old(self) }),
    {
        if self.dim != dim {
            self.dim = dim;
        }
    }

    fn needs_redraw(&mut self) -> (b: bool)
        ensures
            b == old(self).is_dirty,
            *final(self) == *old(self),
    {
        self.is_dirty
    }
}

/// Setting and animating the icon.
pub trait TheIconViewTrait {
    fn set_rgba_tile(&mut self, tile: TheRGBATile);

    fn step(&mut self);
}

impl TheIconViewTrait for TheIconView {
    /// Shows the first frame of a new tile.
    fn set_rgba_tile(&mut self, tile: TheRGBATile)
        ensures
            *final(self) == (TheIconView { tile, is_dirty: true, index: 0, ..*old(self) }),
    {
        self.tile = tile;
        self.is_dirty = true;
        self.index = 0;
    }

    /// Shows the next frame of a tile with two frames or more, going round after the last.
    fn step(&mut self)
        ensures
            old(self).tile.buffer@.len() >= 2 ==> *final(self) == (TheIconView {
                index: next_frame(old(self).index as nat, old(self).tile.buffer@.len()) as usize,
                is_dirty: true,
                ..*old(self)
            }),
            old(self).tile.buffer@.len() < 2 ==> *final(self) == *old(self),
    {
        let frames = self.tile.buffer.len();
        if frames >= 2 {
            if self.index >= frames - 1 {
                self.index = 0;
            } else {
                self.index = self.index + 1;
            }
            self.is_dirty = true;
        }
    }
}

} // verus!

//! A row of buttons of which one is selected.
use vstd::prelude::*;
use crate::widget::{
    dim_zero, only_sent, same_widget, state_event, TheDim, TheEvent, TheRGBABuffer,
    TheSizeLimiter, TheUi, TheWidget, TheWidgetId, TheWidgetState,
};

verus! {

pub struct TheGroupButton {
    pub id: TheWidgetId,
    pub limiter: TheSizeLimiter,
    pub state: TheWidgetState,
    pub texts: Vec<String>,
    pub icons: Vec<Option<TheRGBABuffer>>,
    pub hover_index: Option<usize>,
    pub selected_index: Option<usize>,
    /// Width of one button; the buttons are one pixel apart.
    pub item_width: usize,
    pub dim: TheDim,
    pub is_disabled: bool,
    pub is_dirty: bool,
}

/// The button under the horizontal position `x`: a position left of the row counts as a
/// very large one.
pub open spec fn button_at(x: i32, item_width: usize) -> usize {
    ((x as usize) / ((item_width + 1) as usize)) as usize
}

/// The width of a row of `n` buttons of width `w`, one pixel apart.
pub open spec fn row_width(n: nat, w: nat) -> nat {
    if n == 0 {
        0
    } else {
        (n * w + (n - 1)) as nat
    }
}

impl TheGroupButton {
    pub fn disabled(&self) -> (b: bool)
        ensures
            b == self.is_disabled,
    {
        self.is_disabled
    }

    /// Enables or disables the buttons; a change resets the state.
    pub fn set_disabled(&mut self, disabled: bool)
        ensures
            disabled != old(self).is_disabled ==> *final(self) == (TheGroupButton {
                is_disabled: disabled,
                is_dirty: true,
                state: TheWidgetState::Normal,
                ..*old(self)
            }),
            disabled == old(self).is_disabled ==> *final(self) == *old(self),
    {
        if disabled != self.is_disabled {
            self.is_disabled = disabled;
            self.is_dirty = true;
            self.state = TheWidgetState::Normal;
        }
    }
}

impl TheWidget for TheGroupButton {
    fn new(name: String) -> (w: Self)
        ensures
            w.id.name@ == name@,
            w.limiter.max_width == 60 && w.limiter.max_height == 20,
            w.state == TheWidgetState::Normal,
            w.texts@.len() == 0 && w.icons@.len() == 0,
            w.hover_index == Some(0usize),
            w.selected_index is None,
            w.item_width == 60,
            w.dim == dim_zero(),
            !w.is_disabled && !w.is_dirty,
    {
        let mut limiter = TheSizeLimiter::new();
        limiter.set_max_size(crate::widget::Vec2i::new(60, 20));
        TheGroupButton {
            id: TheWidgetId::new(name),
            limiter,
            state: TheWidgetState::Normal,
            texts: Vec::new(),
            icons: Vec::new(),
            hover_index: Some(0),
            selected_index: None,
            item_width: 60,
            dim: TheDim::zero(),
            is_disabled: false,
            is_dirty: false,
        }
    }

    fn id(&self) -> (id: &TheWidgetId)
        ensures
            *id == self.id,
    {
        &self.id
    }

    open spec fn accepts(&self, event: &TheEvent) -> bool {
        self.item_width < usize::MAX
    }

    /// A press selects the button under it and reports its index (and the state, once); a
    /// hover takes the hover and marks the button under it, unless it is already marked or
    /// selected; losing the hover unmarks.
    fn on_event(&mut self, event: &TheEvent, ui: &mut TheUi) -> (redraw: bool)
        ensures
            event matches TheEvent::MouseDown(p) ==> {
                let index = button_at(p.x, old(self).item_width);
                let first = old(self).state != TheWidgetState::Selected;
                &&& redraw
                &&& *final(self) == (TheGroupButton {
                    state: TheWidgetState::Selected,
                    selected_index: Some(index),
                    is_dirty: true,
                    ..*old(self)
                })
                &&& only_sent(
                    *old(ui),
                    *final(ui),
                    if first {
                        seq![
                            state_event(old(self).id, TheWidgetState::Selected),
                            TheEvent::IndexChanged(old(self).id, index),
                        ]
                    } else {
                        seq![TheEvent::IndexChanged(old(self).id, index)]
                    },
                )
            },
            event matches TheEvent::Hover(p) ==> {
                let index = button_at(p.x, old(self).item_width);
                let takes = !same_widget(&old(self).id, &old(ui).hover);
                let marks = Some(index) != old(self).hover_index && Some(index)
                    != old(self).selected_index;
                &&& redraw == (takes || marks)
                &&& *final(self) == (TheGroupButton {
                    hover_index: if marks { Some(index) } else { old(self).hover_index },
                    is_dirty: old(self).is_dirty || takes || marks,
                    ..*old(self)
                })
                &&& takes ==> *final(ui) == (TheUi { hover: Some(old(self).id), ..*old(ui) })
                &&& !takes ==> *final(ui) == *old(ui)
            },
            event is LostHover ==> {
                &&& redraw
                &&& *final(self) == (TheGroupButton { hover_index: None, is_dirty: true, ..*old(self) })
                &&& *final(ui) == *old(ui)
            },
            !(event is MouseDown) && !(event is Hover) && !(event is LostHover) ==> !redraw
                && *final(self) == *old(self) && *final(ui) == *old(ui),
    {
        let mut redraw = false;
        match event {
            TheEvent::MouseDown(coord) => {
                if self.state != TheWidgetState::Selected {
                    self.state = TheWidgetState::Selected;
                    ui.send_widget_state_changed(&self.id, self.state);
                }
                let index = coord.x as usize / (self.item_width + 1);
                ui.send(TheEvent::IndexChanged(self.id.clone_id(), index));
                self.selected_index = Some(index);
                self.is_dirty = true;
                redraw = true;
            },
            TheEvent::Hover(coord) => {
                if !self.id.equals(&ui.hover) {
                    self.is_dirty = true;
                    ui.set_hover(&self.id);
                    redraw = true;
                }
                let index = coord.x as usize / (self.item_width + 1);
                if Some(index) != self.hover_index && Some(index) != self.selected_index {
                    self.hover_index = Some(index);
                    redraw = true;
                    self.is_dirty = true;
                }
            },
            TheEvent::LostHover(_) => {
                self.hover_index = None;
                redraw = true;
                self.is_dirty = true;
            },
            _ => {},
        }
        redraw
    }

    fn limiter(&self) -> (l: &TheSizeLimiter)
        ensures
            *l == self.limiter,
    {
        &self.limiter
    }

    /// Makes the size limit as wide as the row of buttons; the width is taken modulo 2^32
    /// as a signed number, as a cast does. A row too wide for a `usize` leaves the limit.
    fn calculate_size(&mut self)
        ensures
            row_width(old(self).texts@.len(), old(self).item_width as nat) <= usize::MAX
                ==> *final(self) == (TheGroupButton {
                limiter: TheSizeLimiter {
                    max_width: (row_width(old(self).texts@.len(), old(self).item_width as nat) as usize) as i32,
                    ..old(self).limiter
                },
                ..*old(self)
            }),
            row_width(old(self).texts@.len(), old(self).item_width as nat) > usize::MAX
                ==> *final(self) == *old(self),
    {
        let n = self.texts.len();
        proof {
            if n > 0 {
                assert(n * self.item_width <= row_width(n as nat, self.item_width as nat)) by (nonlinear_arith)
                    requires n > 0;
            }
        }
        match n.checked_mul(self.item_width) {
            Some(all) => {
                if n == 0 {
                    self.limiter.set_max_width(all as i32);
                } else {
                    match all.checked_add(n - 1) {
                        Some(width) => {
                            self.limiter.set_max_width(width as i32);
                        },
                        None => {},
                    }
                }
            },
            None => {},
        }
    }

    fn limiter_mut(&mut self) -> (l: &mut TheSizeLimiter)
        ensures
            *l == old(self).limiter,
            *final(self) == (TheGroupButton { limiter: *final(l), ..*old(self) }),
    {
        &mut self.limiter
    }

    open spec fn current_dim(&self) -> TheDim {
        self.dim
    }

    fn dim(&self) -> (d: &TheDim)
        ensures
            *d == self.dim,
    {
        &self.dim
    }

    fn dim_mut(&mut self) -> (d: &mut TheDim)
        ensures
            *d == old(self).dim,
            *final(self) == (TheGroupButton { dim: *final(d), ..*old(self) }),
    {
        &mut self.dim
    }

    fn set_dim(&mut self, dim: TheDim)
        ensures
            *final(self) == (TheGroupButton {
                dim,
                is_dirty: old(self).is_dirty || old(self).dim != dim,
                ..*old(self)
            }),
    {
        if self.dim != dim {
            self.dim = dim;
            self.is_dirty = true;
        }
    }

    fn set_state(&mut self, state: TheWidgetState)
        ensures
            *final(self) == (TheGroupButton { state, is_dirty: true, ..*old(self) }),
    {
        self.state = state;
        self.is_dirty = true;
    }

    fn needs_redraw(&mut self) -> (b: bool)
        ensures
            b == old(self).is_dirty,
            *final(self) == *old(self),
    {
        self.is_dirty
    }

    fn set_needs_redraw(&mut self, redraw: bool)
        ensures
            *final(self) == (TheGroupButton { is_dirty: redraw, ..*old(self) }),
    {
        self.is_dirty = redraw;
    }

    fn supports_hover(&mut self) -> (b: bool)
        ensures
            b,
            *final(self) == *old(self),
    {
        true
    }
}

/// Adding a button to a group.
pub trait TheGroupButtonTrait {
    fn add_text(&mut self, text: String);
}

impl TheGroupButtonTrait for TheGroupButton {
    /// Appends a button with the text and no icon.
    fn add_text(&mut self, text: String)
        ensures
            *final(self) == (TheGroupButton {
                texts: final(self).texts,
                icons: final(self).icons,
                ..*old(self)
            }),
            final(self).texts@ == old(self).texts@.push(text),
            final(self).icons@ == old(self).icons@.push(None),
    {
        self.texts.push(text);
        self.icons.push(None);
    }
}

} // verus!

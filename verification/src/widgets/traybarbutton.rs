//! A button of a tray bar, with an icon and a text. The size of its text, which is measured
//! with a font, is left to the caller.
use vstd::prelude::*;
use crate::widget::{
    dim_zero, same_widget, state_event, TheDim, TheEvent, TheSizeLimiter, TheUi, TheWidget,
    TheWidgetId, TheWidgetState, Vec2i,
};

verus! {

pub struct TheTraybarButton {
    pub id: TheWidgetId,
    pub limiter: TheSizeLimiter,
    pub state: TheWidgetState,
    pub is_disabled: bool,
    pub icon_name: String,
    pub icon_offset: Vec2i,
    pub text: String,
    pub dim: TheDim,
    pub is_dirty: bool,
}

impl TheTraybarButton {
    pub fn disabled(&self) -> (b: bool)
        ensures
            b == self.is_disabled,
    {
        self.is_disabled
    }

    /// Enables or disables the button; a change resets the state.
    pub fn set_disabled(&mut self, disabled: bool)
        ensures
            disabled != old(self).is_disabled ==> *final(self) == (TheTraybarButton {
                is_disabled: disabled,
                is_dirty: true,
                state: TheWidgetState::Normal,
                ..*old(self)
            }),
            disabled == old(self).is_disabled ==> *final(self) == *old(self),
    {
        if disabled != self.is_disabled {
            self.is_disabled = disabled;
            self.is_dirty = true;
            self.state = TheWidgetState::Normal;
        }
    }
}

impl TheWidget for TheTraybarButton {
    fn new(name: String) -> (w: Self)
        ensures
            w.id.name@ == name@,
            w.limiter.max_width == 20 && w.limiter.max_height == 20,
            w.state == TheWidgetState::Normal,
            !w.is_disabled,
            w.icon_name@ == Seq::<char>::empty() && w.text@ == Seq::<char>::empty(),
            w.icon_offset == (Vec2i { x: 0, y: 0 }),
            w.dim == dim_zero(),
            !w.is_dirty,
    {
        let mut limiter = TheSizeLimiter::new();
        limiter.set_max_size(Vec2i::new(20, 20));
        TheTraybarButton {
            id: TheWidgetId::new(name),
            limiter,
            state: TheWidgetState::Normal,
            is_disabled: false,
            icon_name: String::new(),
            icon_offset: Vec2i::new(0, 0),
            text: String::new(),
            dim: TheDim::zero(),
            is_dirty: false,
        }
    }

    fn id(&self) -> (id: &TheWidgetId)
        ensures
            *id == self.id,
    {
        &self.id
    }

    open spec fn accepts(&self, event: &TheEvent) -> bool {
        true
    }

    /// A disabled button ignores everything. Otherwise a press on a button not held takes
    /// the focus and tells its state (the button itself does not change state); a release
    /// of a held button lets it go and gives up the focus; a hover over a button not held
    /// takes the hover.
    fn on_event(&mut self, event: &TheEvent, ui: &mut TheUi) -> (redraw: bool)
        ensures
            old(self).is_disabled ==> !redraw && *final(self) == *old(self) && *final(ui) == *old(ui),
            !old(self).is_disabled && event is MouseDown ==> {
                let free = old(self).state != TheWidgetState::Clicked;
                &&& redraw
                &&& *final(self) == (TheTraybarButton { is_dirty: true, ..*old(self) })
                &&& free ==> final(ui).events@ == old(ui).events@.push(
                    state_event(old(self).id, old(self).state),
                ) && *final(ui) == (TheUi {
                    focus: Some(old(self).id),
                    events: final(ui).events,
                    ..*old(ui)
                })
                &&& !free ==> *final(ui) == *old(ui)
            },
            !old(self).is_disabled && event is Hover ==> {
                let takes = old(self).state != TheWidgetState::Clicked
                    && !same_widget(&old(self).id, &old(ui).hover);
                &&& redraw == takes
                &&& takes ==> *final(self) == (TheTraybarButton { is_dirty: true, ..*old(self) })
                    && *final(ui) == (TheUi { hover: Some(old(self).id), ..*old(ui) })
                &&& !takes ==> *final(self) == *old(self) && *final(ui) == *old(ui)
            },
            !old(self).is_disabled && event is MouseUp ==> {
                let held = old(self).state == TheWidgetState::Clicked;
                &&& redraw
                &&& *final(self) == (TheTraybarButton {
                    state: if held { TheWidgetState::Normal } else { old(self).state },
                    is_dirty: true,
                    ..*old(self)
                })
                &&& held ==> *final(ui) == (TheUi { focus: None, ..*old(ui) })
                &&& !held ==> *final(ui) == *old(ui)
            },
            !old(self).is_disabled && !(event is MouseDown) && !(event is Hover) && !(
            event is MouseUp) ==> !redraw && *final(self) == *old(self) && *final(ui)
                == *old(ui),
    {
        if self.is_disabled {
            return false;
        }
        let mut redraw = false;
        match event {
            TheEvent::MouseDown(_) => {
                if self.state != TheWidgetState::Clicked {
                    ui.set_focus(&self.id);
                    ui.send_widget_state_changed(&self.id, self.state);
                }
                self.is_dirty = true;
                redraw = true;
            },
            TheEvent::Hover(_) => {
                if self.state != TheWidgetState::Clicked && !self.id.equals(&ui.hover) {
                    self.is_dirty = true;
                    ui.set_hover(&self.id);
                    redraw = true;
                }
            },
            TheEvent::MouseUp(_) => {
                if self.state == TheWidgetState::Clicked {
                    self.state = TheWidgetState::Normal;
                    ui.clear_focus();
                }
                self.is_dirty = true;
                redraw = true;
            },
            _ => {},
        }
        redraw
    }

    fn limiter(&self) -> (l: &TheSizeLimiter)
        ensures
            *l == self.limiter,
    {
        &self.limiter
    }

    fn limiter_mut(&mut self) -> (l: &mut TheSizeLimiter)
        ensures
            *l == old(self).limiter,
            *final(self) == (TheTraybarButton { limiter: *final(l), ..*old(self) }),
    {
        &mut self.limiter
    }

    open spec fn current_dim(&self) -> TheDim {
        self.dim
    }

    fn dim(&self) -> (d: &TheDim)
        ensures
            *d == self.dim,
    {
        &self.dim
    }

    fn dim_mut(&mut self) -> (d: &mut TheDim)
        ensures
            *d == old(self).dim,
            *final(self) == (TheTraybarButton { dim: *final(d), ..*old(self) }),
    {
        &mut self.dim
    }

    fn set_dim(&mut self, dim: TheDim)
        ensures
            *final(self) == (TheTraybarButton {
                dim,
                is_dirty: old(self).is_dirty || old(self).dim != dim,
                ..*old(self)
            }),
    {
        if self.dim != dim {
            self.dim = dim;
            self.is_dirty = true;
        }
    }

    fn needs_redraw(&mut self) -> (b: bool)
        ensures
            b == old(self).is_dirty,
            *final(self) == *old(self),
    {
        self.is_dirty
    }

    fn set_needs_redraw(&mut self, redraw: bool)
        ensures
            *final(self) == (TheTraybarButton { is_dirty: redraw, ..*old(self) }),
    {
        self.is_dirty = redraw;
    }

    fn state(&self) -> (s: TheWidgetState)
        ensures
            s == self.state,
    {
        self.state
    }

    fn set_state(&mut self, state: TheWidgetState)
        ensures
            *final(self) == (TheTraybarButton { state, is_dirty: true, ..*old(self) }),
    {
        self.state = state;
        self.is_dirty = true;
    }

    fn supports_hover(&mut self) -> (b: bool)
        ensures
            b,
            *final(self) == *old(self),
    {
        true
    }
}

/// Setting up a tray bar button: its icon, where the icon sits, and its text.
pub trait TheTraybarButtonTrait {
    fn set_icon_name(&mut self, text: String);

    fn set_icon_offset(&mut self, offset: Vec2i);

    fn set_text(&mut self, text: String);
}

impl TheTraybarButtonTrait for TheTraybarButton {
    fn set_icon_name(&mut self, text: String)
        ensures
            *final(self) == (TheTraybarButton { icon_name: text, ..*old(self) }),
    {
        self.icon_name = text;
    }

    fn set_icon_offset(&mut self, offset: Vec2i)
        ensures
            *final(self) == (TheTraybarButton { icon_offset: offset, ..*old(self) }),
    {
        self.icon_offset = offset;
    }

    fn set_text(&mut self, text: String)
        ensures
            *final(self) == (TheTraybarButton { text, ..*old(self) }),
    {
        self.text = text;
    }
}

} // verus!

//! A slider that picks a time of day: pressing or dragging picks the time under the pointer.
use vstd::prelude::*;
use crate::widget::{
    copy_value, dim_zero, same_value, same_widget, state_event, values_equal, TheDim, TheEvent,
    TheSizeLimiter, TheTime, TheUi, TheValue, TheWidget, TheWidgetId, TheWidgetState,
};

verus! {

pub struct TheTimeSlider {
    pub id: TheWidgetId,
    pub limiter: TheSizeLimiter,
    pub state: TheWidgetState,
    pub value: TheValue,
    /// What a release compares the value against.
    pub original: TheValue,
    pub default_value: TheValue,
    pub status: Option<String>,
    pub dim: TheDim,
    pub is_dirty: bool,
    /// Whether every drag reports the value, not only the release.
    pub continuous: bool,
}

/// The time at horizontal position `x` of a slider of width `width`; the numbers are taken
/// as unsigned, as a cast does.
pub open spec fn time_at(x: i32, width: i32) -> TheValue {
    TheValue::Time(TheTime { offset: x as u32, width: width as u32 })
}

/// `x` kept between 0 and `width` (0 wins when `width` is negative).
pub open spec fn clamp_to_slider(x: i32, width: i32) -> i32 {
    let low = if x < 0 { 0 } else { x };
    if low > width { width } else { low }
}

impl TheTimeSlider {
    pub fn status_text(&self) -> (s: Option<String>)
        ensures
            s == self.status,
    {
        match &self.status {
            Some(t) => Some(t.clone()),
            None => None,
        }
    }

    pub fn set_status_text(&mut self, text: &str)
        ensures
            final(self).status matches Some(t) && t@ == text@,
            *final(self) == (TheTimeSlider { status: final(self).status, ..*old(self) }),
    {
        self.status = Some(text.to_string());
    }
}

impl TheWidget for TheTimeSlider {
    fn new(name: String) -> (w: Self)
        ensures
            w.id.name@ == name@,
            w.limiter.max_width == 300 && w.limiter.max_height == 20,
            w.state == TheWidgetState::Normal,
            w.value == TheValue::Time(TheTime { offset: 0, width: 0 }),
            w.original is Empty && w.default_value is Empty,
            w.status is None,
            w.dim == dim_zero(),
            !w.is_dirty && !w.continuous,
    {
        let mut limiter = TheSizeLimiter::new();
        limiter.set_max_size(crate::widget::Vec2i::new(300, 20));
        TheTimeSlider {
            id: TheWidgetId::new(name),
            limiter,
            state: TheWidgetState::Normal,
            value: TheValue::Time(TheTime::from_widget_offset(0, 0)),
            original: TheValue::Empty,
            default_value: TheValue::Empty,
            status: None,
            dim: TheDim::zero(),
            is_dirty: false,
            continuous: false,
        }
    }

    fn id(&self) -> (id: &TheWidgetId)
        ensures
            *id == self.id,
    {
        &self.id
    }

    fn limiter(&self) -> (l: &TheSizeLimiter)
        ensures
            *l == self.limiter,
    {
        &self.limiter
    }

    fn limiter_mut(&mut self) -> (l: &mut TheSizeLimiter)
        ensures
            *l == old(self).limiter,
            *final(self) == (TheTimeSlider { limiter: *final(l), ..*old(self) }),
    {
        &mut self.limiter
    }

    open spec fn current_dim(&self) -> TheDim {
        self.dim
    }

    fn dim(&self) -> (d: &TheDim)
        ensures
            *d == self.dim,
    {
        &self.dim
    }

    fn dim_mut(&mut self) -> (d: &mut TheDim)
        ensures
            *d == old(self).dim,
            *final(self) == (TheTimeSlider { dim: *final(d), ..*old(self) }),
    {
        &mut self.dim
    }

    fn set_dim(&mut self, dim: TheDim)
        ensures
            *final(self) == (TheTimeSlider {
                dim,
                is_dirty: old(self).is_dirty || old(self).dim != dim,
                ..*old(self)
            }),
    {
        if self.dim != dim {
            self.dim = dim;
            self.is_dirty = true;
        }
    }

    fn needs_redraw(&mut self) -> (b: bool)
        ensures
            b == old(self).is_dirty,
            *final(self) == *old(self),
    {
        self.is_dirty
    }

    fn set_needs_redraw(&mut self, redraw: bool)
        ensures
            *final(self) == (TheTimeSlider { is_dirty: redraw, ..*old(self) }),
    {
        self.is_dirty = redraw;
    }

    fn state(&self) -> (s: TheWidgetState)
        ensures
            s == self.state,
    {
        self.state
    }

    fn set_state(&mut self, state: TheWidgetState)
        ensures
            *final(self) == (TheTimeSlider { state, is_dirty: true, ..*old(self) }),
    {
        self.state = state;
        self.is_dirty = true;
    }

    fn supports_hover(&mut self) -> (b: bool)
        ensures
            b,
            *final(self) == *old(self),
    {
        true
    }

    fn value(&self) -> (v: TheValue)
        ensures
            v == self.value,
    {
        copy_value(&self.value)
    }

    /// A different value becomes the value and the default value.
    fn set_value(&mut self, value: TheValue)
        ensures
            !same_value(value, old(self).value) ==> *final(self) == (TheTimeSlider {
                value,
                default_value: value,
                is_dirty: true,
                ..*old(self)
            }),
            same_value(value, old(self).value) ==> *final(self) == *old(self),
    {
        if !values_equal(&value, &self.value) {
            self.value = copy_value(&value);
            self.default_value = value;
            self.is_dirty = true;
        }
    }

    open spec fn accepts(&self, event: &TheEvent) -> bool {
        true
    }

    /// A press selects the slider (telling so once), takes the focus, and picks and reports
    /// the time under it; a drag picks the time under it, kept on the slider, and reports it
    /// when the slider is continuous; a release unselects and reports the value when it
    /// differs from the original; a hover over a slider not selected takes the hover.
    fn on_event(&mut self, event: &TheEvent, ui: &mut TheUi) -> (redraw: bool)
        ensures
            event matches TheEvent::MouseDown(p) ==> {
                let v = time_at(p.x, old(self).dim.width);
                let first = old(self).state != TheWidgetState::Selected;
                &&& redraw
                &&& *final(self) == (TheTimeSlider {
                    state: TheWidgetState::Selected,
                    value: v,
                    is_dirty: true,
                    ..*old(self)
                })
                &&& final(ui).events@ == old(ui).events@ + if first {
                    seq![
                        state_event(old(self).id, TheWidgetState::Selected),
                        TheEvent::ValueChanged(old(self).id, v),
                    ]
                } else {
                    seq![TheEvent::ValueChanged(old(self).id, v)]
                }
                &&& *final(ui) == (TheUi {
                    focus: Some(old(self).id),
                    events: final(ui).events,
                    ..*old(ui)
                })
            },
            event matches TheEvent::MouseDragged(p) ==> {
                let v = time_at(clamp_to_slider(p.x, old(self).dim.width), old(self).dim.width);
                &&& redraw
                &&& *final(self) == (TheTimeSlider { value: v, is_dirty: true, ..*old(self) })
                &&& old(self).continuous ==> crate::widget::only_sent(
                    *old(ui),
                    *final(ui),
                    seq![TheEvent::ValueChanged(old(self).id, v)],
                )
                &&& !old(self).continuous ==> *final(ui) == *old(ui)
            },
            event is MouseUp ==> {
                let changed = !same_value(old(self).value, old(self).original);
                &&& redraw
                &&& *final(self) == (TheTimeSlider {
                    state: if old(self).state == TheWidgetState::Selected {
                        TheWidgetState::Normal
                    } else {
                        old(self).state
                    },
                    is_dirty: true,
                    ..*old(self)
                })
                &&& changed ==> crate::widget::only_sent(
                    *old(ui),
                    *final(ui),
                    seq![TheEvent::ValueChanged(old(self).id, old(self).value)],
                )
                &&& !changed ==> *final(ui) == *old(ui)
            },
            event is Hover ==> {
                let takes = old(self).state != TheWidgetState::Selected
                    && !same_widget(&old(self).id, &old(ui).hover);
                &&& redraw == takes
                &&& takes ==> *final(self) == (TheTimeSlider { is_dirty: true, ..*old(self) })
                    && *final(ui) == (TheUi { hover: Some(old(self).id), ..*old(ui) })
                &&& !takes ==> *final(self) == *old(self) && *final(ui) == *old(ui)
            },
            !(event is MouseDown) && !(event is MouseDragged) && !(event is MouseUp)
                && !(event is Hover) ==> !redraw && *final(self) == *old(self) && *final(ui)
                == *old(ui),
    {
        let mut redraw = false;
        match event {
            TheEvent::MouseDown(coord) => {
                self.is_dirty = true;
                if self.state != TheWidgetState::Selected {
                    self.state = TheWidgetState::Selected;
                    ui.send_widget_state_changed(&self.id, self.state);
                }
                ui.set_focus(&self.id);
                self.value = TheValue::Time(
                    TheTime::from_widget_offset(coord.x as u32, self.dim.width as u32),
                );
                ui.send_widget_value_changed(&self.id, copy_value(&self.value));
                redraw = true;
            },
            TheEvent::MouseDragged(coord) => {
                let mut offset = coord.x;
                if offset < 0 {
                    offset = 0;
                }
                if offset > self.dim.width {
                    offset = self.dim.width;
                }
                self.value = TheValue::Time(
                    TheTime::from_widget_offset(offset as u32, self.dim.width as u32),
                );
                if self.continuous {
                    ui.send_widget_value_changed(&self.id, copy_value(&self.value));
                }
                self.is_dirty = true;
                redraw = true;
            },
            TheEvent::MouseUp(_) => {
                self.is_dirty = true;
                if self.state == TheWidgetState::Selected {
                    self.state = TheWidgetState::Normal;
                }
                if !values_equal(&self.value, &self.original) {
                    ui.send_widget_value_changed(&self.id, copy_value(&self.value));
                }
                redraw = true;
            },
            TheEvent::Hover(_) => {
                if self.state != TheWidgetState::Selected && !self.id.equals(&ui.hover) {
                    self.is_dirty = true;
                    ui.set_hover(&self.id);
                    redraw = true;
                }
            },
            _ => {},
        }
        redraw
    }
}

/// Setting how a time slider reports.
pub trait TheTimeSliderTrait: TheWidget {
    fn set_continuous(&mut self, continuous: bool);
}

impl TheTimeSliderTrait for TheTimeSlider {
    fn set_continuous(&mut self, continuous: bool)
        ensures
            *final(self) == (TheTimeSlider { continuous, ..*old(self) }),
    {
        self.continuous = continuous;
    }
}

} // verus!

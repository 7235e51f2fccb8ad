//! A menu that drops down its options while pressed; dragging picks one, and releasing
//! reports the pick when it changed.
use vstd::prelude::*;
use crate::widget::{
    dim_zero, only_sent, same_widget, state_event, TheDim, TheEvent, TheSizeLimiter, TheUi,
    TheValue, TheWidget, TheWidgetId, TheWidgetState,
};

verus! {

/// Height of one option row.
pub const ROW_HEIGHT: i32 = 20;

pub struct TheDropdownMenu {
    pub widget_id: TheWidgetId,
    pub limiter: TheSizeLimiter,
    pub state: TheWidgetState,
    pub options: Vec<String>,
    /// The option shown.
    pub selected: i32,
    /// The option shown when the menu was opened.
    pub original: i32,
    pub dim: TheDim,
    pub is_dirty: bool,
}

impl TheDropdownMenu {
    /// The option indices are valid: inside the options, or 0 while there is none.
    pub open spec fn wf(&self) -> bool {
        &&& self.options@.len() <= i32::MAX
        &&& 0 <= self.selected && 0 <= self.original
        &&& self.options@.len() == 0 ==> self.selected == 0 && self.original == 0
        &&& self.options@.len() > 0 ==> self.selected < self.options@.len()
            && self.original < self.options@.len()
    }

    /// The option a drag to `y` (relative to the menu) points at, if any: the rows start
    /// below the menu's own row.
    pub open spec fn option_at(&self, y: int) -> Option<int> {
        let row_y = y - ROW_HEIGHT;
        if row_y >= 0 && row_y / (ROW_HEIGHT as int) < self.options@.len() {
            Some(row_y / (ROW_HEIGHT as int))
        } else {
            None
        }
    }

}

/// The menu after a press: a closed menu opens and remembers the option shown.
pub open spec fn menu_pressed(m: TheDropdownMenu) -> TheDropdownMenu {
    if m.state != TheWidgetState::Clicked {
        TheDropdownMenu { state: TheWidgetState::Clicked, original: m.selected, is_dirty: true, ..m }
    } else {
        TheDropdownMenu { is_dirty: true, ..m }
    }
}

/// The menu after a drag to `y`: the option under the pointer, if any, is shown.
pub open spec fn menu_dragged(m: TheDropdownMenu, y: int) -> TheDropdownMenu {
    if m.options@.len() > 0 {
        TheDropdownMenu {
            selected: match m.option_at(y) {
                Some(i) => i as i32,
                None => m.selected,
            },
            is_dirty: true,
            ..m
        }
    } else {
        m
    }
}

/// A release of the menu reports a value: it is open and shows another option than when it
/// was opened.
pub open spec fn menu_release_reports(m: TheDropdownMenu) -> bool {
    m.state == TheWidgetState::Clicked && m.selected != m.original
}

impl TheWidget for TheDropdownMenu {
    fn new(name: String) -> (w: Self)
        ensures
            w.widget_id.name@ == name@,
            w.limiter.max_width == 142 && w.limiter.max_height == 20,
            w.state == TheWidgetState::Normal,
            w.options@.len() == 0,
            w.selected == 0 && w.original == 0,
            w.dim == dim_zero(),
            !w.is_dirty,
            w.wf(),
    {
        let mut limiter = TheSizeLimiter::new();
        limiter.set_max_width(142);
        limiter.set_max_height(20);
        TheDropdownMenu {
            widget_id: TheWidgetId::new(name),
            limiter,
            state: TheWidgetState::Normal,
            options: Vec::new(),
            selected: 0,
            original: 0,
            dim: TheDim::zero(),
            is_dirty: false,
        }
    }

    fn id(&self) -> (id: &TheWidgetId)
        ensures
            *id == self.widget_id,
    {
        &self.widget_id
    }

    open spec fn accepts(&self, event: &TheEvent) -> bool {
        &&& self.wf()
        &&& event matches TheEvent::MouseDragged(p) ==> p.y >= i32::MIN + ROW_HEIGHT
    }

    /// A press opens the menu (once) and remembers the shown option; a drag over the rows
    /// shows the option under it; a release closes the menu and reports the shown option
    /// when it differs from the remembered one; a hover over a closed menu takes the hover.
    fn on_event(&mut self, event: &TheEvent, ui: &mut TheUi) -> (redraw: bool)
        ensures
            final(self).wf(),
            event is MouseDown ==> {
                let opens = old(self).state != TheWidgetState::Clicked;
                &&& redraw
                &&& *final(self) == menu_pressed(*old(self))
                &&& opens ==> {
                    &&& final(ui).events@ == old(ui).events@.push(
                        state_event(old(self).widget_id, TheWidgetState::Clicked),
                    )
                    &&& *final(ui) == (TheUi {
                        focus: Some(old(self).widget_id),
                        overlay: Some(old(self).widget_id),
                        events: final(ui).events,
                        ..*old(ui)
                    })
                }
                &&& !opens ==> *final(ui) == *old(ui)
            },
            event matches TheEvent::MouseDragged(p) ==> {
                let nonempty = old(self).options@.len() > 0;
                &&& redraw == nonempty
                &&& *final(ui) == *old(ui)
                &&& *final(self) == menu_dragged(*old(self), p.y as int)
            },
            event is MouseUp ==> {
                let closes = old(self).state == TheWidgetState::Clicked;
                let changed = menu_release_reports(*old(self));
                &&& redraw
                &&& closes ==> *final(self) == (TheDropdownMenu {
                    state: TheWidgetState::Normal,
                    is_dirty: true,
                    ..*old(self)
                })
                &&& closes ==> *final(ui) == (TheUi {
                    overlay: None,
                    events: final(ui).events,
                    ..*old(ui)
                })
                &&& closes && !changed ==> final(ui).events@ == old(ui).events@.push(
                    state_event(old(self).widget_id, TheWidgetState::Normal),
                )
                &&& closes && changed ==> final(ui).events@ == old(ui).events@.push(
                    state_event(old(self).widget_id, TheWidgetState::Normal),
                ).push(
                    TheEvent::ValueChanged(
                        old(self).widget_id,
                        TheValue::Text(old(self).options@[old(self).selected as int]),
                    ),
                )
                &&& !closes ==> *final(self) == (TheDropdownMenu { is_dirty: true, ..*old(self) })
                    && *final(ui) == *old(ui)
            },
            event is Hover ==> {
                let takes = old(self).state != TheWidgetState::Clicked
                    && !same_widget(&old(self).widget_id, &old(ui).hover);
                &&& redraw == takes
                &&& takes ==> *final(self) == (TheDropdownMenu { is_dirty: true, ..*old(self) })
                    && *final(ui) == (TheUi { hover: Some(old(self).widget_id), ..*old(ui) })
                &&& !takes ==> *final(self) == *old(self) && *final(ui) == *old(ui)
            },
            !(event is MouseDown) && !(event is MouseDragged) && !(event is MouseUp)
                && !(event is Hover) ==> !redraw && *final(self) == *old(self) && *final(ui)
                == *old(ui),
    {
        let mut redraw = false;
        match event {
            TheEvent::MouseDown(_) => {
                self.is_dirty = true;
                if self.state != TheWidgetState::Clicked {
                    self.state = TheWidgetState::Clicked;
                    ui.send_widget_state_changed(&self.widget_id, self.state);
                    ui.set_focus(&self.widget_id);
                    ui.set_overlay(&self.widget_id);
                    self.original = self.selected;
                }
                redraw = true;
            },
            TheEvent::MouseDragged(coord) => {
                if self.options.len() > 0 {
                    let y: i32 = coord.y - ROW_HEIGHT;
                    if y >= 0 {
                        let index = y / ROW_HEIGHT;
                        if index < self.options.len() as i32 && index != self.selected {
                            self.selected = index;
                        }
                    }
                    self.is_dirty = true;
                    redraw = true;
                }
            },
            TheEvent::MouseUp(_) => {
                self.is_dirty = true;
                if self.state == TheWidgetState::Clicked {
                    self.state = TheWidgetState::Normal;
                    ui.send_widget_state_changed(&self.widget_id, self.state);
                    ui.clear_overlay();
                    if self.selected != self.original {
                        let text = self.options[self.selected as usize].clone();
                        ui.send_widget_value_changed(&self.widget_id, TheValue::Text(text));
                    }
                }
                redraw = true;
            },
            TheEvent::Hover(_) => {
                if self.state != TheWidgetState::Clicked && !self.widget_id.equals(&ui.hover) {
                    self.is_dirty = true;
                    ui.set_hover(&self.widget_id);
                    redraw = true;
                }
            },
            _ => {},
        }
        redraw
    }

    fn limiter(&self) -> (l: &TheSizeLimiter)
        ensures
            *l == self.limiter,
    {
        &self.limiter
    }

    fn limiter_mut(&mut self) -> (l: &mut TheSizeLimiter)
        ensures
            *l == old(self).limiter,
            *final(self) == (TheDropdownMenu { limiter: *final(l), ..*old(self) }),
    {
        &mut self.limiter
    }

    open spec fn current_dim(&self) -> TheDim {
        self.dim
    }

    fn dim(&self) -> (d: &TheDim)
        ensures
            *d == self.dim,
    {
        &self.dim
    }

    fn dim_mut(&mut self) -> (d: &mut TheDim)
        ensures
            *d == old(self).dim,
            *final(self) == (TheDropdownMenu { dim: *final(d), ..*old(self) }),
    {
        &mut self.dim
    }

    fn set_dim(&mut self, dim: TheDim)
        ensures
            *final(self) == (TheDropdownMenu {
                dim,
                is_dirty: old(self).is_dirty || old(self).dim != dim,
                ..*old(self)
            }),
    {
        if self.dim != dim {
            self.dim = dim;
            self.is_dirty = true;
        }
    }

    fn needs_redraw(&mut self) -> (b: bool)
        ensures
            b == old(self).is_dirty,
            *final(self) == *old(self),
    {
        self.is_dirty
    }

    fn set_needs_redraw(&mut self, redraw: bool)
        ensures
            *final(self) == (TheDropdownMenu { is_dirty: redraw, ..*old(self) }),
    {
        self.is_dirty = redraw;
    }

    fn state(&self) -> (s: TheWidgetState)
        ensures
            s == self.state,
    {
        self.state
    }

    fn set_state(&mut self, state: TheWidgetState)
        ensures
            *final(self) == (TheDropdownMenu { state, is_dirty: true, ..*old(self) }),
    {
        self.state = state;
        self.is_dirty = true;
    }

    fn supports_hover(&mut self) -> (b: bool)
        ensures
            b,
            *final(self) == *old(self),
    {
        true
    }
}

/// Adding an option to a dropdown menu.
pub trait TheDropdownMenuTrait {
    fn add_option(&mut self, option: String);
}

impl TheDropdownMenuTrait for TheDropdownMenu {
    fn add_option(&mut self, option: String)
        ensures
            *final(self) == (TheDropdownMenu { options: final(self).options, ..*old(self) }),
            final(self).options@ == old(self).options@.push(option),
            old(self).wf() && old(self).options@.len() < i32::MAX ==> final(self).wf(),
    {
        self.options.push(option);
    }
}

} // verus!

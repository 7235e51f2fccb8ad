//! A bar of tabs of which one is selected.
use vstd::prelude::*;
use crate::widget::{
    dim_zero, same_widget, state_event, TheDim, TheEvent, TheSizeLimiter, TheUi, TheWidget,
    TheWidgetId, TheWidgetState,
};

verus! {

/// Width of one tab.
pub const TAB_WIDTH: i32 = 142;

pub struct TheTabbar {
    pub widget_id: TheWidgetId,
    pub limiter: TheSizeLimiter,
    pub state: TheWidgetState,
    pub tabs: Vec<String>,
    pub selected: i32,
    pub original: i32,
    pub selected_index: Option<i32>,
    pub hover_index: Option<i32>,
    pub dim: TheDim,
    pub is_dirty: bool,
}

/// Division rounding toward zero, as machine division does.
pub open spec fn div_toward_zero(x: int, d: int) -> int {
    if x >= 0 {
        x / d
    } else {
        -((-x) / d)
    }
}

/// The tab under the horizontal position `x` among `count` tabs, if any; positions up to
/// a tab's width left of the bar count as the first tab, since the division rounds toward
/// zero.
pub open spec fn tab_at(x: i32, count: nat) -> Option<i32> {
    let index = div_toward_zero(x as int, TAB_WIDTH as int);
    if 0 <= index < count {
        Some(index as i32)
    } else {
        None
    }
}

/// The first position of `name` among `tabs`, if any.
pub open spec fn first_tab_named(tabs: Seq<String>, name: Seq<char>) -> Option<int> {
    if exists|i: int| 0 <= i < tabs.len() && tabs[i]@ == name {
        Some(choose|i: int| 0 <= i < tabs.len() && tabs[i]@ == name
            && forall|j: int| 0 <= j < i ==> tabs[j]@ != name)
    } else {
        None
    }
}

impl TheTabbar {
    /// The tab indices are not negative, and the tabs can be counted in an `i32`.
    pub open spec fn wf(&self) -> bool {
        &&& self.tabs@.len() <= i32::MAX
        &&& self.selected_index matches Some(i) ==> i >= 0
        &&& self.hover_index matches Some(i) ==> i >= 0
    }

}

impl TheWidget for TheTabbar {
    fn new(name: String) -> (w: Self)
        ensures
            w.widget_id.name@ == name@,
            w.limiter.max_width == i32::MAX && w.limiter.max_height == 22,
            w.state == TheWidgetState::Normal,
            w.tabs@.len() == 0,
            w.selected == 0 && w.original == 0,
            w.selected_index == Some(0i32),
            w.hover_index is None,
            w.dim == dim_zero(),
            !w.is_dirty,
            w.wf(),
    {
        let mut limiter = TheSizeLimiter::new();
        limiter.set_max_height(22);
        TheTabbar {
            widget_id: TheWidgetId::new(name),
            limiter,
            state: TheWidgetState::Normal,
            tabs: Vec::new(),
            selected: 0,
            original: 0,
            selected_index: Some(0),
            hover_index: None,
            dim: TheDim::zero(),
            is_dirty: false,
        }
    }

    fn id(&self) -> (id: &TheWidgetId)
        ensures
            *id == self.widget_id,
    {
        &self.widget_id
    }

    open spec fn accepts(&self, event: &TheEvent) -> bool {
        self.wf()
    }

    /// A press selects the bar (telling so once, and taking the focus) and selects the tab
    /// under it, or none left or right of the tabs; a hover takes the hover and marks the
    /// tab under it, or none; losing the hover unmarks.
    fn on_event(&mut self, event: &TheEvent, ui: &mut TheUi) -> (redraw: bool)
        ensures
            final(self).wf(),
            event matches TheEvent::MouseDown(p) ==> {
                let first = old(self).state != TheWidgetState::Selected;
                let tab = tab_at(p.x, old(self).tabs@.len());
                let moves = tab != old(self).selected_index;
                &&& redraw == (first || moves)
                &&& *final(self) == (TheTabbar {
                    state: TheWidgetState::Selected,
                    original: if first { old(self).selected } else { old(self).original },
                    selected_index: tab,
                    is_dirty: true,
                    ..*old(self)
                })
                &&& first ==> final(ui).events@ == old(ui).events@.push(
                    state_event(old(self).widget_id, TheWidgetState::Selected),
                ) && *final(ui) == (TheUi {
                    focus: Some(old(self).widget_id),
                    events: final(ui).events,
                    ..*old(ui)
                })
                &&& !first ==> *final(ui) == *old(ui)
            },
            event matches TheEvent::Hover(p) ==> {
                let takes = !same_widget(&old(self).widget_id, &old(ui).hover);
                let tab = tab_at(p.x, old(self).tabs@.len());
                let moves = tab != old(self).hover_index;
                &&& redraw == (takes || moves)
                &&& *final(self) == (TheTabbar {
                    hover_index: tab,
                    is_dirty: old(self).is_dirty || takes || moves,
                    ..*old(self)
                })
                &&& takes ==> *final(ui) == (TheUi { hover: Some(old(self).widget_id), ..*old(ui) })
                &&& !takes ==> *final(ui) == *old(ui)
            },
            event is LostHover ==> redraw && *final(self) == (TheTabbar {
                hover_index: None,
                is_dirty: true,
                ..*old(self)
            }) && *final(ui) == *old(ui),
            !(event is MouseDown) && !(event is Hover) && !(event is LostHover) ==> !redraw
                && *final(self) == *old(self) && *final(ui) == *old(ui),
    {
        let mut redraw = false;
        match event {
            TheEvent::MouseDown(coord) => {
                self.is_dirty = true;
                if self.state != TheWidgetState::Selected {
                    self.state = TheWidgetState::Selected;
                    ui.send_widget_state_changed(&self.widget_id, self.state);
                    ui.set_focus(&self.widget_id);
                    self.original = self.selected;
                    redraw = true;
                }
                let index = coord.x / TAB_WIDTH;
                if index >= 0 && index < self.tabs.len() as i32 {
                    if Some(index) != self.selected_index {
                        self.selected_index = Some(index);
                        redraw = true;
                        self.is_dirty = true;
                    }
                } else if self.selected_index.is_some() {
                    self.selected_index = None;
                    redraw = true;
                    self.is_dirty = true;
                }
            },
            TheEvent::Hover(coord) => {
                if !self.widget_id.equals(&ui.hover) {
                    ui.set_hover(&self.widget_id);
                    redraw = true;
                    self.is_dirty = true;
                }
                let index = coord.x / TAB_WIDTH;
                if index >= 0 && index < self.tabs.len() as i32 {
                    if Some(index) != self.hover_index {
                        self.hover_index = Some(index);
                        redraw = true;
                        self.is_dirty = true;
                    }
                } else if self.hover_index.is_some() {
                    self.hover_index = None;
                    redraw = true;
                    self.is_dirty = true;
                }
            },
            TheEvent::LostHover(_) => {
                self.hover_index = None;
                redraw = true;
                self.is_dirty = true;
            },
            _ => {},
        }
        redraw
    }

    fn limiter(&self) -> (l: &TheSizeLimiter)
        ensures
            *l == self.limiter,
    {
        &self.limiter
    }

    fn limiter_mut(&mut self) -> (l: &mut TheSizeLimiter)
        ensures
            *l == old(self).limiter,
            *final(self) == (TheTabbar { limiter: *final(l), ..*old(self) }),
    {
        &mut self.limiter
    }

    open spec fn current_dim(&self) -> TheDim {
        self.dim
    }

    fn dim(&self) -> (d: &TheDim)
        ensures
            *d == self.dim,
    {
        &self.dim
    }

    fn dim_mut(&mut self) -> (d: &mut TheDim)
        ensures
            *d == old(self).dim,
            *final(self) == (TheTabbar { dim: *final(d), ..*old(self) }),
    {
        &mut self.dim
    }

    fn set_dim(&mut self, dim: TheDim)
        ensures
            *final(self) == (TheTabbar {
                dim,
                is_dirty: old(self).is_dirty || old(self).dim != dim,
                ..*old(self)
            }),
    {
        if self.dim != dim {
            self.dim = dim;
            self.is_dirty = true;
        }
    }

    fn needs_redraw(&mut self) -> (b: bool)
        ensures
            b == old(self).is_dirty,
            *final(self) == *old(self),
    {
        self.is_dirty
    }

    fn set_needs_redraw(&mut self, redraw: bool)
        ensures
            *final(self) == (TheTabbar { is_dirty: redraw, ..*old(self) }),
    {
        self.is_dirty = redraw;
    }

    fn state(&self) -> (s: TheWidgetState)
        ensures
            s == self.state,
    {
        self.state
    }

    fn set_state(&mut self, state: TheWidgetState)
        ensures
            *final(self) == (TheTabbar { state, is_dirty: true, ..*old(self) }),
    {
        self.state = state;
        self.is_dirty = true;
    }

    fn supports_hover(&mut self) -> (b: bool)
        ensures
            b,
            *final(self) == *old(self),
    {
        true
    }
}

/// Managing the tabs of a tab bar.
pub trait TheTabbarTrait {
    /// What the tab bar needs to be worked on.
    spec fn tabs_wf(&self) -> bool;

    fn add_tab(&mut self, name: String);

    fn selection(&self) -> Option<String>
        requires
            self.tabs_wf(),
    ;

    fn set_selection(&mut self, name: String)
        requires
            old(self).tabs_wf(),
    ;
}

impl TheTabbarTrait for TheTabbar {
    open spec fn tabs_wf(&self) -> bool {
        self.wf()
    }

    /// Appends a tab.
    fn add_tab(&mut self, name: String)
        ensures
            *final(self) == (TheTabbar { tabs: final(self).tabs, ..*old(self) }),
            final(self).tabs@ == old(self).tabs@.push(name),
            old(self).wf() && old(self).tabs@.len() < i32::MAX ==> final(self).wf(),
    {
        self.tabs.push(name);
    }

    /// The name of the selected tab, if a tab is selected.
    fn selection(&self) -> (r: Option<String>)
        ensures
            r == (match self.selected_index {
                Some(i) => if i < self.tabs@.len() {
                    Some(self.tabs@[i as int])
                } else {
                    None
                },
                None => None,
            }),
    {
        if let Some(index) = self.selected_index {
            if index < self.tabs.len() as i32 {
                return Some(self.tabs[index as usize].clone());
            }
        }
        None
    }

    /// Selects the first tab with the name, or none when no tab has it.
    fn set_selection(&mut self, name: String)
        ensures
            final(self).wf(),
            *final(self) == (TheTabbar {
                selected_index: match first_tab_named(old(self).tabs@, name@) {
                    Some(i) => Some(i as i32),
                    None => None,
                },
                is_dirty: true,
                ..*old(self)
            }),
    {
        self.is_dirty = true;
        let mut index: usize = 0;
        while index < self.tabs.len()
            invariant
                index <= self.tabs@.len(),
                self.wf(),
                *self == (TheTabbar { is_dirty: true, ..*old(self) }),
                forall|j: int| 0 <= j < index ==> self.tabs@[j]@ != name@,
            decreases self.tabs@.len() - index,
        {
            if name == self.tabs[index] {
                proof {
                    let ghost i = index as int;
                    assert(0 <= i < self.tabs@.len() && self.tabs@[i]@ == name@);
                    let ghost c = choose|k: int| 0 <= k < self.tabs@.len() && self.tabs@[k]@ == name@
                        && forall|j: int| 0 <= j < k ==> self.tabs@[j]@ != name@;
                    assert(0 <= c < self.tabs@.len() && self.tabs@[c]@ == name@
                        && forall|j: int| 0 <= j < c ==> self.tabs@[j]@ != name@);
                    assert(c == i) by {
                        if c < i {
                            assert(self.tabs@[c]@ != name@);
                        }
                        if i < c {
                            assert(self.tabs@[i]@ != name@);
                        }
                    }
                }
                self.selected_index = Some(index as i32);
                return;
            }
            index = index + 1;
        }
        self.selected_index = None;
    }
}

} // verus!

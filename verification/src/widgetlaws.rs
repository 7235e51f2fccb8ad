//! Properties that relate several events or operations on the widgets.
use vstd::prelude::*;

use crate::widget::{TheWidgetId, TheWidgetState};
use crate::widgets::dropdownmenu::{menu_dragged, menu_pressed, menu_release_reports, TheDropdownMenu};
use crate::widgets::iconview::{frame_after_steps, next_frame};
use crate::widgets::listitem::press_selects;
use crate::widgets::snapperbar::{snapper_pressed, snapper_released, TheSnapperbar};
use crate::widgets::tabbar::first_tab_named;
use crate::widgets::verticalscrollbar::clamped_scroll;

verus! {

/// Scrolling keeps the offset within the content (from 0 to the content's size less the
/// visible size), when the content is at least as large as the visible area.
pub proof fn law_scroll_stays_in_content(offset: int, delta: int, max_offset: int)
    requires
        0 <= max_offset,
    ensures
        0 <= clamped_scroll(offset, delta, max_offset) <= max_offset,
{
}

/// Scrolling by the distance to an offset within the content lands on that offset.
pub proof fn law_scroll_reaches_target(offset: int, target: int, max_offset: int)
    requires
        0 <= target <= max_offset,
    ensures
        clamped_scroll(offset, target - offset, max_offset) == target,
{
}

/// A click (a press, then a release) on a snapper bar that is not held opens a closed
/// section or closes an open one, and leaves the bar not held.
pub proof fn law_click_toggles_section(s: TheSnapperbar)
    requires
        s.state != TheWidgetState::Clicked,
    ensures
        snapper_released(snapper_pressed(s)).open == !s.open,
        snapper_released(snapper_pressed(s)).state == TheWidgetState::Normal,
{
}

/// Opening a menu and releasing it without a drag reports no value.
pub proof fn law_menu_click_reports_nothing(m: TheDropdownMenu)
    requires
        m.state != TheWidgetState::Clicked,
    ensures
        !menu_release_reports(menu_pressed(m)),
{
}

/// Opening a menu, dragging to an option other than the one shown, and releasing reports
/// that option.
pub proof fn law_menu_pick_reports_option(m: TheDropdownMenu, y: int, i: int)
    requires
        m.wf(),
        m.state != TheWidgetState::Clicked,
        m.option_at(y) == Some(i),
        i != m.selected,
    ensures
        menu_release_reports(menu_dragged(menu_pressed(m), y)),
        menu_dragged(menu_pressed(m), y).selected == i,
{
}

/// A press on a list or tree item that is selected and has the focus, as a press leaves
/// it, asks for no new selection.
pub proof fn law_second_press_selects_nothing(id: TheWidgetId)
    ensures
        !press_selects(TheWidgetState::Selected, id, Some(id)),
{
}

/// Selecting a tab by a name that some tab has selects a tab with that name, the first one;
/// a name that no tab has selects none.
pub proof fn law_tab_selection_by_name(tabs: Seq<String>, name: Seq<char>)
    ensures
        first_tab_named(tabs, name) matches Some(i) ==> 0 <= i < tabs.len() && tabs[i]@ == name
            && forall|j: int| 0 <= j < i ==> tabs[j]@ != name,
        first_tab_named(tabs, name) is None <==> forall|j: int| 0 <= j < tabs.len() ==> tabs[j]@ != name,
{
    if exists|i: int| 0 <= i < tabs.len() && tabs[i]@ == name {
        let w = choose|i: int| 0 <= i < tabs.len() && tabs[i]@ == name;
        lemma_first_named_exists(tabs, name, w);
    }
}

/// Some position holds the name, so a first one does.
proof fn lemma_first_named_exists(tabs: Seq<String>, name: Seq<char>, w: int)
    requires
        0 <= w < tabs.len(),
        tabs[w]@ == name,
    ensures
        exists|i: int| 0 <= i < tabs.len() && tabs[i]@ == name
            && forall|j: int| 0 <= j < i ==> tabs[j]@ != name,
    decreases w,
{
    if exists|j: int| 0 <= j < w && tabs[j]@ == name {
        let v = choose|j: int| 0 <= j < w && tabs[j]@ == name;
        lemma_first_named_exists(tabs, name, v);
    } else {
        assert(forall|j: int| 0 <= j < w ==> tabs[j]@ != name);
    }
}

/// Stepping an animation shows, after `k` steps, the frame `k` further on, going round.
pub proof fn law_steps_go_round(index: nat, frames: nat, k: nat)
    requires
        index < frames,
    ensures
        frame_after_steps(index, frames, k) == ((index + k) as int) % (frames as int),
    decreases k,
{
    if k == 0 {
        vstd::arithmetic::div_mod::lemma_fundamental_div_mod_converse(
            index as int,
            frames as int,
            0,
            index as int,
        );
    } else {
        law_steps_go_round(index, frames, (k - 1) as nat);
        let x = (index + k - 1) as int % (frames as int);
        let q = (index + k - 1) as int / (frames as int);
        vstd::arithmetic::div_mod::lemma_fundamental_div_mod((index + k - 1) as int, frames as int);
        vstd::arithmetic::div_mod::lemma_mod_pos_bound((index + k - 1) as int, frames as int);
        assert(index + k - 1 == q * frames + x) by (nonlinear_arith)
            requires
                index + k - 1 == frames * q + x,
        ;
        if x + 1 < frames {
            assert(index + k == q * frames + (x + 1));
            vstd::arithmetic::div_mod::lemma_fundamental_div_mod_converse(
                (index + k) as int,
                frames as int,
                q,
                x + 1,
            );
        } else {
            assert(index + k == (q + 1) * frames + 0) by (nonlinear_arith)
                requires
                    index + k - 1 == q * frames + x,
                    x + 1 == frames,
            ;
            vstd::arithmetic::div_mod::lemma_fundamental_div_mod_converse(
                (index + k) as int,
                frames as int,
                q + 1,
                0,
            );
        }
    }
}

/// Stepping an animation as many times as it has frames comes back to the frame shown.
pub proof fn law_full_round_returns(index: nat, frames: nat)
    requires
        index < frames,
    ensures
        frame_after_steps(index, frames, frames) == index,
{
    law_steps_go_round(index, frames, frames);
    vstd::arithmetic::div_mod::lemma_fundamental_div_mod_converse(
        (index + frames) as int,
        frames as int,
        1,
        index as int,
    );
}

/// A step from a frame shown stays among the frames.
pub proof fn law_step_stays_in_frames(index: nat, frames: nat)
    requires
        index < frames,
    ensures
        next_frame(index, frames) < frames,
{
}

} // verus!

use theframework::widget::{
    TheDim, TheEvent, TheRGBABuffer, TheRGBATile, TheUi, TheValue, TheWidget, TheWidgetId,
    TheWidgetState, Vec2i,
};
use theframework::widgets::colorbutton::{TheColorButton, TheColorColorButtonTrait};
use theframework::widgets::dropdownmenu::{TheDropdownMenu, TheDropdownMenuTrait};
use theframework::widgets::groupbutton::{TheGroupButton, TheGroupButtonTrait};
use theframework::widgets::horizontalscrollbar::{TheHorizontalScrollbar, TheHorizontalScrollbarTrait};
use theframework::widgets::iconview::{TheIconView, TheIconViewTrait};
use theframework::widgets::listitem::{far_enough, TheListItem, TheListItemTrait};
use theframework::widgets::palettepicker::ThePalettePicker;
use theframework::widgets::sectionbarbutton::{TheSectionbarButton, TheSectionbarButtonTrait};
use theframework::widgets::sectionheader::{TheSectionHeader, TheSectionHeaderTrait};
use theframework::widgets::snapperbar::{TheSnapperbar, TheSnapperbarTrait};
use theframework::widgets::switchbar::TheSwitchbar;
use theframework::widgets::tabbar::{TheTabbar, TheTabbarTrait};
use theframework::widgets::timeslider::{TheTimeSlider, TheTimeSliderTrait};
use theframework::widgets::treeitem::{TheTreeItem, TheTreeItemTrait};
use theframework::widgets::verticalscrollbar::{TheVerticalScrollbar, TheVerticalScrollbarTrait};
use theframework::widget::TheContextMenu;
use theframework::widgets::traybarbutton::{TheTraybarButton, TheTraybarButtonTrait};
use theframework::widget::{V4_BITS, V4_MASK};

fn p(x: i32, y: i32) -> Vec2i {
    Vec2i::new(x, y)
}

fn is_state_changed(e: &TheEvent, uuid: u128, state: TheWidgetState) -> bool {
    matches!(e, TheEvent::StateChanged(id, s) if id.uuid == uuid && *s == state)
}

#[test]
fn widget_ids() {
    let a = TheWidgetId::new("a".to_string());
    let b = TheWidgetId::new("a".to_string());
    assert_eq!(a.name, "a");
    assert_ne!(a.uuid, b.uuid);
    assert!(a.matches(Some(&"a".to_string()), None));
    assert!(a.matches(None, Some(&a.uuid)));
    assert!(!a.matches(Some(&"b".to_string()), Some(&b.uuid)));
    assert!(!a.matches(None, None));
    assert!(a.equals(&Some(a.clone_id())));
    assert!(!a.equals(&Some(b.clone_id())));
    assert!(!a.equals(&None));
    let e = TheWidgetId::empty();
    assert_eq!(e.name, "");
    assert_eq!(e.uuid, 0);
}

#[test]
fn dims() {
    let d = TheDim::new(10, 20, 5, 5);
    assert!(d.is_valid());
    assert!(d.contains(p(10, 20)));
    assert!(d.contains(p(14, 24)));
    assert!(!d.contains(p(15, 24)));
    assert!(!d.contains(p(9, 20)));
    assert!(!TheDim::zero().is_valid());
}

#[test]
fn color_button() {
    let mut b = TheColorButton::new("c".to_string());
    let mut ui = TheUi::new();
    b.set_dim(TheDim::new(0, 0, 10, 10));
    assert!(b.needs_redraw());
    b.set_needs_redraw(false);
    b.set_dim(TheDim::new(0, 0, 10, 10));
    assert!(!b.needs_redraw());
    assert!(!b.on_event(&TheEvent::MouseDown(p(1, 1)), &mut ui));
    assert!(b.widget_id.equals(&ui.focus));
    assert!(b.needs_redraw());
    b.set_color([1, 2, 3, 4]);
    assert_eq!(b.color, [1, 2, 3, 4]);
}

#[test]
fn sectionbar_button_selects_once() {
    let mut b = TheSectionbarButton::new("s".to_string());
    let mut ui = TheUi::new();
    assert!(b.on_event(&TheEvent::Hover(p(0, 0)), &mut ui));
    assert!(b.widget_id.equals(&ui.hover));
    assert!(!b.on_event(&TheEvent::Hover(p(0, 0)), &mut ui));
    assert!(b.on_event(&TheEvent::MouseDown(p(0, 0)), &mut ui));
    assert_eq!(b.state(), TheWidgetState::Selected);
    assert!(b.on_event(&TheEvent::MouseDown(p(0, 0)), &mut ui));
    assert_eq!(ui.events.len(), 1);
    assert!(is_state_changed(&ui.events[0], b.widget_id.uuid, TheWidgetState::Selected));
    b.set_text("t".to_string());
    assert_eq!(b.text, "t");
    assert!(b.supports_hover());
}

#[test]
fn section_header_and_switchbar() {
    let mut h = TheSectionHeader::new("h".to_string());
    let mut ui = TheUi::new();
    assert!(!h.on_event(&TheEvent::MouseDown(p(0, 0)), &mut ui));
    assert!(h.widget_id.equals(&ui.focus));
    h.set_text("x".to_string());
    assert_eq!(h.text, "x");
    h.set_dim(TheDim::new(1, 2, 3, 4));
    assert_eq!(*h.dim(), TheDim::new(1, 2, 3, 4));

    let mut s = TheSwitchbar::new("w".to_string());
    let mut ui = TheUi::new();
    assert!(!s.on_event(&TheEvent::MouseDown(p(0, 0)), &mut ui));
    assert!(ui.focus.is_none() && ui.events.is_empty());
    s.set_dim(TheDim::new(1, 2, 3, 4));
    assert!(s.needs_redraw());
    theframework::widgets::switchbar::TheSectionHeaderTrait::set_text(&mut s, "y".to_string());
    assert_eq!(s.text, "y");
}

#[test]
fn dropdown_pick_reports_value() {
    let mut m = TheDropdownMenu::new("m".to_string());
    for o in ["a", "b", "c"] {
        m.add_option(o.to_string());
    }
    let mut ui = TheUi::new();
    assert!(m.on_event(&TheEvent::MouseDown(p(0, 0)), &mut ui));
    assert_eq!(m.state(), TheWidgetState::Clicked);
    assert!(m.widget_id.equals(&ui.focus));
    assert!(m.widget_id.equals(&ui.overlay));
    assert!(m.on_event(&TheEvent::MouseDragged(p(0, 45)), &mut ui));
    assert_eq!(m.selected, 1);
    assert!(m.on_event(&TheEvent::MouseDragged(p(0, 10)), &mut ui));
    assert_eq!(m.selected, 1);
    assert!(m.on_event(&TheEvent::MouseDragged(p(0, 500)), &mut ui));
    assert_eq!(m.selected, 1);
    assert!(m.on_event(&TheEvent::MouseUp(p(0, 0)), &mut ui));
    assert_eq!(m.state(), TheWidgetState::Normal);
    assert!(ui.overlay.is_none());
    assert_eq!(ui.events.len(), 3);
    assert!(is_state_changed(&ui.events[0], m.widget_id.uuid, TheWidgetState::Clicked));
    assert!(is_state_changed(&ui.events[1], m.widget_id.uuid, TheWidgetState::Normal));
    assert!(matches!(&ui.events[2], TheEvent::ValueChanged(_, TheValue::Text(t)) if t == "b"));
}

#[test]
fn dropdown_click_without_drag_reports_nothing() {
    let mut m = TheDropdownMenu::new("m".to_string());
    m.add_option("a".to_string());
    m.add_option("b".to_string());
    let mut ui = TheUi::new();
    m.on_event(&TheEvent::MouseDown(p(0, 0)), &mut ui);
    m.on_event(&TheEvent::MouseUp(p(0, 0)), &mut ui);
    assert_eq!(ui.events.len(), 2);
    assert!(!ui.events.iter().any(|e| matches!(e, TheEvent::ValueChanged(..))));
}

#[test]
fn dropdown_limits() {
    let m = TheDropdownMenu::new("m".to_string());
    assert_eq!(m.limiter().max_width, 142);
    assert_eq!(m.limiter().max_height, 20);
    let mut m = m;
    let mut ui = TheUi::new();
    assert!(!m.on_event(&TheEvent::MouseDragged(p(0, 45)), &mut ui));
    assert!(m.on_event(&TheEvent::Hover(p(0, 0)), &mut ui));
    assert!(m.widget_id.equals(&ui.hover));
}

#[test]
fn group_button_selects_by_position() {
    let mut g = TheGroupButton::new("g".to_string());
    for t in ["x", "y", "z"] {
        g.add_text(t.to_string());
    }
    assert_eq!(g.icons.len(), 3);
    g.calculate_size();
    assert_eq!(g.limiter().max_width, 182);
    let mut ui = TheUi::new();
    assert!(g.on_event(&TheEvent::MouseDown(p(70, 5)), &mut ui));
    assert_eq!(g.selected_index, Some(1));
    assert_eq!(ui.events.len(), 2);
    assert!(matches!(ui.events[1], TheEvent::IndexChanged(_, 1)));
    assert!(g.on_event(&TheEvent::MouseDown(p(130, 5)), &mut ui));
    assert_eq!(ui.events.len(), 3);
    assert!(matches!(ui.events[2], TheEvent::IndexChanged(_, 2)));
    assert!(g.on_event(&TheEvent::Hover(p(10, 5)), &mut ui));
    assert_eq!(g.hover_index, Some(0));
    assert!(g.on_event(&TheEvent::LostHover(g.id.clone_id()), &mut ui));
    assert_eq!(g.hover_index, None);
    g.set_disabled(true);
    assert!(g.disabled());
    assert_eq!(g.state, TheWidgetState::Normal);
}

#[test]
fn vertical_scrollbar_drags_content() {
    let mut s = TheVerticalScrollbar::new("v".to_string());
    s.set_dim(TheDim::new(0, 0, 10, 100));
    s.set_total_height(300);
    assert!(s.needs_scrollbar());
    let mut ui = TheUi::new();
    s.on_event(&TheEvent::MouseDown(p(0, 10)), &mut ui);
    assert_eq!(s.state(), TheWidgetState::Clicked);
    s.on_event(&TheEvent::MouseDragged(p(0, 40)), &mut ui);
    assert_eq!(s.scroll_offset(), 30);
    s.on_event(&TheEvent::MouseDragged(p(0, 500)), &mut ui);
    assert_eq!(s.scroll_offset(), 200);
    s.on_event(&TheEvent::MouseDragged(p(0, -1000)), &mut ui);
    assert_eq!(s.scroll_offset(), 0);
    s.on_event(&TheEvent::MouseUp(p(0, 0)), &mut ui);
    assert_eq!(s.state(), TheWidgetState::Normal);
    assert_eq!(ui.events.len(), 2);
    s.scroll_by(50);
    assert_eq!(s.scroll_offset(), 50);
    assert_eq!(s.viewport_height(), 100);
}

#[test]
fn scroll_by_when_content_smaller_than_view() {
    let mut s = TheVerticalScrollbar::new("v".to_string());
    s.set_dim(TheDim::new(0, 0, 10, 100));
    s.set_total_height(40);
    s.scroll_by(5);
    assert_eq!(s.scroll_offset(), -60);
}

#[test]
fn horizontal_scrollbar_with_thumb() {
    let mut s = TheHorizontalScrollbar::new("h".to_string());
    s.set_dim(TheDim::new(0, 0, 100, 20));
    s.set_total_width(400);
    let mut ui = TheUi::new();
    let r = s.on_event_with_thumb(&TheEvent::MouseDown(p(50, 5)), &mut ui, 0, 25);
    assert!(r.redraw && r.thumb_delta.is_none());
    assert_eq!(s.scroll_offset(), 100);
    let r = s.on_event_with_thumb(&TheEvent::MouseDown(p(30, 5)), &mut ui, 25, 25);
    assert!(r.redraw);
    assert_eq!(s.state(), TheWidgetState::Clicked);
    let r = s.on_event_with_thumb(&TheEvent::MouseDragged(p(50, 5)), &mut ui, 25, 25);
    assert_eq!(r.thumb_delta, Some(20));
    s.scroll_by(1000);
    assert_eq!(s.scroll_offset(), 300);
    s.scroll_from_track_click(0, 75, 25);
    assert_eq!(s.scroll_offset(), 200);
    s.scroll_from_track_click(80, 75, 25);
    assert_eq!(s.scroll_offset(), 200);
    let r = s.on_event_with_thumb(&TheEvent::MouseUp(p(0, 0)), &mut ui, 50, 25);
    assert!(r.redraw);
    assert_eq!(s.state(), TheWidgetState::Normal);
    let r = s.on_event_with_thumb(&TheEvent::Hover(p(60, 5)), &mut ui, 50, 25);
    assert!(r.redraw);
    assert!(s.id.equals(&ui.hover));
    let r = s.on_event_with_thumb(&TheEvent::Hover(p(0, 5)), &mut ui, 50, 25);
    assert!(r.redraw);
    assert!(ui.hover.is_none());
}

#[test]
fn icon_view_steps_round() {
    let mut v = TheIconView::new("i".to_string());
    let frame = || TheRGBABuffer { dim: TheDim::new(0, 0, 1, 1), buffer: vec![0, 0, 0, 0] };
    v.set_rgba_tile(TheRGBATile { buffer: vec![frame(), frame(), frame()] });
    assert_eq!(v.index, 0);
    v.step();
    assert_eq!(v.index, 1);
    v.step();
    v.step();
    assert_eq!(v.index, 0);
    v.set_rgba_tile(TheRGBATile { buffer: vec![frame()] });
    v.is_dirty = false;
    v.step();
    assert_eq!(v.index, 0);
    assert!(!v.needs_redraw());
}

#[test]
fn palette_picker_reports_click() {
    let mut pp = ThePalettePicker::new("p".to_string());
    let mut ui = TheUi::new();
    assert!(pp.on_event(&TheEvent::MouseDown(p(0, 0)), &mut ui));
    assert!(is_state_changed(&ui.events[0], pp.id.uuid, TheWidgetState::Clicked));
    assert!(!pp.on_event(&TheEvent::MouseUp(p(0, 0)), &mut ui));
    assert_eq!(pp.limiter().max_width, 200);
}

#[test]
fn snapper_click_toggles() {
    let mut s = TheSnapperbar::new("s".to_string());
    let mut ui = TheUi::new();
    assert!(s.open);
    s.on_event(&TheEvent::MouseDown(p(0, 0)), &mut ui);
    s.on_event(&TheEvent::MouseUp(p(0, 0)), &mut ui);
    assert!(!s.open);
    assert!(ui.redraw_all && ui.relayout);
    s.on_event(&TheEvent::MouseDown(p(0, 0)), &mut ui);
    s.on_event(&TheEvent::MouseUp(p(0, 0)), &mut ui);
    assert!(s.open);
    assert_eq!(ui.events.len(), 4);
    ui.relayout = false;
    s.on_event(&TheEvent::MouseUp(p(0, 0)), &mut ui);
    assert!(s.open && !ui.relayout);
    s.set_canvas_collapse_uuid(7);
    assert_eq!(s.collapse_uuid, Some(7));
    s.set_text("t".to_string());
    assert_eq!(s.text, "t");
}

#[test]
fn list_item_selects_and_drags() {
    let mut li = TheListItem::new("l".to_string());
    li.set_text("item".to_string());
    let layout = TheWidgetId::new("layout".to_string());
    li.set_associated_layout(layout.clone_id());
    let mut ui = TheUi::new();
    assert!(!li.on_event(&TheEvent::Context(p(3, 4)), &mut ui));
    assert!(matches!(&ui.events[0], TheEvent::ShowContextMenu(_, c, None) if *c == p(3, 4)));
    assert!(li.on_event(&TheEvent::MouseDown(p(0, 0)), &mut ui));
    assert_eq!(ui.events.len(), 3);
    assert!(matches!(&ui.events[2], TheEvent::NewListItemSelected(_, l) if l.uuid == layout.uuid));
    assert!(!li.on_event(&TheEvent::MouseDown(p(0, 0)), &mut ui));
    assert_eq!(ui.events.len(), 3);
    li.on_event(&TheEvent::MouseDragged(p(3, 3)), &mut ui);
    assert_eq!(ui.events.len(), 3);
    li.on_event(&TheEvent::MouseDragged(p(3, 4)), &mut ui);
    assert_eq!(ui.events.len(), 4);
    assert!(matches!(&ui.events[3], TheEvent::DragStarted(_, t, _) if t == "item"));
    ui.dragging = true;
    li.on_event(&TheEvent::MouseDragged(p(30, 40)), &mut ui);
    assert_eq!(ui.events.len(), 4);
}

#[test]
fn drag_distance() {
    assert!(far_enough(p(0, 0), p(3, 4)));
    assert!(!far_enough(p(0, 0), p(3, 3)));
    assert!(far_enough(p(i32::MIN, 0), p(i32::MAX, 0)));
}

#[test]
fn list_item_values() {
    let mut li = TheListItem::new("l".to_string());
    li.set_value(TheValue::Text("v".to_string()));
    assert!(matches!(li.value(), TheValue::Text(t) if t == "v"));
    li.set_value(TheValue::Int(3));
    assert_eq!(li.text, "v");
    li.set_value(TheValue::Empty);
    assert_eq!(li.text, "");
    li.set_size(30);
    assert_eq!(li.limiter().max_height, 30);
    li.set_sub_text("s".to_string());
    assert_eq!(li.sub_text, "s");
}

#[test]
fn tabbar_selection_by_name() {
    let mut t = TheTabbar::new("t".to_string());
    t.add_tab("a".to_string());
    t.add_tab("b".to_string());
    assert_eq!(t.selection(), Some("a".to_string()));
    t.set_selection("b".to_string());
    assert_eq!(t.selection(), Some("b".to_string()));
    t.set_selection("z".to_string());
    assert_eq!(t.selection(), None);
}

#[test]
fn tabbar_press_positions() {
    let mut t = TheTabbar::new("t".to_string());
    t.add_tab("a".to_string());
    t.add_tab("b".to_string());
    let mut ui = TheUi::new();
    assert!(t.on_event(&TheEvent::MouseDown(p(150, 0)), &mut ui));
    assert_eq!(t.selected_index, Some(1));
    t.on_event(&TheEvent::MouseDown(p(-10, 0)), &mut ui);
    assert_eq!(t.selected_index, Some(0));
    t.on_event(&TheEvent::MouseDown(p(400, 0)), &mut ui);
    assert_eq!(t.selected_index, None);
    assert_eq!(ui.events.len(), 1);
    t.on_event(&TheEvent::Hover(p(10, 0)), &mut ui);
    assert_eq!(t.hover_index, Some(0));
    t.on_event(&TheEvent::LostHover(t.widget_id.clone_id()), &mut ui);
    assert_eq!(t.hover_index, None);
}

#[test]
fn time_slider_picks_time() {
    let mut s = TheTimeSlider::new("ts".to_string());
    s.set_dim(TheDim::new(0, 0, 100, 20));
    let mut ui = TheUi::new();
    s.on_event(&TheEvent::MouseDown(p(30, 5)), &mut ui);
    assert_eq!(ui.events.len(), 2);
    assert!(matches!(&ui.events[1], TheEvent::ValueChanged(_, TheValue::Time(t)) if t.offset == 30 && t.width == 100));
    s.on_event(&TheEvent::MouseDragged(p(150, 5)), &mut ui);
    assert!(matches!(s.value(), TheValue::Time(t) if t.offset == 100));
    assert_eq!(ui.events.len(), 2);
    s.set_continuous(true);
    s.on_event(&TheEvent::MouseDragged(p(-5, 5)), &mut ui);
    assert_eq!(ui.events.len(), 3);
    assert!(matches!(s.value(), TheValue::Time(t) if t.offset == 0));
    s.on_event(&TheEvent::MouseUp(p(0, 0)), &mut ui);
    assert_eq!(s.state(), TheWidgetState::Normal);
    assert_eq!(ui.events.len(), 4);
    s.set_status_text("busy");
    assert_eq!(s.status_text(), Some("busy".to_string()));
}

#[test]
fn time_slider_set_value() {
    let mut s = TheTimeSlider::new("ts".to_string());
    s.is_dirty = false;
    s.set_value(TheValue::Int(4));
    assert!(matches!(s.value, TheValue::Int(4)));
    assert!(matches!(s.default_value, TheValue::Int(4)));
    assert!(s.needs_redraw());
    s.is_dirty = false;
    s.set_value(TheValue::Int(4));
    assert!(!s.needs_redraw());
}

#[test]
fn tree_item_passes_events_to_its_widget() {
    let mut t = TheTreeItem::new("t".to_string());
    let inner = TheListItem::new("inner".to_string());
    let inner_uuid = inner.id.uuid;
    t.add_widget_column(50, Box::new(inner));
    t.set_dim(TheDim::new(0, 0, 200, 22));
    let mut ui = TheUi::new();
    assert!(t.on_event(&TheEvent::MouseDown(p(160, 5)), &mut ui));
    assert_eq!(ui.events.len(), 4);
    assert!(is_state_changed(&ui.events[0], t.id.uuid, TheWidgetState::Selected));
    assert!(is_state_changed(&ui.events[2], inner_uuid, TheWidgetState::Selected));
    assert!(matches!(&ui.focus, Some(f) if f.uuid == inner_uuid));
    let mut ui = TheUi::new();
    t.on_event(&TheEvent::MouseDown(p(10, 5)), &mut ui);
    assert_eq!(ui.events.len(), 2);
    assert!(matches!(&ui.focus, Some(f) if f.uuid == t.id.uuid));
}

#[test]
fn tree_item_menu_and_wheel() {
    let mut t = TheTreeItem::new("t".to_string());
    let mut ui = TheUi::new();
    assert!(!t.on_event(&TheEvent::Context(p(1, 2)), &mut ui));
    assert!(ui.events.is_empty());
    t.set_context_menu(Some(TheContextMenu { id: TheWidgetId::new("menu".to_string()), items: vec!["cut".to_string()] }));
    assert!(t.on_event(&TheEvent::Context(p(1, 2)), &mut ui));
    assert!(matches!(&ui.events[0], TheEvent::ShowContextMenu(_, c, Some(m)) if *c == p(1, 2) && m.items == vec!["cut".to_string()]));
    let layout = TheWidgetId::new("layout".to_string());
    t.set_associated_layout(layout.clone_id());
    assert!(!t.on_event(&TheEvent::MouseWheel(p(0, 3)), &mut ui));
    assert!(matches!(&ui.events[1], TheEvent::ScrollLayout(l, d) if l.uuid == layout.uuid && *d == p(0, 3)));
    t.add_value_column(20, TheValue::Int(1));
    assert_eq!(t.values.len(), 1);
    t.set_scroll_offset(4);
    assert_eq!(t.scroll_offset, 4);
    t.set_background_color([9, 9, 9, 9]);
    assert_eq!(t.background, Some([9, 9, 9, 9]));
    assert!(!t.supports_text_input());
}

#[test]
fn dims_and_limits_changed_in_place() {
    let mut g = TheGroupButton::new("g".to_string());
    g.dim_mut().width = 33;
    assert_eq!(g.dim().width, 33);
    g.limiter_mut().set_max_height(44);
    assert_eq!(g.limiter().max_height, 44);
    let mut t = TheTreeItem::new("t".to_string());
    t.dim_mut().x = 5;
    assert_eq!(t.dim().x, 5);
}

#[test]
fn horizontal_scrollbar_events_through_the_widget() {
    let mut s = TheHorizontalScrollbar::new("h".to_string());
    s.set_dim(TheDim::new(0, 0, 100, 20));
    s.set_total_width(400);
    s.set_thumb(0, 25);
    let mut ui = TheUi::new();
    assert!(s.on_event(&TheEvent::MouseDown(p(50, 5)), &mut ui));
    assert_eq!(s.scroll_offset(), 100);
    s.set_thumb(25, 25);
    assert!(s.on_event(&TheEvent::MouseDown(p(30, 5)), &mut ui));
    assert_eq!(s.state(), TheWidgetState::Clicked);
    assert!(s.on_event(&TheEvent::MouseDragged(p(50, 5)), &mut ui));
    assert_eq!(s.take_thumb_delta(), Some(20));
    assert_eq!(s.take_thumb_delta(), None);
    assert!(s.on_event(&TheEvent::MouseUp(p(0, 0)), &mut ui));
    assert_eq!(s.state(), TheWidgetState::Normal);
    assert_eq!(ui.events.len(), 2);
}

#[test]
fn widget_ids_are_version_4() {
    for _ in 0..8 {
        let id = TheWidgetId::new("x".to_string());
        assert_eq!(id.uuid & V4_MASK, V4_BITS);
    }
}

#[test]
fn traybar_button_events() {

    let mut b = TheTraybarButton::new("t".to_string());
    let mut ui = TheUi::new();
    assert!(b.on_event(&TheEvent::MouseDown(p(0, 0)), &mut ui));
    assert!(b.id.equals(&ui.focus));
    assert!(is_state_changed(&ui.events[0], b.id.uuid, TheWidgetState::Normal));
    b.set_state(TheWidgetState::Clicked);
    assert!(b.on_event(&TheEvent::MouseUp(p(0, 0)), &mut ui));
    assert_eq!(b.state(), TheWidgetState::Normal);
    assert!(ui.focus.is_none());
    b.set_disabled(true);
    assert!(!b.on_event(&TheEvent::MouseDown(p(0, 0)), &mut ui));
    assert_eq!(ui.events.len(), 1);
    b.set_text("x".to_string());
    b.set_icon_name("i".to_string());
    b.set_icon_offset(p(1, 2));
    assert_eq!((b.text.as_str(), b.icon_name.as_str(), b.icon_offset), ("x", "i", p(1, 2)));
}

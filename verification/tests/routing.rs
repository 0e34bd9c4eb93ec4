use fxhash::FxHashMap;
use gl_gui::geom::{Rect, Vec2};
use gl_gui::gui::event::{Event, Extent, Key, MouseButton};
use gl_gui::gui::gui::{widget_handle_event, EventQueues, Gui, TextMetrics, Theme};
use gl_gui::gui::widgets::{AnyWidget, Button, Col, EmptyWidget, Label, NoFill, Selector, TextEntry};
use gl_gui::ids::WidgetId;

fn theme() -> Theme {
    Theme { advance_y: 10, padding: 3 }
}

fn key_down(code: &str, shift: bool) -> Event {
    Event::KeyDown(Key { code: code.to_string(), shift, ctrl: false, alt: false, is_modifier: false })
}

fn click(x: i32, y: i32) -> Event {
    Event::MouseDown(MouseButton::Left, Vec2::new(x, y))
}

struct Form {
    gui: Gui,
    a: Button,
    b: Button,
    entry: TextEntry,
}

// A column of two buttons and a text entry. On a surface of 200 by 100 the
// first button lies in the rows 0 to 12, the second in 12 to 24, and the
// text entry in 24 to 36.
fn form() -> Form {
    let a = Button::new("A");
    let b = Button::new("B");
    let entry = TextEntry::new("", "", false, 10, false);
    let mut metrics = TextMetrics::new();
    metrics.set(a.id, vec![40]);
    metrics.set(b.id, vec![60]);
    metrics.set(entry.id, vec![0]);
    let label = Label::new("title");
    metrics.set(label.id, vec![30]);
    let tree = AnyWidget::Col(
        Col::new()
            .child(0, AnyWidget::Button(a.clone()))
            .child(0, AnyWidget::Button(b.clone()))
            .child(0, AnyWidget::NoFill(NoFill::new(AnyWidget::TextEntry(entry.clone()))))
            .child(0, AnyWidget::Label(label)),
    );
    let mut gui = Gui::new();
    let res = gui.layout(&theme(), &metrics, Extent { x: 200, y: 100 }, tree).unwrap();
    assert_eq!(res.rendered_size(), Vec2::new(200, 46));
    assert_eq!(gui.widget_rect(a.id), Some(Rect::new(Vec2::new(0, 0), Vec2::new(200, 12))));
    assert_eq!(gui.widget_rect(b.id), Some(Rect::new(Vec2::new(0, 12), Vec2::new(200, 24))));
    assert_eq!(gui.widget_rect(entry.id), Some(Rect::new(Vec2::new(0, 24), Vec2::new(4, 36))));
    Form { gui, a, b, entry }
}

#[test]
fn before_the_first_layout_every_event_is_left_over() {
    let mut gui = Gui::new();
    let events = vec![click(1, 1), key_down("Tab", false), Event::FocusGained];
    let mut res = gui.handle_events(&events, &[]).unwrap();
    assert!(res.component_events.queues.is_empty());
    assert_eq!(res.unhandled_events(), events);
    assert!(res.unhandled_events().is_empty());
    assert_eq!(gui.active_component_id(), None);
}

#[test]
fn a_click_goes_to_the_component_under_it() {
    let mut f = form();
    let order = [f.a.id, f.b.id, f.entry.id];
    let events = vec![click(5, 15)];
    let res = f.gui.handle_events(&events, &order).unwrap();
    assert_eq!(res.component_events.queues.len(), 1);
    assert_eq!(res.component_events.queues[&f.b.id.raw], vec![click(5, 3)]);
    assert_eq!(res.unhandled_events, events);
    assert_eq!(f.gui.active_component_id(), Some(f.b.id));
    assert_eq!(f.gui.active_component, Some((1, f.b.id)));
}

#[test]
fn a_click_outside_every_component_goes_nowhere() {
    let mut f = form();
    let order = [f.a.id, f.b.id, f.entry.id];
    let events = vec![click(5, 40), click(100, 30), click(5, 99)];
    let res = f.gui.handle_events(&events, &order).unwrap();
    assert!(res.component_events.queues.is_empty());
    assert_eq!(res.unhandled_events, events);
    assert_eq!(f.gui.active_component_id(), None);
}

#[test]
fn only_the_left_button_makes_a_component_active() {
    let mut f = form();
    let order = [f.a.id, f.b.id, f.entry.id];
    let right = Event::MouseDown(MouseButton::Right, Vec2::new(7, 13));
    let up = Event::MouseUp(MouseButton::Left, Vec2::new(7, 1));
    let moved = Event::MouseMove { pos: Vec2::new(3, 25), movement: Vec2::new(1, -1) };
    let res = f.gui.handle_events(&[right, up, moved], &order).unwrap();
    assert_eq!(
        res.component_events.queues[&f.b.id.raw],
        vec![Event::MouseDown(MouseButton::Right, Vec2::new(7, 1))]
    );
    assert_eq!(
        res.component_events.queues[&f.a.id.raw],
        vec![Event::MouseUp(MouseButton::Left, Vec2::new(7, 1))]
    );
    assert_eq!(
        res.component_events.queues[&f.entry.id.raw],
        vec![Event::MouseMove { pos: Vec2::new(3, 1), movement: Vec2::new(1, -1) }]
    );
    assert_eq!(f.gui.active_component_id(), None);
}

#[test]
fn the_keyboard_goes_to_the_active_component() {
    let mut f = form();
    let order = [f.a.id, f.b.id, f.entry.id];
    let typed = vec![key_down("KeyA", false), Event::CharEntered('a')];
    let res = f.gui.handle_events(&typed, &order).unwrap();
    assert!(res.component_events.queues.is_empty());
    assert_eq!(res.unhandled_events, typed);

    let events = vec![click(1, 30), key_down("KeyA", false), Event::CharEntered('a')];
    let res = f.gui.handle_events(&events, &order).unwrap();
    assert_eq!(
        res.component_events.queues[&f.entry.id.raw],
        vec![click(1, 6), key_down("KeyA", false), Event::CharEntered('a')]
    );
    assert_eq!(res.component_events.queues.len(), 1);
    assert_eq!(res.unhandled_events, events);
    assert_eq!(f.gui.active_component, Some((2, f.entry.id)));

    let later = vec![Event::KeyUp(Key {
        code: "KeyA".to_string(),
        shift: false,
        ctrl: false,
        alt: false,
        is_modifier: false,
    })];
    let res = f.gui.handle_events(&later, &order).unwrap();
    assert_eq!(res.component_events.queues[&f.entry.id.raw], later);
}

#[test]
fn the_first_component_takes_what_every_component_gets() {
    let mut f = form();
    let order = [f.a.id, f.b.id, f.entry.id];
    let events = vec![
        Event::FocusGained,
        Event::FocusLost,
        Event::WindowResized(Extent { x: 1, y: 2 }),
        Event::Scroll(1),
    ];
    let res = f.gui.handle_events(&events, &order).unwrap();
    assert_eq!(res.component_events.queues.len(), 1);
    assert_eq!(res.component_events.queues[&f.a.id.raw], events);
    assert_eq!(res.unhandled_events, events);
}

#[test]
fn no_component_gets_the_cursor_entering_or_the_pointer_lock() {
    let mut f = form();
    let order = [f.a.id, f.b.id, f.entry.id];
    let events =
        vec![Event::MouseEnter, Event::MouseLeave, Event::PointerLocked, Event::PointerUnlocked];
    let res = f.gui.handle_events(&events, &order).unwrap();
    assert!(res.component_events.queues.is_empty());
    assert_eq!(res.unhandled_events, events);
}

#[test]
fn tab_moves_the_focus_through_the_components() {
    let mut f = form();
    let order = [f.a.id, f.b.id, f.entry.id];
    f.gui.handle_events(&[click(5, 15)], &order).unwrap();
    assert_eq!(f.gui.active_component, Some((1, f.b.id)));

    let res = f.gui.handle_events(&[key_down("Tab", false)], &order).unwrap();
    assert_eq!(f.gui.active_component, Some((2, f.entry.id)));
    assert!(res.unhandled_events.is_empty());
    assert_eq!(res.component_events.queues[&f.b.id.raw], vec![key_down("Tab", false)]);

    f.gui.handle_events(&[key_down("Tab", false)], &order).unwrap();
    assert_eq!(f.gui.active_component, Some((0, f.a.id)));

    f.gui.handle_events(&[key_down("Tab", true)], &order).unwrap();
    assert_eq!(f.gui.active_component, Some((2, f.entry.id)));

    f.gui.handle_events(&[key_down("Tab", true)], &order).unwrap();
    assert_eq!(f.gui.active_component, Some((1, f.b.id)));
}

#[test]
fn tab_without_an_active_component_is_left_over() {
    let mut f = form();
    let order = [f.a.id, f.b.id, f.entry.id];
    let events = vec![key_down("Tab", false)];
    let res = f.gui.handle_events(&events, &order).unwrap();
    assert_eq!(res.unhandled_events, events);
    assert_eq!(f.gui.active_component, None);
}

#[test]
fn routing_does_not_see_a_move_of_the_focus_within_a_batch() {
    let mut f = form();
    let order = [f.a.id, f.b.id, f.entry.id];
    let events = vec![click(5, 15), key_down("Tab", false), Event::CharEntered('x')];
    let res = f.gui.handle_events(&events, &order).unwrap();
    assert_eq!(f.gui.active_component, Some((2, f.entry.id)));
    assert_eq!(
        res.component_events.queues[&f.b.id.raw],
        vec![click(5, 3), key_down("Tab", false), Event::CharEntered('x')]
    );
    assert_eq!(res.unhandled_events, vec![click(5, 15), Event::CharEntered('x')]);

    let res = f.gui.handle_events(&[Event::CharEntered('y')], &order).unwrap();
    assert_eq!(res.component_events.queues[&f.entry.id.raw], vec![Event::CharEntered('y')]);
}

#[test]
fn a_component_that_is_not_listed_cannot_become_active() {
    let mut f = form();
    let order = [f.a.id, f.entry.id];
    assert!(f.gui.handle_events(&[Event::MouseEnter, click(5, 15)], &order).is_none());
    assert_eq!(f.gui.active_component, None);
    let res = f.gui.handle_events(&[click(5, 5)], &order).unwrap();
    assert_eq!(res.component_events.queues[&f.a.id.raw], vec![click(5, 5)]);
    assert_eq!(f.gui.active_component, Some((0, f.a.id)));
    assert!(f.gui.handle_events(&[key_down("Tab", false)], &[]).is_none());
    assert_eq!(f.gui.active_component, Some((0, f.a.id)));
}

#[test]
fn the_first_place_of_a_component_counts() {
    let mut f = form();
    let order = [f.a.id, f.b.id, f.a.id, f.b.id];
    f.gui.handle_events(&[click(5, 15)], &order).unwrap();
    assert_eq!(f.gui.active_component, Some((1, f.b.id)));
    f.gui.handle_events(&[key_down("Tab", false)], &order).unwrap();
    assert_eq!(f.gui.active_component, Some((2, f.a.id)));
    f.gui.handle_events(&[key_down("Tab", false)], &order).unwrap();
    assert_eq!(f.gui.active_component, Some((3, f.b.id)));
    f.gui.handle_events(&[key_down("Tab", false)], &order).unwrap();
    assert_eq!(f.gui.active_component, Some((0, f.a.id)));
}

#[test]
fn components_are_updated_with_their_events() {
    let mut f = form();
    let order = [f.a.id, f.b.id, f.entry.id];
    let events = vec![click(5, 15), click(1, 30), Event::CharEntered('h'), Event::CharEntered('i')];
    let mut res = f.gui.handle_events(&events, &order).unwrap();
    assert!(!res.update_component(&theme(), &mut f.a).unwrap().pressed());
    assert!(res.update_component(&theme(), &mut f.b).unwrap().pressed());
    assert!(!res.update_component(&theme(), &mut f.b).unwrap().pressed());
    let entered = res.update_component(&theme(), &mut f.entry).unwrap();
    assert_eq!(entered.text(), None);
    assert_eq!(f.entry.text, "hi");
    assert!(res.component_events.queues.is_empty());
    assert_eq!(res.unhandled_events, events);
}

#[test]
fn a_component_that_cannot_take_its_events_is_left_alone() {
    let mut selector = Selector::new(vec![("a".to_string(), 1), ("b".to_string(), 2)], Some(1));
    let mut metrics = TextMetrics::new();
    metrics.set(selector.id, vec![10, 10]);
    let mut gui = Gui::new();
    gui.layout(
        &theme(),
        &metrics,
        Extent { x: 100, y: 100 },
        AnyWidget::Selector(selector.node()),
    )
    .unwrap();
    let order = [selector.id];
    let mut res = gui.handle_events(&[click(5, 50)], &order).unwrap();
    assert!(res.update_component(&theme(), &mut selector).is_none());
    assert_eq!(selector.selected_option, Some(1));
    assert!(res.component_events.queues.is_empty());
    let mut res = gui.handle_events(&[click(5, 5)], &order).unwrap();
    let picked = res.update_component(&theme(), &mut selector).unwrap();
    assert!(picked.just_selected);
    assert_eq!(picked.selected, Some(("a".to_string(), 1)));
}

#[test]
fn routing_needs_the_rectangle_of_a_component() {
    let button = Button::new("A");
    let tree = AnyWidget::Col(
        Col::new()
            .child(0, AnyWidget::Empty(EmptyWidget::new()))
            .child(0, AnyWidget::Button(button.clone())),
    );
    let mut rects: FxHashMap<usize, Rect> = FxHashMap::default();
    let mut queues = EventQueues::new();
    let mut active = None;
    assert_eq!(
        widget_handle_event(&tree, &Event::FocusGained, &rects, &mut queues, &mut active),
        None
    );
    rects.insert(button.id.raw, Rect::new(Vec2::new(10, 10), Vec2::new(20, 20)));
    assert_eq!(
        widget_handle_event(&tree, &Event::FocusGained, &rects, &mut queues, &mut active),
        Some(true)
    );
    assert_eq!(
        widget_handle_event(&tree, &Event::MouseEnter, &rects, &mut queues, &mut active),
        Some(false)
    );
    assert_eq!(widget_handle_event(&tree, &click(9, 10), &rects, &mut queues, &mut active), Some(false));
    assert_eq!(active, None);
    assert_eq!(widget_handle_event(&tree, &click(19, 10), &rects, &mut queues, &mut active), Some(true));
    assert_eq!(active, Some(button.id));
    assert_eq!(queues.queues[&button.id.raw], vec![Event::FocusGained, click(9, 0)]);
    assert_eq!(queues.take(button.id), vec![Event::FocusGained, click(9, 0)]);
    assert!(queues.take(button.id).is_empty());
    queues.push(WidgetId::new(), Event::MouseEnter);
    assert_eq!(queues.queues.len(), 1);
}

#[test]
fn a_position_that_does_not_fit_stops_the_routing() {
    let button = Button::new("A");
    let tree = AnyWidget::Button(button.clone());
    let mut rects: FxHashMap<usize, Rect> = FxHashMap::default();
    rects.insert(button.id.raw, Rect::new(Vec2::new(i32::MIN, 0), Vec2::new(i32::MAX, 10)));
    let mut queues = EventQueues::new();
    let mut active = None;
    assert_eq!(widget_handle_event(&tree, &click(5, 5), &rects, &mut queues, &mut active), None);
    assert_eq!(
        widget_handle_event(&tree, &click(-5, 5), &rects, &mut queues, &mut active),
        Some(true)
    );
    assert_eq!(queues.queues[&button.id.raw], vec![click(i32::MAX - 4, 5)]);
}

use fxhash::FxHashMap;
use gl_gui::geom::{Rect, Vec2};
use gl_gui::gui::color::Color4;
use gl_gui::gui::event::Extent;
use gl_gui::gui::gui::{
    compute_rects, compute_widget_min_size, line_count, min_size, text_lines, Gui, TextMetrics,
    Theme,
};
use gl_gui::gui::widgets::{
    AnyWidget, Button, Col, EmptyWidget, Fill, Inset, Label, MessageBox, NoFill, Overlap, Padding,
    Row, Selector, TextBox, TextEntry, Widget,
};

fn theme() -> Theme {
    Theme { advance_y: 12, padding: 3 }
}

fn empty(x: i32, y: i32) -> (AnyWidget, usize) {
    let w = EmptyWidget::with_size(Vec2::new(x, y));
    (AnyWidget::Empty(w), w.id.raw)
}

fn rect(x0: i32, y0: i32, x1: i32, y1: i32) -> Rect {
    Rect::new(Vec2::new(x0, y0), Vec2::new(x1, y1))
}

fn layout(
    widget: &AnyWidget,
    metrics: &TextMetrics,
    area: Rect,
) -> Option<(FxHashMap<usize, Vec2>, FxHashMap<usize, Rect>)> {
    let mut sizes = FxHashMap::default();
    let mut rects = FxHashMap::default();
    if !compute_widget_min_size(widget, &theme(), metrics, &mut sizes) {
        return None;
    }
    if !compute_rects(widget, area, &theme(), &sizes, &mut rects) {
        return None;
    }
    Some((sizes, rects))
}

#[test]
fn text_needs_its_widest_line_and_all_its_lines() {
    let mut metrics = TextMetrics::new();
    let label = Label::new("hello");
    metrics.set(label.id, vec![42]);
    let sizes = FxHashMap::default();
    assert_eq!(
        min_size(&AnyWidget::Label(label), &theme(), &metrics, &sizes),
        Some(Vec2::new(42, 12))
    );

    let text_box = TextBox::new("a\nbcd\nef");
    metrics.set(text_box.id, vec![5, 30, 7]);
    let text_box = AnyWidget::TextBox(text_box);
    assert_eq!(line_count(&text_box), Some(3));
    assert_eq!(min_size(&text_box, &theme(), &metrics, &sizes), Some(Vec2::new(30, 36)));

    let mut messages = MessageBox::new(5);
    metrics.set(messages.id, vec![]);
    assert_eq!(
        min_size(&AnyWidget::MessageBox(messages.clone_lines()), &theme(), &metrics, &sizes),
        Some(Vec2::new(0, 0))
    );
    messages.add_line(Color4::black(), "x".to_string());
    messages.add_line(Color4::black(), "yy".to_string());
    metrics.set(messages.id, vec![8, 16]);
    assert_eq!(
        min_size(&AnyWidget::MessageBox(messages), &theme(), &metrics, &sizes),
        Some(Vec2::new(16, 24))
    );

    let selector = Selector::new(vec![("a".to_string(), 0), ("b".to_string(), 1)], None);
    metrics.set(selector.id, vec![9, 4]);
    assert_eq!(
        min_size(&AnyWidget::Selector(selector.node()), &theme(), &metrics, &sizes),
        Some(Vec2::new(9, 24))
    );
}

trait CloneLines {
    fn clone_lines(&self) -> MessageBox;
}

impl CloneLines for MessageBox {
    fn clone_lines(&self) -> MessageBox {
        MessageBox { lines: self.lines.clone(), max_lines: self.max_lines, id: self.id }
    }
}

#[test]
fn buttons_and_text_entries_have_a_border() {
    let mut metrics = TextMetrics::new();
    let sizes = FxHashMap::default();
    let button = Button::new("OK");
    metrics.set(button.id, vec![40]);
    assert_eq!(
        min_size(&AnyWidget::Button(button), &theme(), &metrics, &sizes),
        Some(Vec2::new(44, 14))
    );
    let entry = TextEntry::new("abc", "", false, 10, false);
    metrics.set(entry.id, vec![21]);
    assert_eq!(
        min_size(&AnyWidget::TextEntry(entry), &theme(), &metrics, &sizes),
        Some(Vec2::new(25, 14))
    );
}

#[test]
fn text_that_was_not_measured_has_no_size() {
    let mut metrics = TextMetrics::new();
    let sizes = FxHashMap::default();
    let label = Label::new("hello");
    let id = label.id;
    let label = AnyWidget::Label(label);
    assert_eq!(min_size(&label, &theme(), &metrics, &sizes), None);
    metrics.set(id, vec![1, 2]);
    assert_eq!(min_size(&label, &theme(), &metrics, &sizes), None);
    metrics.set(id, vec![]);
    assert_eq!(min_size(&label, &theme(), &metrics, &sizes), None);
    metrics.set(id, vec![7]);
    assert_eq!(min_size(&label, &theme(), &metrics, &sizes), Some(Vec2::new(7, 12)));
    assert_eq!(metrics.get(id), Some(&vec![7]));
    let mut sizes = FxHashMap::default();
    assert!(!compute_widget_min_size(
        &AnyWidget::Col(Col::new().child(0, AnyWidget::Label(Label::new("x")))),
        &theme(),
        &metrics,
        &mut sizes
    ));
}

#[test]
fn empty_widgets_and_paddings_need_a_fixed_size() {
    let metrics = TextMetrics::new();
    let sizes = FxHashMap::default();
    assert_eq!(min_size(&empty(7, 9).0, &theme(), &metrics, &sizes), Some(Vec2::new(7, 9)));
    assert_eq!(
        min_size(&AnyWidget::Padding(Padding::new()), &theme(), &metrics, &sizes),
        Some(Vec2::new(3, 3))
    );
}

#[test]
fn a_column_is_as_wide_as_its_widest_child_and_as_high_as_all() {
    let (a, ia) = empty(10, 20);
    let (b, ib) = empty(30, 5);
    let col = Col::new().child(0, a).child(1, b);
    let id = col.id.raw;
    let col = AnyWidget::Col(col);
    let (sizes, _) = layout(&col, &TextMetrics::new(), rect(0, 0, 100, 100)).unwrap();
    assert_eq!(sizes[&ia], Vec2::new(10, 20));
    assert_eq!(sizes[&ib], Vec2::new(30, 5));
    assert_eq!(sizes[&id], Vec2::new(30, 25));
    assert_eq!(sizes.len(), 3);
}

#[test]
fn a_row_is_as_wide_as_all_its_children_and_as_high_as_the_highest() {
    let (a, _) = empty(10, 20);
    let (b, _) = empty(30, 5);
    let row = Row::new().child(0, a).child(1, b);
    let id = row.id.raw;
    let (sizes, _) =
        layout(&AnyWidget::Row(row), &TextMetrics::new(), rect(0, 0, 100, 100)).unwrap();
    assert_eq!(sizes[&id], Vec2::new(40, 20));
}

#[test]
fn an_overlap_is_as_large_as_its_largest_child() {
    let (a, ia) = empty(10, 20);
    let (b, ib) = empty(30, 5);
    let over = Overlap::new().child(a).child(b);
    let id = over.id.raw;
    let (sizes, rects) =
        layout(&AnyWidget::Overlap(over), &TextMetrics::new(), rect(1, 2, 100, 90)).unwrap();
    assert_eq!(sizes[&id], Vec2::new(30, 20));
    assert_eq!(rects[&id], rect(1, 2, 100, 90));
    assert_eq!(rects[&ia], rect(1, 2, 100, 90));
    assert_eq!(rects[&ib], rect(1, 2, 100, 90));
    let none = Overlap::new();
    let id = none.id.raw;
    let (sizes, _) =
        layout(&AnyWidget::Overlap(none), &TextMetrics::new(), rect(0, 0, 1, 1)).unwrap();
    assert_eq!(sizes[&id], Vec2::new(0, 0));
}

#[test]
fn a_column_shares_extra_space_by_weight() {
    let (a, ia) = empty(10, 20);
    let (b, ib) = empty(30, 5);
    let col = Col::new().child(0, a).child(1, b);
    let id = col.id.raw;
    let (_, rects) =
        layout(&AnyWidget::Col(col), &TextMetrics::new(), rect(0, 0, 100, 100)).unwrap();
    assert_eq!(rects[&id], rect(0, 0, 100, 100));
    assert_eq!(rects[&ia], rect(0, 0, 100, 20));
    assert_eq!(rects[&ib], rect(0, 20, 100, 100));
}

#[test]
fn shares_are_rounded_towards_zero() {
    let (a, ia) = empty(10, 20);
    let (b, ib) = empty(10, 20);
    let col = Col::new().child(1, a).child(2, b);
    let (_, rects) =
        layout(&AnyWidget::Col(col), &TextMetrics::new(), rect(5, 5, 55, 55)).unwrap();
    assert_eq!(rects[&ia], rect(5, 5, 55, 28));
    assert_eq!(rects[&ib], rect(5, 28, 55, 54));

    let (a, ia) = empty(10, 20);
    let (b, ib) = empty(10, 20);
    let col = Col::new().child(1, a).child(2, b);
    let (_, rects) =
        layout(&AnyWidget::Col(col), &TextMetrics::new(), rect(0, 0, 50, 30)).unwrap();
    assert_eq!(rects[&ia], rect(0, 0, 50, 17));
    assert_eq!(rects[&ib], rect(0, 17, 50, 31));
}

#[test]
fn a_column_without_weights_takes_only_the_height_it_needs() {
    let (a, ia) = empty(10, 20);
    let (b, ib) = empty(30, 5);
    let col = Col::new().child(0, a).child(0, b);
    let id = col.id.raw;
    let (_, rects) =
        layout(&AnyWidget::Col(col), &TextMetrics::new(), rect(0, 0, 100, 100)).unwrap();
    assert_eq!(rects[&id], rect(0, 0, 100, 25));
    assert_eq!(rects[&ia], rect(0, 0, 100, 20));
    assert_eq!(rects[&ib], rect(0, 20, 100, 25));
}

#[test]
fn a_row_shares_extra_space_by_weight() {
    let (a, ia) = empty(10, 20);
    let (b, ib) = empty(30, 5);
    let (c, ic) = empty(0, 0);
    let row = Row::new().child(1, a).child(0, b).child(3, c);
    let id = row.id.raw;
    let (_, rects) =
        layout(&AnyWidget::Row(row), &TextMetrics::new(), rect(10, 10, 110, 60)).unwrap();
    assert_eq!(rects[&id], rect(10, 10, 110, 60));
    assert_eq!(rects[&ia], rect(10, 10, 35, 60));
    assert_eq!(rects[&ib], rect(35, 10, 65, 60));
    assert_eq!(rects[&ic], rect(65, 10, 110, 60));

    let (a, ia) = empty(10, 20);
    let row = Row::new().child(0, a);
    let id = row.id.raw;
    let (_, rects) =
        layout(&AnyWidget::Row(row), &TextMetrics::new(), rect(10, 10, 110, 60)).unwrap();
    assert_eq!(rects[&id], rect(10, 10, 20, 60));
    assert_eq!(rects[&ia], rect(10, 10, 20, 60));
}

#[test]
fn no_fill_gives_its_child_the_least_size() {
    let (a, ia) = empty(10, 20);
    let w = NoFill::new(a);
    let id = w.id.raw;
    let (sizes, rects) =
        layout(&AnyWidget::NoFill(w), &TextMetrics::new(), rect(4, 5, 100, 100)).unwrap();
    assert_eq!(sizes[&id], Vec2::new(10, 20));
    assert_eq!(rects[&id], rect(4, 5, 14, 25));
    assert_eq!(rects[&ia], rect(4, 5, 14, 25));
}

#[test]
fn fill_gives_its_rectangle_on() {
    let (a, ia) = empty(10, 20);
    let w = Fill::new(Color4::white(), a);
    let id = w.id.raw;
    let (sizes, rects) =
        layout(&AnyWidget::Fill(w), &TextMetrics::new(), rect(4, 5, 100, 100)).unwrap();
    assert_eq!(sizes[&id], Vec2::new(10, 20));
    assert_eq!(rects[&id], rect(4, 5, 100, 100));
    assert_eq!(rects[&ia], rect(4, 5, 100, 100));
}

#[test]
fn inset_leaves_the_padding_free() {
    let (a, ia) = empty(10, 20);
    let w = Inset::new(a);
    let id = w.id.raw;
    let (sizes, rects) =
        layout(&AnyWidget::Inset(w), &TextMetrics::new(), rect(0, 0, 100, 100)).unwrap();
    assert_eq!(sizes[&id], Vec2::new(16, 26));
    assert_eq!(rects[&id], rect(0, 0, 106, 106));
    assert_eq!(rects[&ia], rect(3, 3, 97, 97));
}

#[test]
fn nested_containers_are_laid_out_from_the_root() {
    let (a, ia) = empty(10, 10);
    let (b, ib) = empty(20, 10);
    let (c, ic) = empty(5, 30);
    let row = Row::new().child(1, a).child(1, b);
    let row_id = row.id.raw;
    let col = Col::new().child(0, AnyWidget::Row(row)).child(1, c);
    let col_id = col.id.raw;
    let (sizes, rects) =
        layout(&AnyWidget::Col(col), &TextMetrics::new(), rect(0, 0, 100, 100)).unwrap();
    assert_eq!(sizes[&row_id], Vec2::new(30, 10));
    assert_eq!(sizes[&col_id], Vec2::new(30, 40));
    assert_eq!(rects[&col_id], rect(0, 0, 100, 100));
    assert_eq!(rects[&row_id], rect(0, 0, 100, 10));
    assert_eq!(rects[&ia], rect(0, 0, 45, 10));
    assert_eq!(rects[&ib], rect(45, 0, 100, 10));
    assert_eq!(rects[&ic], rect(0, 10, 100, 100));
    assert_eq!(rects.len(), 5);
}

#[test]
fn sizes_that_do_not_fit_stop_the_layout() {
    let (a, _) = empty(1, i32::MAX);
    let (b, _) = empty(1, 1);
    let col = AnyWidget::Col(Col::new().child(0, a).child(0, b));
    assert!(layout(&col, &TextMetrics::new(), rect(0, 0, 10, 10)).is_none());

    let (a, _) = empty(i32::MAX, 1);
    let (b, _) = empty(1, 1);
    let row = AnyWidget::Row(Row::new().child(0, a).child(0, b));
    assert!(layout(&row, &TextMetrics::new(), rect(0, 0, 10, 10)).is_none());

    let (a, _) = empty(i32::MAX - 5, 1);
    let inset = AnyWidget::Inset(Inset::new(a));
    assert!(layout(&inset, &TextMetrics::new(), rect(0, 0, 10, 10)).is_none());

    let (a, _) = empty(1, 1);
    let col = AnyWidget::Col(Col::new().child(0, a));
    assert!(layout(&col, &TextMetrics::new(), rect(i32::MIN, 0, 10, 10)).is_none());

    let mut metrics = TextMetrics::new();
    let label = Label::new("x");
    metrics.set(label.id, vec![5]);
    let id = label.id.raw;
    let mut sizes = FxHashMap::default();
    assert!(compute_widget_min_size(
        &AnyWidget::Label(label),
        &Theme { advance_y: i32::MAX, padding: 0 },
        &metrics,
        &mut sizes
    ));
    assert_eq!(sizes[&id], Vec2::new(5, i32::MAX));
    let text_box = TextBox::new("a\nb");
    metrics.set(text_box.id, vec![5, 5]);
    let mut sizes = FxHashMap::default();
    assert!(!compute_widget_min_size(
        &AnyWidget::TextBox(text_box),
        &Theme { advance_y: i32::MAX, padding: 0 },
        &metrics,
        &mut sizes
    ));
}

#[test]
fn rectangles_need_the_sizes_of_the_first_pass() {
    let (a, _) = empty(1, 1);
    let col = AnyWidget::Col(Col::new().child(0, a));
    let sizes = FxHashMap::default();
    let mut rects = FxHashMap::default();
    assert!(!compute_rects(&col, rect(0, 0, 10, 10), &theme(), &sizes, &mut rects));
    let (a, ia) = empty(1, 1);
    let mut rects = FxHashMap::default();
    assert!(compute_rects(&a, rect(0, 0, 10, 10), &theme(), &sizes, &mut rects));
    assert_eq!(rects[&ia], rect(0, 0, 10, 10));
}

#[test]
fn the_gui_lays_out_on_the_surface() {
    let mut gui = Gui::new();
    assert_eq!(gui.active_component_id(), None);
    let (a, ia) = empty(10, 20);
    let col = Col::new().child(0, a);
    let id = col.id;
    let res = gui
        .layout(&theme(), &TextMetrics::new(), Extent { x: 200, y: 100 }, AnyWidget::Col(col))
        .unwrap();
    assert_eq!(res.rendered_size(), Vec2::new(200, 20));
    assert_eq!(gui.widget_rect(id), Some(rect(0, 0, 200, 20)));
    assert_eq!(
        gui.widget_rect(gl_gui::ids::WidgetId { raw: ia }),
        Some(rect(0, 0, 200, 20))
    );
    assert_eq!(gui.widget_rect(gl_gui::ids::WidgetId::new()), None);
    assert_eq!(gui.last_render.as_ref().map(|r| r.widget.id()), Some(id));
}

#[test]
fn a_layout_that_fails_leaves_the_gui_alone() {
    let mut gui = Gui::new();
    let (a, _) = empty(10, 20);
    let first = gui.layout(&theme(), &TextMetrics::new(), Extent { x: 200, y: 100 }, a);
    assert!(first.is_some());
    let kept = gui.last_render.as_ref().map(|r| r.widget.id());
    let label = AnyWidget::Label(Label::new("unmeasured"));
    assert!(gui.layout(&theme(), &TextMetrics::new(), Extent { x: 200, y: 100 }, label).is_none());
    assert_eq!(gui.last_render.as_ref().map(|r| r.widget.id()), kept);
    let (b, _) = empty(1, 1);
    assert!(gui
        .layout(&theme(), &TextMetrics::new(), Extent { x: 0x8000_0000, y: 100 }, b)
        .is_none());
    assert_eq!(gui.last_render.as_ref().map(|r| r.widget.id()), kept);
}

#[test]
fn the_lines_to_measure_are_the_lines_that_are_shown() {
    assert_eq!(text_lines(&AnyWidget::Label(Label::new("hello"))), Some(vec!["hello".to_string()]));
    assert_eq!(text_lines(&AnyWidget::Button(Button::new("OK"))), Some(vec!["OK".to_string()]));
    assert_eq!(
        text_lines(&AnyWidget::TextBox(TextBox::new("a\nb"))),
        Some(vec!["a".to_string(), "b".to_string()])
    );
    let mut messages = MessageBox::new(3);
    assert_eq!(text_lines(&AnyWidget::MessageBox(messages.clone_lines())), Some(vec![]));
    messages.add_line(Color4::black(), "x".to_string());
    messages.add_line(Color4::white(), "y".to_string());
    assert_eq!(
        text_lines(&AnyWidget::MessageBox(messages)),
        Some(vec!["x".to_string(), "y".to_string()])
    );
    let selector = Selector::new(vec![("one".to_string(), 1), ("two".to_string(), 2)], None);
    assert_eq!(
        text_lines(&AnyWidget::Selector(selector.node())),
        Some(vec!["one".to_string(), "two".to_string()])
    );
    assert_eq!(
        text_lines(&AnyWidget::TextEntry(TextEntry::new("", "type here", false, 20, false))),
        Some(vec!["type here".to_string()])
    );
    assert_eq!(
        text_lines(&AnyWidget::TextEntry(TextEntry::new("typed", "type here", true, 20, false))),
        Some(vec!["typed".to_string()])
    );
    assert_eq!(text_lines(&empty(1, 1).0), None);
    assert_eq!(text_lines(&AnyWidget::Col(Col::new())), None);
    assert_eq!(text_lines(&AnyWidget::Padding(Padding::new())), None);
    assert_eq!(line_count(&AnyWidget::Label(Label::new("hello"))), Some(1));
    assert_eq!(line_count(&AnyWidget::Col(Col::new())), None);
}

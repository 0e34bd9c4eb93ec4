//! The layout of a widget tree and the routing of events to its components.
//!
//! Layout takes two passes over the tree. The first goes from the leaves to
//! the root and finds the least size that each widget needs. The second goes
//! from the root to the leaves and gives each widget its rectangle. Both
//! passes use checked arithmetic: they stop and report failure as soon as a
//! result does not fit in an `i32`.

use crate::collections::{map_get, map_insert, map_new, map_remove};
use crate::geom::{in_i32, Rect, Vec2};
use crate::gui::event::{Event, MouseButton};
use crate::gui::widgets::{AnyWidget, Component, Widget};
use crate::ids::WidgetId;
use crate::strings::str_eq;
use fxhash::FxHashMap;
use vstd::prelude::*;

verus! {

/// The measures of the theme that layout and event handling read.
#[derive(Clone, Copy, Debug, PartialEq, Eq, Structural)]
pub struct Theme {
    /// The height of a line of text in the theme's font.
    pub advance_y: i32,
    /// The width of the space that `Padding` and `Inset` leave free.
    pub padding: i32,
}

/// The widths of the lines of text of the widgets of a tree, in pixels, as
/// the font of the theme renders them: for the identifier of each widget that
/// shows text, the width of each of its lines.
pub struct TextMetrics {
    pub line_widths: FxHashMap<usize, Vec<i32>>,
}

impl View for TextMetrics {
    type V = Map<usize, Seq<i32>>;

    open spec fn view(&self) -> Map<usize, Seq<i32>> {
        Map::new(|k: usize| self.line_widths@.contains_key(k), |k: usize| self.line_widths@[k]@)
    }
}

impl TextMetrics {
    /// Metrics without any measured text.
    pub fn new() -> (m: TextMetrics)
        ensures
            m@ == Map::<usize, Seq<i32>>::empty(),
    {
        let m = TextMetrics { line_widths: map_new() };
        assert(m@ =~= Map::<usize, Seq<i32>>::empty());
        m
    }

    /// Records the widths of the lines of the widget `id`, in place of what
    /// was recorded for it before.
    pub fn set(&mut self, id: WidgetId, widths: Vec<i32>)
        ensures
            final(self)@ == old(self)@.insert(id.raw, widths@),
    {
        map_insert(&mut self.line_widths, id.raw, widths);
        assert(self@ =~= old(self)@.insert(id.raw, widths@));
    }

    /// The widths of the lines of the widget `id`, if they were recorded.
    pub fn get(&self, id: WidgetId) -> (r: Option<&Vec<i32>>)
        ensures
            r.is_some() == self@.contains_key(id.raw),
            r matches Some(widths) ==> widths@ == self@[id.raw],
    {
        map_get(&self.line_widths, id.raw)
    }
}

/// The number of lines of text that a widget shows, or `None` for a widget
/// that shows no text.
pub open spec fn spec_line_count(w: AnyWidget) -> Option<nat> {
    match w {
        AnyWidget::Label(_) => Some(1),
        AnyWidget::Button(_) => Some(1),
        AnyWidget::TextEntry(_) => Some(1),
        AnyWidget::TextBox(t) => Some(t.lines@.len()),
        AnyWidget::MessageBox(m) => Some(m.lines@.len()),
        AnyWidget::Selector(s) => Some(s.labels@.len()),
        _ => None,
    }
}

/// The number of lines of text that a widget shows.
pub fn line_count(w: &AnyWidget) -> (r: Option<usize>)
    ensures
        r.is_some() == spec_line_count(*w).is_some(),
        r matches Some(n) ==> Some(n as nat) == spec_line_count(*w),
{
    match w {
        AnyWidget::Label(_) => Some(1),
        AnyWidget::Button(_) => Some(1),
        AnyWidget::TextEntry(_) => Some(1),
        AnyWidget::TextBox(t) => Some(t.lines.len()),
        AnyWidget::MessageBox(m) => Some(m.lines.len()),
        AnyWidget::Selector(s) => Some(s.labels.len()),
        _ => None,
    }
}

/// The lines of text that a widget shows, or `None` for a widget that shows
/// no text. A text entry shows its placeholder in place of an empty text.
pub open spec fn spec_text_lines(w: AnyWidget) -> Option<Seq<Seq<char>>> {
    match w {
        AnyWidget::Label(l) => Some(seq![l.text@]),
        AnyWidget::Button(b) => Some(seq![b.text@]),
        AnyWidget::TextEntry(e) => Some(
            seq![
                if e.text@.len() == 0 {
                    e.placeholder_text@
                } else {
                    e.text@
                },
            ],
        ),
        AnyWidget::TextBox(t) => Some(Seq::new(t.lines@.len(), |i: int| t.lines@[i]@)),
        AnyWidget::MessageBox(m) => Some(Seq::new(m.lines@.len(), |i: int| m.lines@[i].0@)),
        AnyWidget::Selector(s) => Some(Seq::new(s.labels@.len(), |i: int| s.labels@[i]@)),
        _ => None,
    }
}

/// The lines of text that a widget shows. These are the lines whose widths
/// the layout needs.
pub fn text_lines(w: &AnyWidget) -> (r: Option<Vec<String>>)
    ensures
        r.is_some() == spec_text_lines(*w).is_some(),
        r matches Some(lines) ==> Some(Seq::new(lines@.len(), |i: int| lines@[i]@))
            == spec_text_lines(*w),
        r matches Some(lines) ==> Some(lines@.len()) == spec_line_count(*w),
{
    let mut lines: Vec<String> = Vec::new();
    match w {
        AnyWidget::Label(l) => {
            lines.push(l.text.clone());
        },
        AnyWidget::Button(b) => {
            lines.push(b.text.clone());
        },
        AnyWidget::TextEntry(e) => {
            lines.push(e.drawn_text().to_owned());
        },
        AnyWidget::TextBox(t) => {
            let mut i: usize = 0;
            while i < t.lines.len()
                invariant
                    i <= t.lines@.len(),
                    lines@.len() == i,
                    forall|j: int| 0 <= j < i ==> lines@[j]@ == t.lines@[j]@,
                decreases t.lines@.len() - i,
            {
                lines.push(t.lines[i].clone());
                i = i + 1;
            }
        },
        AnyWidget::MessageBox(m) => {
            let mut i: usize = 0;
            while i < m.lines.len()
                invariant
                    i <= m.lines@.len(),
                    lines@.len() == i,
                    forall|j: int| 0 <= j < i ==> lines@[j]@ == m.lines@[j].0@,
                decreases m.lines@.len() - i,
            {
                lines.push(m.lines[i].0.clone());
                i = i + 1;
            }
        },
        AnyWidget::Selector(s) => {
            let mut i: usize = 0;
            while i < s.labels.len()
                invariant
                    i <= s.labels@.len(),
                    lines@.len() == i,
                    forall|j: int| 0 <= j < i ==> lines@[j]@ == s.labels@[j]@,
                decreases s.labels@.len() - i,
            {
                lines.push(s.labels[i].clone());
                i = i + 1;
            }
        },
        _ => {
            return None;
        },
    }
    assert(Seq::new(lines@.len(), |i: int| lines@[i]@) =~= spec_text_lines(*w).unwrap());
    Some(lines)
}

/// The space that a widget that shows text needs beyond its text: a button
/// and a text entry have a border.
pub open spec fn text_frame(w: AnyWidget) -> Vec2 {
    if w is Button || w is TextEntry {
        Vec2 { x: 4, y: 2 }
    } else {
        Vec2 { x: 0, y: 0 }
    }
}

/// The greatest of the values, and zero if there is none.
pub open spec fn seq_max(values: Seq<i32>) -> int
    decreases values.len(),
{
    if values.len() == 0 {
        0
    } else if values.len() == 1 {
        values[0] as int
    } else if seq_max(values.drop_last()) >= values.last() {
        seq_max(values.drop_last())
    } else {
        values.last() as int
    }
}

/// The least size of lines of text with the given widths in a frame: as wide
/// as the widest line and as high as all lines together, plus the frame. Text
/// without a line takes no space. `None` if the number of lines or the size
/// does not fit.
pub open spec fn text_min_size(widths: Seq<i32>, advance_y: i32, frame: Vec2) -> Option<Vec2> {
    if widths.len() == 0 {
        Some(frame)
    } else {
        let width = seq_max(widths) + frame.x;
        let lines_height = advance_y * widths.len();
        let height = lines_height + frame.y;
        if in_i32(widths.len() as int) && in_i32(width) && in_i32(lines_height) && in_i32(
            height,
        ) {
            Some(Vec2 { x: width as i32, y: height as i32 })
        } else {
            None
        }
    }
}

fn max_width(widths: &Vec<i32>) -> (r: i32)
    ensures
        r == seq_max(widths@),
{
    if widths.len() == 0 {
        return 0;
    }
    let mut best = widths[0];
    let mut i: usize = 1;
    assert(widths@.subrange(0, 1).len() == 1);
    while i < widths.len()
        invariant
            1 <= i <= widths@.len(),
            best == seq_max(widths@.subrange(0, i as int)),
        decreases widths@.len() - i,
    {
        proof {
            let next = widths@.subrange(0, i + 1);
            assert(next.drop_last() == widths@.subrange(0, i as int));
            assert(next.last() == widths@[i as int]);
        }
        if widths[i] > best {
            best = widths[i];
        }
        i = i + 1;
    }
    assert(widths@.subrange(0, i as int) == widths@);
    best
}

fn text_size(widths: &Vec<i32>, advance_y: i32, frame: Vec2) -> (r: Option<Vec2>)
    ensures
        r == text_min_size(widths@, advance_y, frame),
{
    if widths.len() == 0 {
        return Some(frame);
    }
    let width = max_width(widths).checked_add(frame.x);
    if widths.len() > 0x7fff_ffff {
        return None;
    }
    let count: i32 = widths.len() as i32;
    match (width, advance_y.checked_mul(count)) {
        (Some(x), Some(lines_height)) => match lines_height.checked_add(frame.y) {
            Some(y) => Some(Vec2 { x, y }),
            None => None,
        },
        _ => None,
    }
}

/// How a widget with a list of children puts the sizes of its children
/// together.
#[derive(Clone, Copy, PartialEq, Eq, Structural)]
pub enum Axis {
    /// One below the other: as wide as the widest, as high as all together.
    Vertical,
    /// Side by side: as wide as all together, as high as the highest.
    Horizontal,
    /// One on top of the other: as wide as the widest, as high as the highest.
    Stacked,
}

/// The greater of the two values.
pub open spec fn max_i32(a: i32, b: i32) -> i32 {
    if a >= b {
        a
    } else {
        b
    }
}

/// The least size of the first `k` children together, from their sizes in
/// `sizes`. `None` if the size of a child is missing or a sum does not fit.
pub open spec fn children_min_size(
    children: Seq<AnyWidget>,
    k: nat,
    axis: Axis,
    sizes: Map<usize, Vec2>,
) -> Option<Vec2>
    decreases k,
{
    if k == 0 || k > children.len() {
        Some(Vec2 { x: 0, y: 0 })
    } else {
        match children_min_size(children, (k - 1) as nat, axis, sizes) {
            None => None,
            Some(before) => {
                let id = children[k - 1].spec_id().raw;
                if !sizes.contains_key(id) {
                    None
                } else {
                    let child = sizes[id];
                    match axis {
                        Axis::Vertical => if in_i32(before.y + child.y) {
                            Some(
                                Vec2 {
                                    x: max_i32(before.x, child.x),
                                    y: (before.y + child.y) as i32,
                                },
                            )
                        } else {
                            None
                        },
                        Axis::Horizontal => if in_i32(before.x + child.x) {
                            Some(
                                Vec2 {
                                    x: (before.x + child.x) as i32,
                                    y: max_i32(before.y, child.y),
                                },
                            )
                        } else {
                            None
                        },
                        Axis::Stacked => Some(
                            Vec2 { x: max_i32(before.x, child.x), y: max_i32(before.y, child.y) },
                        ),
                    }
                }
            },
        }
    }
}

/// The axis along which a widget with a list of children lays them out.
pub open spec fn spec_axis(w: AnyWidget) -> Axis {
    match w {
        AnyWidget::Col(_) => Axis::Vertical,
        AnyWidget::Row(_) => Axis::Horizontal,
        _ => Axis::Stacked,
    }
}

/// The least size that a widget needs, from the sizes of its children in
/// `sizes` and the widths of its lines of text in `metrics`.
///
/// A widget that shows text needs the space of its lines and its frame. An
/// empty widget needs its given size, a padding needs the padding of the
/// theme on both axes. `NoFill` and `Fill` need what their child needs, an
/// `Inset` needs the padding on every side besides. A column, a row and an
/// overlap need what their children need together.
///
/// `None` if the widths of the lines are missing or are not as many as the
/// lines, if the size of a child is missing, or if a size does not fit.
pub open spec fn node_min_size(
    w: AnyWidget,
    theme: Theme,
    metrics: Map<usize, Seq<i32>>,
    sizes: Map<usize, Vec2>,
) -> Option<Vec2> {
    match spec_line_count(w) {
        Some(n) => {
            let id = w.spec_id().raw;
            if metrics.contains_key(id) && metrics[id].len() == n {
                text_min_size(metrics[id], theme.advance_y, text_frame(w))
            } else {
                None
            }
        },
        None => match w {
            AnyWidget::Empty(e) => Some(e.size),
            AnyWidget::Padding(_) => Some(Vec2 { x: theme.padding, y: theme.padding }),
            _ => match w.spec_child_list() {
                Some(children) => children_min_size(children, children.len(), spec_axis(w), sizes),
                None => match w.spec_single_child() {
                    Some(child) => {
                        let id = child.spec_id().raw;
                        let border = if w is Inset {
                            theme.padding * 2
                        } else {
                            0
                        };
                        if !sizes.contains_key(id) {
                            None
                        } else if in_i32(border) && in_i32(sizes[id].x + border) && in_i32(
                            sizes[id].y + border,
                        ) {
                            Some(
                                Vec2 {
                                    x: (sizes[id].x + border) as i32,
                                    y: (sizes[id].y + border) as i32,
                                },
                            )
                        } else {
                            None
                        }
                    },
                    None => None,
                },
            },
        },
    }
}

/// The sizes after the first pass over the widget `w`: the sizes after the
/// pass over each of its children in order, and then the least size of `w`
/// itself under its identifier. `None` if a size in the tree cannot be found.
pub open spec fn sizes_after(
    w: AnyWidget,
    theme: Theme,
    metrics: Map<usize, Seq<i32>>,
    sizes: Map<usize, Vec2>,
) -> Option<Map<usize, Vec2>>
    decreases w, 0nat,
{
    let below = match w {
        AnyWidget::Col(c) => children_sizes_after(
            c.children@,
            c.children@.len(),
            theme,
            metrics,
            sizes,
        ),
        AnyWidget::Row(c) => children_sizes_after(
            c.children@,
            c.children@.len(),
            theme,
            metrics,
            sizes,
        ),
        AnyWidget::Overlap(c) => children_sizes_after(
            c.children@,
            c.children@.len(),
            theme,
            metrics,
            sizes,
        ),
        AnyWidget::NoFill(c) => sizes_after(*c.child, theme, metrics, sizes),
        AnyWidget::Inset(c) => sizes_after(*c.child, theme, metrics, sizes),
        AnyWidget::Fill(c) => sizes_after(*c.child, theme, metrics, sizes),
        _ => Some(sizes),
    };
    match below {
        None => None,
        Some(below) => match node_min_size(w, theme, metrics, below) {
            None => None,
            Some(size) => Some(below.insert(w.spec_id().raw, size)),
        },
    }
}

/// The sizes after the first pass over the first `k` of the children.
pub open spec fn children_sizes_after(
    children: Seq<AnyWidget>,
    k: nat,
    theme: Theme,
    metrics: Map<usize, Seq<i32>>,
    sizes: Map<usize, Vec2>,
) -> Option<Map<usize, Vec2>>
    decreases children, k,
{
    if k == 0 || k > children.len() {
        Some(sizes)
    } else {
        match children_sizes_after(children, (k - 1) as nat, theme, metrics, sizes) {
            None => None,
            Some(before) => sizes_after(children[k - 1], theme, metrics, before),
        }
    }
}

fn axis(w: &AnyWidget) -> (r: Axis)
    ensures
        r == spec_axis(*w),
{
    match w {
        AnyWidget::Col(_) => Axis::Vertical,
        AnyWidget::Row(_) => Axis::Horizontal,
        _ => Axis::Stacked,
    }
}

fn max_of(a: i32, b: i32) -> (r: i32)
    ensures
        r == max_i32(a, b),
{
    if a >= b {
        a
    } else {
        b
    }
}

fn children_size(children: &Vec<AnyWidget>, axis: Axis, sizes: &FxHashMap<usize, Vec2>) -> (r:
    Option<Vec2>)
    ensures
        r == children_min_size(children@, children@.len(), axis, sizes@),
{
    let mut total = Vec2 { x: 0, y: 0 };
    let mut i: usize = 0;
    while i < children.len()
        invariant
            i <= children@.len(),
            Some(total) == children_min_size(children@, i as nat, axis, sizes@),
        decreases children@.len() - i,
    {
        let child = match map_get(sizes, children[i].id().raw) {
            Some(size) => *size,
            None => {
                proof {
                    lemma_children_min_size_fails(
                        children@,
                        (i + 1) as nat,
                        children@.len(),
                        axis,
                        sizes@,
                    );
                }
                return None;
            },
        };
        let next = match axis {
            Axis::Vertical => match total.y.checked_add(child.y) {
                Some(y) => Some(Vec2 { x: max_of(total.x, child.x), y }),
                None => None,
            },
            Axis::Horizontal => match total.x.checked_add(child.x) {
                Some(x) => Some(Vec2 { x, y: max_of(total.y, child.y) }),
                None => None,
            },
            Axis::Stacked => Some(
                Vec2 { x: max_of(total.x, child.x), y: max_of(total.y, child.y) },
            ),
        };
        assert(next == children_min_size(children@, (i + 1) as nat, axis, sizes@));
        match next {
            Some(size) => {
                total = size;
            },
            None => {
                proof {
                    lemma_children_min_size_fails(
                        children@,
                        (i + 1) as nat,
                        children@.len(),
                        axis,
                        sizes@,
                    );
                }
                return None;
            },
        }
        i = i + 1;
    }
    Some(total)
}

/// Once the size of the first `k` children cannot be found, neither can the
/// size of more of them.
proof fn lemma_children_min_size_fails(
    children: Seq<AnyWidget>,
    k: nat,
    n: nat,
    axis: Axis,
    sizes: Map<usize, Vec2>,
)
    requires
        k <= n <= children.len(),
        children_min_size(children, k, axis, sizes).is_none(),
    ensures
        children_min_size(children, n, axis, sizes).is_none(),
    decreases n,
{
    if k < n {
        lemma_children_min_size_fails(children, k, (n - 1) as nat, axis, sizes);
    }
}

/// The least size that the widget needs, from the sizes of its children in
/// `sizes` and the widths of its lines of text in `metrics`.
pub fn min_size(
    w: &AnyWidget,
    theme: &Theme,
    metrics: &TextMetrics,
    sizes: &FxHashMap<usize, Vec2>,
) -> (r: Option<Vec2>)
    ensures
        r == node_min_size(*w, *theme, metrics@, sizes@),
{
    if let Some(n) = line_count(w) {
        let frame = match w {
            AnyWidget::Button(_) => Vec2 { x: 4, y: 2 },
            AnyWidget::TextEntry(_) => Vec2 { x: 4, y: 2 },
            _ => Vec2 { x: 0, y: 0 },
        };
        return match metrics.get(w.id()) {
            Some(widths) => if widths.len() == n {
                text_size(widths, theme.advance_y, frame)
            } else {
                None
            },
            None => None,
        };
    }
    match w {
        AnyWidget::Empty(e) => {
            return Some(e.size);
        },
        AnyWidget::Padding(_) => {
            return Some(Vec2 { x: theme.padding, y: theme.padding });
        },
        _ => {},
    }
    if let Some(children) = w.child_list() {
        return children_size(children, axis(w), sizes);
    }
    match w.single_child() {
        Some(child) => {
            let border = match w {
                AnyWidget::Inset(_) => theme.padding.checked_mul(2),
                _ => Some(0),
            };
            match (map_get(sizes, child.id().raw), border) {
                (Some(size), Some(border)) => size.checked_add(Vec2 { x: border, y: border }),
                _ => None,
            }
        },
        None => None,
    }
}

/// The first pass of layout over the widget and everything below it: finds
/// the least size of each widget, children before parents, and records it in
/// `min_sizes` under the identifier of the widget.
///
/// Returns whether every size was found. If not, `min_sizes` holds the sizes
/// that were found before the pass stopped.
pub fn compute_widget_min_size(
    widget: &AnyWidget,
    theme: &Theme,
    metrics: &TextMetrics,
    min_sizes: &mut FxHashMap<usize, Vec2>,
) -> (ok: bool)
    ensures
        ok == sizes_after(*widget, *theme, metrics@, old(min_sizes)@).is_some(),
        ok ==> Some(final(min_sizes)@) == sizes_after(*widget, *theme, metrics@, old(min_sizes)@),
    decreases widget,
{
    if let Some(children) = widget.child_list() {
        assert(decreases_to!(widget => children@));
        let mut i: usize = 0;
        while i < children.len()
            invariant
                i <= children@.len(),
                decreases_to!(widget => children@),
                widget.spec_child_list() == Some(children@),
                Some(min_sizes@) == children_sizes_after(
                    children@,
                    i as nat,
                    *theme,
                    metrics@,
                    old(min_sizes)@,
                ),
            decreases children@.len() - i,
        {
            let ghost before = min_sizes@;
            if !compute_widget_min_size(&children[i], theme, metrics, min_sizes) {
                proof {
                    assert(sizes_after(children@[i as int], *theme, metrics@, before).is_none());
                    assert(children_sizes_after(
                        children@,
                        (i + 1) as nat,
                        *theme,
                        metrics@,
                        old(min_sizes)@,
                    ).is_none());
                    lemma_children_sizes_fail(
                        children@,
                        (i + 1) as nat,
                        children@.len(),
                        *theme,
                        metrics@,
                        old(min_sizes)@,
                    );
                }
                return false;
            }
            i = i + 1;
        }
    } else if let Some(child) = widget.single_child() {
        if !compute_widget_min_size(child, theme, metrics, min_sizes) {
            return false;
        }
    }
    match min_size(widget, theme, metrics, min_sizes) {
        Some(size) => {
            map_insert(min_sizes, widget.id().raw, size);
            true
        },
        None => false,
    }
}

/// Once the first pass has failed on the first `k` children, it fails on
/// more of them.
proof fn lemma_children_sizes_fail(
    children: Seq<AnyWidget>,
    k: nat,
    n: nat,
    theme: Theme,
    metrics: Map<usize, Seq<i32>>,
    sizes: Map<usize, Vec2>,
)
    requires
        k <= n <= children.len(),
        children_sizes_after(children, k, theme, metrics, sizes).is_none(),
    ensures
        children_sizes_after(children, n, theme, metrics, sizes).is_none(),
    decreases n,
{
    if k < n {
        lemma_children_sizes_fail(children, k, (n - 1) as nat, theme, metrics, sizes);
    }
}

/// The sum of the first `k` weights, where a weight that is missing counts
/// as zero.
pub open spec fn flex_sum(flex: Seq<u32>, k: nat) -> int
    decreases k,
{
    if k == 0 {
        0
    } else {
        flex_sum(flex, (k - 1) as nat) + flex_at(flex, k - 1)
    }
}

/// The weight at `i`, where a weight that is missing counts as zero.
pub open spec fn flex_at(flex: Seq<u32>, i: int) -> int {
    if 0 <= i < flex.len() {
        flex[i] as int
    } else {
        0
    }
}

/// The weights of the children of a column or a row.
pub open spec fn spec_flex_list(w: AnyWidget) -> Seq<u32> {
    match w {
        AnyWidget::Col(c) => c.flex@,
        AnyWidget::Row(c) => c.flex@,
        _ => Seq::empty(),
    }
}

/// What a widget with a list of children goes by when it gives them their
/// rectangles.
#[derive(Clone, Copy, PartialEq, Eq, Structural)]
pub struct Flow {
    /// The axis along which the children follow each other.
    pub axis: Axis,
    /// The rectangle that the widget was given.
    pub rect: Rect,
    /// The size of that rectangle.
    pub size: Vec2,
    /// The space along the axis beyond what the widget needs.
    pub extra: i32,
    /// The sum of the weights of the children, or one if that is zero.
    pub divisor: i64,
}

/// The rectangle of the next child of a flow and the position after it.
///
/// In a column a child is as wide as the column. It is as high as it needs
/// to be, plus its share of the extra space: the extra space times its weight
/// over the sum of the weights, rounded towards zero. The next child follows
/// below. A row does the same from left to right. Stacked children all get
/// the rectangle of the widget.
///
/// `None` if the least size of the child is missing where it is needed, or
/// if a coordinate does not fit.
pub open spec fn flow_step(flow: Flow, pos: Vec2, flex: int, child_min: Option<Vec2>) -> Option<
    (Rect, Vec2),
> {
    match flow.axis {
        Axis::Stacked => Some((flow.rect, pos)),
        Axis::Vertical => match child_min {
            None => None,
            Some(least) => {
                let share = crate::geom::trunc_div(flow.extra * flex, flow.divisor as int);
                let height = least.y + share;
                let end_x = pos.x + flow.size.x;
                let end_y = pos.y + height;
                if in_i32(share) && in_i32(height) && in_i32(end_x) && in_i32(end_y) {
                    Some(
                        (
                            Rect { start: pos, end: Vec2 { x: end_x as i32, y: end_y as i32 } },
                            Vec2 { x: pos.x, y: end_y as i32 },
                        ),
                    )
                } else {
                    None
                }
            },
        },
        Axis::Horizontal => match child_min {
            None => None,
            Some(least) => {
                let share = crate::geom::trunc_div(flow.extra * flex, flow.divisor as int);
                let width = least.x + share;
                let end_x = pos.x + width;
                let end_y = pos.y + flow.size.y;
                if in_i32(share) && in_i32(width) && in_i32(end_x) && in_i32(end_y) {
                    Some(
                        (
                            Rect { start: pos, end: Vec2 { x: end_x as i32, y: end_y as i32 } },
                            Vec2 { x: end_x as i32, y: pos.y },
                        ),
                    )
                } else {
                    None
                }
            },
        },
    }
}

/// The flow of a widget with a list of children in the rectangle `rect`, and
/// the rectangle that the widget records for itself.
///
/// An overlap records `rect`. A column or a row whose children have weights
/// records `rect` too; if all weights are zero it records no more than it
/// needs along its axis.
///
/// `None` if the size of `rect`, the least size of the widget, the sum of the
/// weights or a coordinate cannot be found or does not fit.
pub open spec fn flow_of(w: AnyWidget, rect: Rect, sizes: Map<usize, Vec2>) -> Option<
    (Flow, Rect),
> {
    let axis = spec_axis(w);
    let id = w.spec_id().raw;
    if axis == Axis::Stacked {
        Some(
            (Flow { axis, rect, size: Vec2 { x: 0, y: 0 }, extra: 0, divisor: 1 }, rect),
        )
    } else if !in_i32(rect.spec_width()) || !in_i32(rect.spec_height()) || !sizes.contains_key(
        id,
    ) {
        None
    } else {
        let size = Vec2 { x: rect.spec_width() as i32, y: rect.spec_height() as i32 };
        let least = sizes[id];
        let total = flex_sum(spec_flex_list(w), w.spec_children().len());
        let own_size = if total != 0 {
            size
        } else if axis == Axis::Vertical {
            Vec2 { x: size.x, y: least.y }
        } else {
            Vec2 { x: least.x, y: size.y }
        };
        let extra = if axis == Axis::Vertical {
            size.y - least.y
        } else {
            size.x - least.x
        };
        if total <= i64::MAX && in_i32(rect.start.x + own_size.x) && in_i32(
            rect.start.y + own_size.y,
        ) && in_i32(extra) {
            Some(
                (
                    Flow {
                        axis,
                        rect,
                        size,
                        extra: extra as i32,
                        divisor: if total == 0 {
                            1
                        } else {
                            total as i64
                        },
                    },
                    Rect {
                        start: rect.start,
                        end: Vec2 {
                            x: (rect.start.x + own_size.x) as i32,
                            y: (rect.start.y + own_size.y) as i32,
                        },
                    },
                ),
            )
        } else {
            None
        }
    }
}

/// The rectangle that a widget around one child records for itself in the
/// rectangle `rect`, and the rectangle that it gives to its child.
///
/// `NoFill` takes no more of `rect` than it needs, from the start of `rect`,
/// and gives that to its child. `Fill` takes `rect` and gives it on. `Inset`
/// gives its child `rect` less the padding of the theme on every side, and
/// records `rect` with its end moved out by twice the padding.
///
/// `None` if the least size of the widget is missing where it is needed, or
/// if a coordinate does not fit.
pub open spec fn single_rects(w: AnyWidget, rect: Rect, theme: Theme, sizes: Map<usize, Vec2>) -> Option<
    (Rect, Rect),
> {
    let id = w.spec_id().raw;
    match w {
        AnyWidget::NoFill(_) => if sizes.contains_key(id) && in_i32(rect.start.x + sizes[id].x)
            && in_i32(rect.start.y + sizes[id].y) {
            let own = Rect {
                start: rect.start,
                end: Vec2 {
                    x: (rect.start.x + sizes[id].x) as i32,
                    y: (rect.start.y + sizes[id].y) as i32,
                },
            };
            Some((own, own))
        } else {
            None
        },
        AnyWidget::Inset(_) => {
            let p = theme.padding as int;
            if in_i32(p * 2) && in_i32(rect.end.x + p * 2) && in_i32(rect.end.y + p * 2) && in_i32(
                rect.start.x + p,
            ) && in_i32(rect.start.y + p) && in_i32(rect.end.x - p) && in_i32(rect.end.y - p) {
                Some(
                    (
                        Rect {
                            start: rect.start,
                            end: Vec2 {
                                x: (rect.end.x + p * 2) as i32,
                                y: (rect.end.y + p * 2) as i32,
                            },
                        },
                        Rect {
                            start: Vec2 {
                                x: (rect.start.x + p) as i32,
                                y: (rect.start.y + p) as i32,
                            },
                            end: Vec2 { x: (rect.end.x - p) as i32, y: (rect.end.y - p) as i32 },
                        },
                    ),
                )
            } else {
                None
            }
        },
        _ => Some((rect, rect)),
    }
}

/// The rectangles after the second pass over the widget `w`, which is given
/// the rectangle `rect`: the widget records its own rectangle under its
/// identifier, then the pass goes over its children in order, each with the
/// rectangle that the widget gives it. `None` if a rectangle in the tree
/// cannot be found.
pub open spec fn rects_after(
    w: AnyWidget,
    rect: Rect,
    theme: Theme,
    sizes: Map<usize, Vec2>,
    rects: Map<usize, Rect>,
) -> Option<Map<usize, Rect>>
    decreases w, 0nat,
{
    let id = w.spec_id().raw;
    match w {
        AnyWidget::Col(c) => match flow_of(w, rect, sizes) {
            None => None,
            Some((flow, own)) => match children_rects_after(
                c.children@,
                c.children@.len(),
                flow,
                c.flex@,
                theme,
                sizes,
                rects.insert(id, own),
            ) {
                None => None,
                Some((after, _)) => Some(after),
            },
        },
        AnyWidget::Row(c) => match flow_of(w, rect, sizes) {
            None => None,
            Some((flow, own)) => match children_rects_after(
                c.children@,
                c.children@.len(),
                flow,
                c.flex@,
                theme,
                sizes,
                rects.insert(id, own),
            ) {
                None => None,
                Some((after, _)) => Some(after),
            },
        },
        AnyWidget::Overlap(c) => match flow_of(w, rect, sizes) {
            None => None,
            Some((flow, own)) => match children_rects_after(
                c.children@,
                c.children@.len(),
                flow,
                Seq::empty(),
                theme,
                sizes,
                rects.insert(id, own),
            ) {
                None => None,
                Some((after, _)) => Some(after),
            },
        },
        AnyWidget::NoFill(c) => match single_rects(w, rect, theme, sizes) {
            None => None,
            Some((own, inner)) => rects_after(*c.child, inner, theme, sizes, rects.insert(id, own)),
        },
        AnyWidget::Inset(c) => match single_rects(w, rect, theme, sizes) {
            None => None,
            Some((own, inner)) => rects_after(*c.child, inner, theme, sizes, rects.insert(id, own)),
        },
        AnyWidget::Fill(c) => match single_rects(w, rect, theme, sizes) {
            None => None,
            Some((own, inner)) => rects_after(*c.child, inner, theme, sizes, rects.insert(id, own)),
        },
        _ => Some(rects.insert(id, rect)),
    }
}

/// The rectangles after the second pass over the first `k` children of a
/// flow, and the position after the last of them.
pub open spec fn children_rects_after(
    children: Seq<AnyWidget>,
    k: nat,
    flow: Flow,
    flex: Seq<u32>,
    theme: Theme,
    sizes: Map<usize, Vec2>,
    rects: Map<usize, Rect>,
) -> Option<(Map<usize, Rect>, Vec2)>
    decreases children, k,
{
    if k == 0 || k > children.len() {
        Some((rects, flow.rect.start))
    } else {
        match children_rects_after(children, (k - 1) as nat, flow, flex, theme, sizes, rects) {
            None => None,
            Some((before, pos)) => {
                let child = children[k - 1];
                let child_id = child.spec_id().raw;
                let child_min = if sizes.contains_key(child_id) {
                    Some(sizes[child_id])
                } else {
                    None
                };
                match flow_step(flow, pos, flex_at(flex, k - 1), child_min) {
                    None => None,
                    Some((child_rect, next)) => match rects_after(
                        child,
                        child_rect,
                        theme,
                        sizes,
                        before,
                    ) {
                        None => None,
                        Some(after) => Some((after, next)),
                    },
                }
            },
        }
    }
}

fn flex_list(w: &AnyWidget) -> (r: Option<&Vec<u32>>)
    ensures
        match r {
            Some(flex) => flex@ == spec_flex_list(*w),
            None => spec_flex_list(*w) == Seq::<u32>::empty(),
        },
{
    match w {
        AnyWidget::Col(c) => Some(&c.flex),
        AnyWidget::Row(c) => Some(&c.flex),
        _ => None,
    }
}

fn flex_entry(flex: Option<&Vec<u32>>, i: usize) -> (r: u32)
    ensures
        r == flex_at(
            match flex {
                Some(f) => f@,
                None => Seq::empty(),
            },
            i as int,
        ),
{
    match flex {
        Some(f) => if i < f.len() {
            f[i]
        } else {
            0
        },
        None => 0,
    }
}

proof fn lemma_flex_sum_grows(flex: Seq<u32>, k: nat, n: nat)
    requires
        k <= n,
    ensures
        0 <= flex_sum(flex, k) <= flex_sum(flex, n),
    decreases n,
{
    if k < n {
        lemma_flex_sum_grows(flex, k, (n - 1) as nat);
    } else if k > 0 {
        lemma_flex_sum_grows(flex, (k - 1) as nat, (k - 1) as nat);
    }
}

/// The sum of the weights of `n` children, if it fits.
fn total_flex(flex: Option<&Vec<u32>>, n: usize) -> (r: Option<i64>)
    ensures
        match r {
            Some(total) => total == flex_sum(
                match flex {
                    Some(f) => f@,
                    None => Seq::empty(),
                },
                n as nat,
            ),
            None => flex_sum(
                match flex {
                    Some(f) => f@,
                    None => Seq::empty(),
                },
                n as nat,
            ) > i64::MAX,
        },
{
    let ghost weights = match flex {
        Some(f) => f@,
        None => Seq::empty(),
    };
    let mut total: i64 = 0;
    let mut i: usize = 0;
    while i < n
        invariant
            i <= n,
            weights == (match flex {
                Some(f) => f@,
                None => Seq::empty(),
            }),
            0 <= total,
            total == flex_sum(weights, i as nat),
        decreases n - i,
    {
        match total.checked_add(flex_entry(flex, i) as i64) {
            Some(next) => {
                total = next;
            },
            None => {
                proof {
                    lemma_flex_sum_grows(weights, (i + 1) as nat, n as nat);
                }
                return None;
            },
        }
        i = i + 1;
    }
    Some(total)
}

fn flow_for(w: &AnyWidget, rect: Rect, sizes: &FxHashMap<usize, Vec2>) -> (r: Option<(Flow, Rect)>)
    requires
        w.spec_child_list().is_some(),
    ensures
        r == flow_of(*w, rect, sizes@),
        r matches Some((flow, _)) ==> flow.divisor > 0 && flow.rect == rect,
{
    let axis = axis(w);
    if axis == Axis::Stacked {
        return Some(
            (Flow { axis, rect, size: Vec2 { x: 0, y: 0 }, extra: 0, divisor: 1 }, rect),
        );
    }
    let count = match w.child_list() {
        Some(children) => children.len(),
        None => 0,
    };
    assert(count == w.spec_children().len());
    let size = match rect.size() {
        Some(size) => size,
        None => {
            return None;
        },
    };
    let least = match map_get(sizes, w.id().raw) {
        Some(least) => *least,
        None => {
            return None;
        },
    };
    let total = match total_flex(flex_list(w), count) {
        Some(total) => total,
        None => {
            return None;
        },
    };
    proof {
        lemma_flex_sum_grows(spec_flex_list(*w), 0, count as nat);
    }
    let own_size = if total != 0 {
        size
    } else if axis == Axis::Vertical {
        Vec2 { x: size.x, y: least.y }
    } else {
        Vec2 { x: least.x, y: size.y }
    };
    let extra = if axis == Axis::Vertical {
        size.y.checked_sub(least.y)
    } else {
        size.x.checked_sub(least.x)
    };
    match (rect.start.checked_add(own_size), extra) {
        (Some(end), Some(extra)) => Some(
            (
                Flow {
                    axis,
                    rect,
                    size,
                    extra,
                    divisor: if total == 0 {
                        1
                    } else {
                        total
                    },
                },
                Rect { start: rect.start, end },
            ),
        ),
        _ => None,
    }
}

/// The share of a child with the weight `flex` in the extra space of a flow,
/// if it fits.
fn flex_share(extra: i32, flex: u32, divisor: i64) -> (r: Option<i32>)
    requires
        divisor > 0,
    ensures
        r.is_some() == in_i32(crate::geom::trunc_div(extra * flex, divisor as int)),
        r matches Some(share) ==> share == crate::geom::trunc_div(extra * flex, divisor as int),
{
    assert(-0x8000_0000_0000_0000 < extra * flex < 0x8000_0000_0000_0000) by (nonlinear_arith)
        requires
            -0x8000_0000 <= extra <= 0x7fff_ffff,
            0 <= flex <= 0xffff_ffff,
    ;
    let product: i64 = (extra as i64) * (flex as i64);
    let share = crate::geom::div_towards_zero(product, divisor);
    if share >= -0x8000_0000 && share <= 0x7fff_ffff {
        Some(share as i32)
    } else {
        None
    }
}

fn flow_next(flow: &Flow, pos: Vec2, flex: u32, child_min: Option<Vec2>) -> (r: Option<(Rect, Vec2)>)
    requires
        flow.divisor > 0,
    ensures
        r == flow_step(*flow, pos, flex as int, child_min),
{
    match flow.axis {
        Axis::Stacked => Some((flow.rect, pos)),
        Axis::Vertical => {
            let least = match child_min {
                Some(least) => least,
                None => {
                    return None;
                },
            };
            let share = match flex_share(flow.extra, flex, flow.divisor) {
                Some(share) => share,
                None => {
                    return None;
                },
            };
            match least.y.checked_add(share) {
                Some(height) => match pos.checked_add(Vec2 { x: flow.size.x, y: height }) {
                    Some(end) => Some((Rect { start: pos, end }, Vec2 { x: pos.x, y: end.y })),
                    None => None,
                },
                None => None,
            }
        },
        Axis::Horizontal => {
            let least = match child_min {
                Some(least) => least,
                None => {
                    return None;
                },
            };
            let share = match flex_share(flow.extra, flex, flow.divisor) {
                Some(share) => share,
                None => {
                    return None;
                },
            };
            match least.x.checked_add(share) {
                Some(width) => match pos.checked_add(Vec2 { x: width, y: flow.size.y }) {
                    Some(end) => Some((Rect { start: pos, end }, Vec2 { x: end.x, y: pos.y })),
                    None => None,
                },
                None => None,
            }
        },
    }
}

fn single_rects_for(w: &AnyWidget, rect: Rect, theme: &Theme, sizes: &FxHashMap<usize, Vec2>) -> (r:
    Option<(Rect, Rect)>)
    ensures
        r == single_rects(*w, rect, *theme, sizes@),
{
    match w {
        AnyWidget::NoFill(_) => match map_get(sizes, w.id().raw) {
            Some(least) => match rect.start.checked_add(*least) {
                Some(end) => {
                    let own = Rect { start: rect.start, end };
                    Some((own, own))
                },
                None => None,
            },
            None => None,
        },
        AnyWidget::Inset(_) => {
            let p = theme.padding;
            let twice = match p.checked_mul(2) {
                Some(twice) => twice,
                None => {
                    return None;
                },
            };
            match (
                rect.end.checked_add(Vec2 { x: twice, y: twice }),
                rect.start.checked_add(Vec2 { x: p, y: p }),
                rect.end.checked_sub(Vec2 { x: p, y: p }),
            ) {
                (Some(own_end), Some(start), Some(end)) => Some(
                    (Rect { start: rect.start, end: own_end }, Rect { start, end }),
                ),
                _ => None,
            }
        },
        _ => Some((rect, rect)),
    }
}

/// Once the second pass has failed on the first `k` children, it fails on
/// more of them.
proof fn lemma_children_rects_fail(
    children: Seq<AnyWidget>,
    k: nat,
    n: nat,
    flow: Flow,
    flex: Seq<u32>,
    theme: Theme,
    sizes: Map<usize, Vec2>,
    rects: Map<usize, Rect>,
)
    requires
        k <= n <= children.len(),
        children_rects_after(children, k, flow, flex, theme, sizes, rects).is_none(),
    ensures
        children_rects_after(children, n, flow, flex, theme, sizes, rects).is_none(),
    decreases n,
{
    if k < n {
        lemma_children_rects_fail(children, k, (n - 1) as nat, flow, flex, theme, sizes, rects);
    }
}

/// The second pass of layout over the widget and everything below it: the
/// widget is given `rect`, records its rectangle in `widget_rects` under its
/// identifier, and gives each of its children a rectangle in turn.
///
/// `min_sizes` holds the least sizes that the first pass found. Returns
/// whether every rectangle was found. If not, `widget_rects` holds the
/// rectangles that were found before the pass stopped.
pub fn compute_rects(
    widget: &AnyWidget,
    rect: Rect,
    theme: &Theme,
    min_sizes: &FxHashMap<usize, Vec2>,
    widget_rects: &mut FxHashMap<usize, Rect>,
) -> (ok: bool)
    ensures
        ok == rects_after(*widget, rect, *theme, min_sizes@, old(widget_rects)@).is_some(),
        ok ==> Some(final(widget_rects)@) == rects_after(
            *widget,
            rect,
            *theme,
            min_sizes@,
            old(widget_rects)@,
        ),
    decreases widget,
{
    let id = widget.id().raw;
    if let Some(children) = widget.child_list() {
        assert(decreases_to!(widget => children@));
        let (flow, own) = match flow_for(widget, rect, min_sizes) {
            Some(found) => found,
            None => {
                return false;
            },
        };
        map_insert(widget_rects, id, own);
        let flex = flex_list(widget);
        let ghost weights = spec_flex_list(*widget);
        let ghost start = widget_rects@;
        let mut pos = rect.start;
        let mut i: usize = 0;
        while i < children.len()
            invariant
                i <= children@.len(),
                decreases_to!(widget => children@),
                widget.spec_child_list() == Some(children@),
                flow.divisor > 0,
                flow.rect == rect,
                flow_of(*widget, rect, min_sizes@) == Some((flow, own)),
                start == old(widget_rects)@.insert(id, own),
                id == widget.spec_id().raw,
                weights == spec_flex_list(*widget),
                weights == (match flex {
                    Some(f) => f@,
                    None => Seq::empty(),
                }),
                Some((widget_rects@, pos)) == children_rects_after(
                    children@,
                    i as nat,
                    flow,
                    weights,
                    *theme,
                    min_sizes@,
                    start,
                ),
            decreases children@.len() - i,
        {
            let child = &children[i];
            let child_min = match map_get(min_sizes, child.id().raw) {
                Some(least) => Some(*least),
                None => None,
            };
            let ghost before = widget_rects@;
            let step = flow_next(&flow, pos, flex_entry(flex, i), child_min);
            let done = match step {
                Some((child_rect, next)) => {
                    if compute_rects(child, child_rect, theme, min_sizes, widget_rects) {
                        pos = next;
                        true
                    } else {
                        false
                    }
                },
                None => false,
            };
            if !done {
                proof {
                    assert(children_rects_after(
                        children@,
                        (i + 1) as nat,
                        flow,
                        weights,
                        *theme,
                        min_sizes@,
                        start,
                    ).is_none());
                    lemma_children_rects_fail(
                        children@,
                        (i + 1) as nat,
                        children@.len(),
                        flow,
                        weights,
                        *theme,
                        min_sizes@,
                        start,
                    );
                }
                return false;
            }
            i = i + 1;
        }
        true
    } else if let Some(child) = widget.single_child() {
        match single_rects_for(widget, rect, theme, min_sizes) {
            Some((own, inner)) => {
                map_insert(widget_rects, id, own);
                compute_rects(child, inner, theme, min_sizes, widget_rects)
            },
            None => false,
        }
    } else {
        map_insert(widget_rects, id, rect);
        true
    }
}

/// The events that wait for each component, under the identifier of the
/// component, in the order in which they came.
pub struct EventQueues {
    pub queues: FxHashMap<usize, Vec<Event>>,
}

impl View for EventQueues {
    type V = Map<usize, Seq<Event>>;

    open spec fn view(&self) -> Map<usize, Seq<Event>> {
        Map::new(|k: usize| self.queues@.contains_key(k), |k: usize| self.queues@[k]@)
    }
}

/// The events that wait under `id`: none, if nothing is held under it.
pub open spec fn queue_of(queues: Map<usize, Seq<Event>>, id: usize) -> Seq<Event> {
    if queues.contains_key(id) {
        queues[id]
    } else {
        Seq::empty()
    }
}

impl EventQueues {
    /// No event waits.
    pub fn new() -> (q: EventQueues)
        ensures
            q@ == Map::<usize, Seq<Event>>::empty(),
    {
        let q = EventQueues { queues: map_new() };
        assert(q@ =~= Map::<usize, Seq<Event>>::empty());
        q
    }

    /// Puts `event` behind the events that wait for the component `id`.
    pub fn push(&mut self, id: WidgetId, event: Event)
        ensures
            final(self)@ == old(self)@.insert(id.raw, queue_of(old(self)@, id.raw).push(event)),
    {
        let mut queue = match map_remove(&mut self.queues, id.raw) {
            Some(queue) => queue,
            None => Vec::new(),
        };
        queue.push(event);
        map_insert(&mut self.queues, id.raw, queue);
        assert(self@ =~= old(self)@.insert(id.raw, queue_of(old(self)@, id.raw).push(event)));
    }

    /// Takes out the events that wait for the component `id`.
    pub fn take(&mut self, id: WidgetId) -> (events: Vec<Event>)
        ensures
            events@ == queue_of(old(self)@, id.raw),
            final(self)@ == old(self)@.remove(id.raw),
    {
        let events = match map_remove(&mut self.queues, id.raw) {
            Some(queue) => queue,
            None => Vec::new(),
        };
        assert(self@ =~= old(self)@.remove(id.raw));
        events
    }
}

/// The position `pos` as seen from `origin`, if it fits.
pub open spec fn relative_to(pos: Vec2, origin: Vec2) -> Option<Vec2> {
    if in_i32(pos.x - origin.x) && in_i32(pos.y - origin.y) {
        Some(Vec2 { x: (pos.x - origin.x) as i32, y: (pos.y - origin.y) as i32 })
    } else {
        None
    }
}

/// What a component with the rectangle `rect` gets of `event`.
///
/// A component gets what the keyboard does only while it is active. It gets
/// what the mouse does inside its rectangle, with the position seen from the
/// start of the rectangle. Every component gets a change of focus, a new size
/// of the window and a turn of the wheel; none gets the cursor entering or
/// leaving or the pointer being locked or unlocked.
///
/// The outer `None` says that a position as seen from the rectangle does not
/// fit. The inner `None` says that the component gets nothing.
pub open spec fn component_event(rect: Rect, is_active: bool, event: Event) -> Option<
    Option<Event>,
> {
    match event {
        Event::KeyDown(_) | Event::KeyUp(_) | Event::CharEntered(_) => Some(
            if is_active {
                Some(event)
            } else {
                None
            },
        ),
        Event::MouseDown(button, pos) => if rect.spec_contains_point(pos) {
            match relative_to(pos, rect.start) {
                Some(p) => Some(Some(Event::MouseDown(button, p))),
                None => None,
            }
        } else {
            Some(None)
        },
        Event::MouseUp(button, pos) => if rect.spec_contains_point(pos) {
            match relative_to(pos, rect.start) {
                Some(p) => Some(Some(Event::MouseUp(button, p))),
                None => None,
            }
        } else {
            Some(None)
        },
        Event::MouseMove { pos, movement } => if rect.spec_contains_point(pos) {
            match relative_to(pos, rect.start) {
                Some(p) => Some(Some(Event::MouseMove { pos: p, movement })),
                None => None,
            }
        } else {
            Some(None)
        },
        Event::MouseEnter | Event::MouseLeave | Event::PointerLocked | Event::PointerUnlocked => Some(
            None,
        ),
        Event::FocusGained | Event::FocusLost | Event::WindowResized(_) | Event::Scroll(_) => Some(
            Some(event),
        ),
    }
}

fn event_for_component(rect: Rect, is_active: bool, event: &Event) -> (r: Option<Option<Event>>)
    ensures
        r == component_event(rect, is_active, *event),
{
    match event {
        Event::KeyDown(_) | Event::KeyUp(_) | Event::CharEntered(_) => if is_active {
            Some(Some(event.clone()))
        } else {
            Some(None)
        },
        Event::MouseDown(button, pos) => if rect.contains_point(*pos) {
            match pos.checked_sub(rect.start) {
                Some(p) => Some(Some(Event::MouseDown(*button, p))),
                None => None,
            }
        } else {
            Some(None)
        },
        Event::MouseUp(button, pos) => if rect.contains_point(*pos) {
            match pos.checked_sub(rect.start) {
                Some(p) => Some(Some(Event::MouseUp(*button, p))),
                None => None,
            }
        } else {
            Some(None)
        },
        Event::MouseMove { pos, movement } => if rect.contains_point(*pos) {
            match pos.checked_sub(rect.start) {
                Some(p) => Some(Some(Event::MouseMove { pos: p, movement: *movement })),
                None => None,
            }
        } else {
            Some(None)
        },
        Event::MouseEnter | Event::MouseLeave | Event::PointerLocked | Event::PointerUnlocked => Some(
            None,
        ),
        Event::FocusGained | Event::FocusLost | Event::WindowResized(_) | Event::Scroll(_) => Some(
            Some(event.clone()),
        ),
    }
}

/// Where an event went: whether a component got it, the events that wait for
/// the components, and the component that is active.
pub ghost struct Routed {
    pub handled: bool,
    pub queues: Map<usize, Seq<Event>>,
    pub active: Option<WidgetId>,
}

/// Where `event` goes in the tree below `w`.
///
/// The tree is searched from the root, children in order, and the first
/// component that gets the event takes it: the event, as the component gets
/// it, is put behind the events that wait for the component. A press of the
/// left mouse button makes the component that takes it the active one.
///
/// `None` if a component has no rectangle in `rects`, or if a position as
/// seen from a component does not fit.
pub open spec fn route(
    w: AnyWidget,
    event: Event,
    rects: Map<usize, Rect>,
    queues: Map<usize, Seq<Event>>,
    active: Option<WidgetId>,
) -> Option<Routed>
    decreases w, 0nat,
{
    let id = w.spec_id();
    let own = if !w.spec_is_component() {
        Some(None)
    } else if !rects.contains_key(id.raw) {
        None
    } else {
        component_event(rects[id.raw], active == Some(id), event)
    };
    match own {
        None => None,
        Some(Some(got)) => Some(
            Routed {
                handled: true,
                queues: queues.insert(id.raw, queue_of(queues, id.raw).push(got)),
                active: if event matches Event::MouseDown(MouseButton::Left, _) {
                    Some(id)
                } else {
                    active
                },
            },
        ),
        Some(None) => match w {
            AnyWidget::Col(c) => route_children(
                c.children@,
                c.children@.len(),
                event,
                rects,
                queues,
                active,
            ),
            AnyWidget::Row(c) => route_children(
                c.children@,
                c.children@.len(),
                event,
                rects,
                queues,
                active,
            ),
            AnyWidget::Overlap(c) => route_children(
                c.children@,
                c.children@.len(),
                event,
                rects,
                queues,
                active,
            ),
            AnyWidget::NoFill(c) => route(*c.child, event, rects, queues, active),
            AnyWidget::Inset(c) => route(*c.child, event, rects, queues, active),
            AnyWidget::Fill(c) => route(*c.child, event, rects, queues, active),
            _ => Some(Routed { handled: false, queues, active }),
        },
    }
}

/// Where `event` goes among the first `k` children: to the first of them
/// below which a component takes it.
pub open spec fn route_children(
    children: Seq<AnyWidget>,
    k: nat,
    event: Event,
    rects: Map<usize, Rect>,
    queues: Map<usize, Seq<Event>>,
    active: Option<WidgetId>,
) -> Option<Routed>
    decreases children, k,
{
    if k == 0 || k > children.len() {
        Some(Routed { handled: false, queues, active })
    } else {
        match route_children(children, (k - 1) as nat, event, rects, queues, active) {
            None => None,
            Some(before) => if before.handled {
                Some(before)
            } else {
                route(children[k - 1], event, rects, before.queues, before.active)
            },
        }
    }
}

/// Once the search among the first `k` children has ended, with a component
/// that took the event or without a result, the search among more of them
/// ends the same way.
proof fn lemma_route_children_ends(
    children: Seq<AnyWidget>,
    k: nat,
    n: nat,
    event: Event,
    rects: Map<usize, Rect>,
    queues: Map<usize, Seq<Event>>,
    active: Option<WidgetId>,
)
    requires
        k <= n <= children.len(),
        match route_children(children, k, event, rects, queues, active) {
            None => true,
            Some(found) => found.handled,
        },
    ensures
        route_children(children, n, event, rects, queues, active) == route_children(
            children,
            k,
            event,
            rects,
            queues,
            active,
        ),
    decreases n,
{
    if k < n {
        lemma_route_children_ends(children, k, (n - 1) as nat, event, rects, queues, active);
    }
}

/// Routes `event` into the tree below `widget`: the first component that
/// gets the event takes it.
///
/// Returns whether a component took the event, or `None` if a component has
/// no rectangle in `widget_rects` or a position as seen from a component does
/// not fit. After `None`, `events_out` and `active_component_id` are as the
/// search left them.
pub fn widget_handle_event(
    widget: &AnyWidget,
    event: &Event,
    widget_rects: &FxHashMap<usize, Rect>,
    events_out: &mut EventQueues,
    active_component_id: &mut Option<WidgetId>,
) -> (handled: Option<bool>)
    ensures
        match route(
            *widget,
            *event,
            widget_rects@,
            old(events_out)@,
            *old(active_component_id),
        ) {
            None => handled.is_none(),
            Some(found) => handled == Some(found.handled) && final(events_out)@ == found.queues
                && *final(active_component_id) == found.active,
        },
    decreases widget,
{
    let id = widget.id();
    if widget.is_component() {
        let rect = match map_get(widget_rects, id.raw) {
            Some(rect) => *rect,
            None => {
                return None;
            },
        };
        let is_active = match *active_component_id {
            Some(active) => active == id,
            None => false,
        };
        match event_for_component(rect, is_active, event) {
            None => {
                return None;
            },
            Some(Some(got)) => {
                if let Event::MouseDown(MouseButton::Left, _) = event {
                    *active_component_id = Some(id);
                }
                events_out.push(id, got);
                return Some(true);
            },
            Some(None) => {},
        }
    }
    if let Some(children) = widget.child_list() {
        assert(decreases_to!(widget => children@));
        let mut i: usize = 0;
        while i < children.len()
            invariant
                i <= children@.len(),
                decreases_to!(widget => children@),
                widget.spec_child_list() == Some(children@),
                route_children(
                    children@,
                    i as nat,
                    *event,
                    widget_rects@,
                    old(events_out)@,
                    *old(active_component_id),
                ) == Some(
                    Routed {
                        handled: false,
                        queues: events_out@,
                        active: *active_component_id,
                    },
                ),
            decreases children@.len() - i,
        {
            let found = widget_handle_event(
                &children[i],
                event,
                widget_rects,
                events_out,
                active_component_id,
            );
            proof {
                let next = route_children(
                    children@,
                    (i + 1) as nat,
                    *event,
                    widget_rects@,
                    old(events_out)@,
                    *old(active_component_id),
                );
                if found != Some(false) {
                    lemma_route_children_ends(
                        children@,
                        (i + 1) as nat,
                        children@.len(),
                        *event,
                        widget_rects@,
                        old(events_out)@,
                        *old(active_component_id),
                    );
                }
            }
            match found {
                Some(false) => {},
                _ => {
                    return found;
                },
            }
            i = i + 1;
        }
        Some(false)
    } else if let Some(child) = widget.single_child() {
        widget_handle_event(child, event, widget_rects, events_out, active_component_id)
    } else {
        Some(false)
    }
}

/// What a layout reports.
pub struct GuiResult {
    pub rendered_size: Vec2,
}

impl GuiResult {
    /// The size of the rectangle that the root of the tree recorded.
    pub fn rendered_size(&self) -> (r: Vec2)
        ensures
            r == self.rendered_size,
    {
        self.rendered_size
    }
}

/// What the handling of a batch of events leaves for the application.
pub struct GuiEventResult {
    /// The events that wait for each component.
    pub component_events: EventQueues,
    /// The events that are left for the application.
    pub unhandled_events: Vec<Event>,
}

impl GuiEventResult {
    /// Updates the component with the events that wait for it, and takes
    /// them out.
    ///
    /// Returns what the update reports, or `None` if the component cannot
    /// take the events; the component is then left as it is.
    pub fn update_component<C: Component>(&mut self, theme: &Theme, component: &mut C) -> (r:
        Option<C::Res>)
        ensures
            final(self).component_events@ == old(self).component_events@.remove(
                old(component).spec_id().raw,
            ),
            final(self).unhandled_events == old(self).unhandled_events,
            r.is_some() == old(component).accepts_spec(
                *theme,
                queue_of(old(self).component_events@, old(component).spec_id().raw),
            ),
            match r {
                Some(res) => old(component).update_spec(
                    *theme,
                    queue_of(old(self).component_events@, old(component).spec_id().raw),
                    *final(component),
                    res,
                ),
                None => *final(component) == *old(component),
            },
    {
        let events = self.component_events.take(component.id());
        if component.accepts(theme, &events) {
            Some(component.update(theme, events))
        } else {
            None
        }
    }

    /// Takes out the events that are left for the application.
    pub fn unhandled_events(&mut self) -> (events: Vec<Event>)
        ensures
            events@ == old(self).unhandled_events@,
            final(self).unhandled_events@.len() == 0,
            final(self).component_events == old(self).component_events,
    {
        let mut events: Vec<Event> = Vec::new();
        std::mem::swap(&mut self.unhandled_events, &mut events);
        events
    }
}

/// A widget tree together with the rectangles that its widgets were given.
pub struct RenderedGui {
    pub widget: AnyWidget,
    pub widget_rects: FxHashMap<usize, Rect>,
}

/// The state of the user interface between frames: the tree that was laid
/// out last, and the component that is active.
pub struct Gui {
    /// The active component and its place in the order of the components.
    /// `None` until a component was made active.
    pub active_component: Option<(usize, WidgetId)>,
    /// `None` until a tree was laid out.
    pub last_render: Option<RenderedGui>,
}

/// The rectangles of a layout of `widget` on a surface of the given size,
/// and the size of the rectangle of `widget` itself.
///
/// The first pass starts without sizes. The second pass starts without
/// rectangles and gives the root the surface, from the origin.
///
/// `None` if the size of the surface does not fit, or if a pass fails.
pub open spec fn layout_of(
    widget: AnyWidget,
    theme: Theme,
    metrics: Map<usize, Seq<i32>>,
    surface_size: crate::gui::event::Extent,
) -> Option<(Map<usize, Rect>, Vec2)> {
    if surface_size.x > i32::MAX || surface_size.y > i32::MAX {
        None
    } else {
        match sizes_after(widget, theme, metrics, Map::empty()) {
            None => None,
            Some(sizes) => match rects_after(
                widget,
                Rect {
                    start: Vec2 { x: 0, y: 0 },
                    end: Vec2 { x: surface_size.x as i32, y: surface_size.y as i32 },
                },
                theme,
                sizes,
                Map::empty(),
            ) {
                None => None,
                Some(rects) => {
                    let id = widget.spec_id().raw;
                    if rects.contains_key(id) && in_i32(rects[id].spec_width()) && in_i32(
                        rects[id].spec_height(),
                    ) {
                        Some(
                            (
                                rects,
                                Vec2 {
                                    x: rects[id].spec_width() as i32,
                                    y: rects[id].spec_height() as i32,
                                },
                            ),
                        )
                    } else {
                        None
                    }
                },
            },
        }
    }
}

/// The first place at which `id` stands among the first `k` of the
/// identifiers.
pub open spec fn first_index(ordered: Seq<WidgetId>, id: WidgetId, k: nat) -> Option<int>
    decreases k,
{
    if k == 0 || k > ordered.len() {
        None
    } else {
        match first_index(ordered, id, (k - 1) as nat) {
            Some(i) => Some(i),
            None => if ordered[k - 1] == id {
                Some(k - 1)
            } else {
                None
            },
        }
    }
}

/// The place to which the tab key moves the focus from the place `index`
/// among `len` components: one on, or one back with the shift key, around the
/// ends. `None` if there is no component or the place does not fit.
pub open spec fn tab_target(index: usize, len: nat, shift: bool) -> Option<int> {
    if len == 0 || index + len > usize::MAX {
        None
    } else if shift {
        Some((index + len - 1) % (len as int))
    } else {
        Some((index + 1) % (len as int))
    }
}

/// What the handling of events goes by, from one event to the next.
pub ghost struct Focus {
    /// The active component and its place, as the `Gui` will keep it.
    pub stored: Option<(usize, WidgetId)>,
    /// The component that counts as active for routing.
    pub routing: Option<WidgetId>,
    /// The events that wait for each component.
    pub queues: Map<usize, Seq<Event>>,
    /// The events that are left for the application.
    pub unhandled: Seq<Event>,
}

/// The state after `event`.
///
/// The event is routed into the tree. If that makes another component the
/// active one for routing, the `Gui` keeps it, with its first place in
/// `ordered`. Then, if the `Gui` keeps an active component and the event is
/// a press of the key named `Tab`, the focus moves to the component one place
/// on in `ordered`, or one back with the shift key; routing does not see that
/// move during the same batch. Every other event is left for the application.
///
/// `None` if routing fails, if the new active component is not in `ordered`,
/// or if the tab key has no place to move to.
pub open spec fn focus_step(
    tree: AnyWidget,
    rects: Map<usize, Rect>,
    ordered: Seq<WidgetId>,
    f: Focus,
    event: Event,
) -> Option<Focus> {
    match route(tree, event, rects, f.queues, f.routing) {
        None => None,
        Some(routed) => {
            let stored = if routed.active != f.routing && routed.active.is_some() {
                match first_index(ordered, routed.active.unwrap(), ordered.len()) {
                    Some(i) => Some(Some((i as usize, routed.active.unwrap()))),
                    None => None,
                }
            } else {
                Some(f.stored)
            };
            match stored {
                None => None,
                Some(stored) => {
                    let tab = match (stored, event) {
                        (Some(_), Event::KeyDown(key)) => key.code@ == "Tab"@,
                        _ => false,
                    };
                    if tab {
                        match tab_target(stored.unwrap().0, ordered.len(), event->KeyDown_0.shift) {
                            Some(i) => Some(
                                Focus {
                                    stored: Some((i as usize, ordered[i])),
                                    routing: routed.active,
                                    queues: routed.queues,
                                    unhandled: f.unhandled,
                                },
                            ),
                            None => None,
                        }
                    } else {
                        Some(
                            Focus {
                                stored,
                                routing: routed.active,
                                queues: routed.queues,
                                unhandled: f.unhandled.push(event),
                            },
                        )
                    }
                },
            }
        },
    }
}

/// The state after the events, taken in order.
pub open spec fn focus_run(
    tree: AnyWidget,
    rects: Map<usize, Rect>,
    ordered: Seq<WidgetId>,
    f: Focus,
    events: Seq<Event>,
) -> Option<Focus>
    decreases events.len(),
{
    if events.len() == 0 {
        Some(f)
    } else {
        match focus_run(tree, rects, ordered, f, events.drop_last()) {
            None => None,
            Some(before) => focus_step(tree, rects, ordered, before, events.last()),
        }
    }
}

fn position_of(ordered: &[WidgetId], id: WidgetId) -> (r: Option<usize>)
    ensures
        match r {
            Some(i) => first_index(ordered@, id, ordered@.len()) == Some(i as int),
            None => first_index(ordered@, id, ordered@.len()).is_none(),
        },
{
    let mut i: usize = 0;
    while i < ordered.len()
        invariant
            i <= ordered@.len(),
            first_index(ordered@, id, i as nat).is_none(),
        decreases ordered@.len() - i,
    {
        if ordered[i] == id {
            proof {
                lemma_first_index_stays(ordered@, id, (i + 1) as nat, ordered@.len());
            }
            return Some(i);
        }
        i = i + 1;
    }
    None
}

proof fn lemma_first_index_stays(ordered: Seq<WidgetId>, id: WidgetId, k: nat, n: nat)
    requires
        k <= n <= ordered.len(),
        first_index(ordered, id, k).is_some(),
    ensures
        first_index(ordered, id, n) == first_index(ordered, id, k),
    decreases n,
{
    if k < n {
        lemma_first_index_stays(ordered, id, k, (n - 1) as nat);
    }
}

fn tab_to(index: usize, len: usize, shift: bool) -> (r: Option<usize>)
    ensures
        match r {
            Some(i) => tab_target(index, len as nat, shift) == Some(i as int) && i < len,
            None => tab_target(index, len as nat, shift).is_none(),
        },
{
    if len == 0 {
        return None;
    }
    match index.checked_add(len) {
        Some(sum) => if shift {
            Some((sum - 1) % len)
        } else {
            Some((index + 1) % len)
        },
        None => None,
    }
}

impl Gui {
    /// A user interface without a tree and without an active component.
    pub fn new() -> (g: Gui)
        ensures
            g.active_component.is_none(),
            g.last_render.is_none(),
    {
        Gui { active_component: None, last_render: None }
    }

    /// The component that is active.
    pub fn active_component_id(&self) -> (r: Option<WidgetId>)
        ensures
            r == (match self.active_component {
                Some((_, id)) => Some(id),
                None => None,
            }),
    {
        match self.active_component {
            Some((_, id)) => Some(id),
            None => None,
        }
    }

    /// The rectangle that the widget `id` was given in the last layout.
    pub fn widget_rect(&self, id: WidgetId) -> (r: Option<Rect>)
        ensures
            r == (match self.last_render {
                Some(rendered) => if rendered.widget_rects@.contains_key(id.raw) {
                    Some(rendered.widget_rects@[id.raw])
                } else {
                    None
                },
                None => None,
            }),
    {
        match &self.last_render {
            Some(rendered) => match map_get(&rendered.widget_rects, id.raw) {
                Some(rect) => Some(*rect),
                None => None,
            },
            None => None,
        }
    }

    /// Lays `widget` out on a surface of the given size and keeps the result
    /// for the handling of events.
    ///
    /// `metrics` holds the widths of the lines of text of the widgets of the
    /// tree. Returns the size of the rectangle of `widget`, or `None` if the
    /// layout cannot be found; the `Gui` then stays as it is.
    pub fn layout(
        &mut self,
        theme: &Theme,
        metrics: &TextMetrics,
        surface_size: crate::gui::event::Extent,
        widget: AnyWidget,
    ) -> (r: Option<GuiResult>)
        ensures
            match layout_of(widget, *theme, metrics@, surface_size) {
                None => r.is_none() && *final(self) == *old(self),
                Some((rects, size)) => {
                    &&& r matches Some(res) && res.rendered_size == size
                    &&& final(self).active_component == old(self).active_component
                    &&& final(self).last_render matches Some(rendered) && rendered.widget
                        == widget && rendered.widget_rects@ == rects
                },
            },
    {
        if surface_size.x > 0x7fff_ffff || surface_size.y > 0x7fff_ffff {
            return None;
        }
        let mut min_sizes: FxHashMap<usize, Vec2> = map_new();
        let mut widget_rects: FxHashMap<usize, Rect> = map_new();
        assert(min_sizes@ =~= Map::empty());
        assert(widget_rects@ =~= Map::empty());
        if !compute_widget_min_size(&widget, theme, metrics, &mut min_sizes) {
            return None;
        }
        let rect = Rect {
            start: Vec2 { x: 0, y: 0 },
            end: Vec2 { x: surface_size.x as i32, y: surface_size.y as i32 },
        };
        if !compute_rects(&widget, rect, theme, &min_sizes, &mut widget_rects) {
            return None;
        }
        let size = match map_get(&widget_rects, widget.id().raw) {
            Some(own) => own.size(),
            None => None,
        };
        match size {
            Some(rendered_size) => {
                self.last_render = Some(RenderedGui { widget, widget_rects });
                Some(GuiResult { rendered_size })
            },
            None => None,
        }
    }

    /// Handles the events, in order, by routing them into the tree that was
    /// laid out last.
    ///
    /// `ordered_components` lists the identifiers of the components in the
    /// order in which the tab key goes through them. Before the first layout
    /// every event is left for the application.
    ///
    /// Returns `None`, and leaves the `Gui` as it is, if an event cannot be
    /// handled.
    pub fn handle_events(&mut self, events: &[Event], ordered_components: &[WidgetId]) -> (r:
        Option<GuiEventResult>)
        ensures
            final(self).last_render == old(self).last_render,
            match old(self).last_render {
                None => {
                    &&& *final(self) == *old(self)
                    &&& r matches Some(res) && res.component_events@ == Map::<
                        usize,
                        Seq<Event>,
                    >::empty() && res.unhandled_events@ == events@
                },
                Some(rendered) => match focus_run(
                    rendered.widget,
                    rendered.widget_rects@,
                    ordered_components@,
                    old(self).start_focus(),
                    events@,
                ) {
                    None => r.is_none() && *final(self) == *old(self),
                    Some(f) => {
                        &&& r matches Some(res) && res.component_events@ == f.queues
                            && res.unhandled_events@ == f.unhandled
                        &&& final(self).active_component == f.stored
                    },
                },
            },
    {
        let mut unhandled: Vec<Event> = Vec::new();
        let mut queues = EventQueues::new();
        let mut stored = self.active_component;
        let mut routing = self.active_component_id();
        let mut i: usize = 0;
        match &self.last_render {
            None => {
                while i < events.len()
                    invariant
                        i <= events@.len(),
                        unhandled@ == events@.subrange(0, i as int),
                    decreases events@.len() - i,
                {
                    unhandled.push(events[i].clone());
                    assert(events@.subrange(0, i + 1) == events@.subrange(0, i as int).push(
                        events@[i as int],
                    ));
                    i = i + 1;
                }
                assert(events@.subrange(0, i as int) == events@);
                return Some(GuiEventResult { component_events: queues, unhandled_events: unhandled });
            },
            Some(rendered) => {
                let ghost start = self.start_focus();
                assert(events@.subrange(0, 0).len() == 0);
                while i < events.len()
                    invariant
                        i <= events@.len(),
                        *self == *old(self),
                        self.last_render == Some(*rendered),
                        start == old(self).start_focus(),
                        focus_run(
                            rendered.widget,
                            rendered.widget_rects@,
                            ordered_components@,
                            start,
                            events@.subrange(0, i as int),
                        ) == Some(
                            Focus { stored, routing, queues: queues@, unhandled: unhandled@ },
                        ),
                    decreases events@.len() - i,
                {
                    let event = &events[i];
                    let ghost before = Focus {
                        stored,
                        routing,
                        queues: queues@,
                        unhandled: unhandled@,
                    };
                    proof {
                        let next = events@.subrange(0, i + 1);
                        assert(next.last() == events@[i as int]);
                        assert(next.drop_last() == events@.subrange(0, i as int));
                    }
                    let was_active = routing;
                    let mut failed = widget_handle_event(
                        &rendered.widget,
                        event,
                        &rendered.widget_rects,
                        &mut queues,
                        &mut routing,
                    ).is_none();
                    if !failed {
                        if let Some(active) = routing {
                            let changed = match was_active {
                                Some(old_active) => old_active != active,
                                None => true,
                            };
                            if changed {
                                match position_of(ordered_components, active) {
                                    Some(place) => {
                                        stored = Some((place, active));
                                    },
                                    None => {
                                        failed = true;
                                    },
                                }
                            }
                        }
                    }
                    let mut moved = false;
                    if !failed {
                        if let Some((place, _)) = stored {
                            if let Event::KeyDown(key) = event {
                                if str_eq(key.code.as_str(), "Tab") {
                                    match tab_to(place, ordered_components.len(), key.shift) {
                                        Some(target) => {
                                            stored = Some((target, ordered_components[target]));
                                            moved = true;
                                        },
                                        None => {
                                            failed = true;
                                        },
                                    }
                                }
                            }
                        }
                    }
                    if failed {
                        proof {
                            assert(focus_step(
                                rendered.widget,
                                rendered.widget_rects@,
                                ordered_components@,
                                before,
                                *event,
                            ).is_none());
                            lemma_focus_run_fails(
                                rendered.widget,
                                rendered.widget_rects@,
                                ordered_components@,
                                start,
                                events@,
                                (i + 1) as int,
                            );
                        }
                        return None;
                    }
                    if !moved {
                        unhandled.push(event.clone());
                    }
                    i = i + 1;
                }
                assert(events@.subrange(0, i as int) == events@);
            },
        }
        self.active_component = stored;
        Some(GuiEventResult { component_events: queues, unhandled_events: unhandled })
    }

    /// The state in which the handling of a batch of events starts.
    pub open spec fn start_focus(&self) -> Focus {
        Focus {
            stored: self.active_component,
            routing: match self.active_component {
                Some((_, id)) => Some(id),
                None => None,
            },
            queues: Map::empty(),
            unhandled: Seq::empty(),
        }
    }
}

/// Once the handling of the first `k` events has failed, the handling of all
/// events fails.
proof fn lemma_focus_run_fails(
    tree: AnyWidget,
    rects: Map<usize, Rect>,
    ordered: Seq<WidgetId>,
    f: Focus,
    events: Seq<Event>,
    k: int,
)
    requires
        0 <= k <= events.len(),
        focus_run(tree, rects, ordered, f, events.subrange(0, k)).is_none(),
    ensures
        focus_run(tree, rects, ordered, f, events).is_none(),
    decreases events.len() - k,
{
    if k < events.len() {
        let next = events.subrange(0, k + 1);
        assert(next.drop_last() == events.subrange(0, k));
        lemma_focus_run_fails(tree, rects, ordered, f, events, k + 1);
    } else {
        assert(events.subrange(0, k) == events);
    }
}

/// Whether every widget of the tree below `w` has its identifier in `ids`.
pub open spec fn covered(w: AnyWidget, ids: Set<usize>) -> bool
    decreases w, 0nat,
{
    &&& ids.contains(w.spec_id().raw)
    &&& match w {
        AnyWidget::Col(c) => all_covered(c.children@, c.children@.len(), ids),
        AnyWidget::Row(c) => all_covered(c.children@, c.children@.len(), ids),
        AnyWidget::Overlap(c) => all_covered(c.children@, c.children@.len(), ids),
        AnyWidget::NoFill(c) => covered(*c.child, ids),
        AnyWidget::Inset(c) => covered(*c.child, ids),
        AnyWidget::Fill(c) => covered(*c.child, ids),
        _ => true,
    }
}

/// Whether every widget of the trees below the first `k` children has its
/// identifier in `ids`.
pub open spec fn all_covered(children: Seq<AnyWidget>, k: nat, ids: Set<usize>) -> bool
    decreases children, k,
{
    if k == 0 || k > children.len() {
        true
    } else {
        all_covered(children, (k - 1) as nat, ids) && covered(children[k - 1], ids)
    }
}

/// A tree that is covered by a set of identifiers is covered by every larger
/// set.
pub proof fn lemma_covered_grows(w: AnyWidget, ids: Set<usize>, more: Set<usize>)
    requires
        covered(w, ids),
        ids.subset_of(more),
    ensures
        covered(w, more),
    decreases w, 0nat,
{
    match w {
        AnyWidget::Col(c) => lemma_all_covered_grows(c.children@, c.children@.len(), ids, more),
        AnyWidget::Row(c) => lemma_all_covered_grows(c.children@, c.children@.len(), ids, more),
        AnyWidget::Overlap(c) => lemma_all_covered_grows(
            c.children@,
            c.children@.len(),
            ids,
            more,
        ),
        AnyWidget::NoFill(c) => lemma_covered_grows(*c.child, ids, more),
        AnyWidget::Inset(c) => lemma_covered_grows(*c.child, ids, more),
        AnyWidget::Fill(c) => lemma_covered_grows(*c.child, ids, more),
        _ => {},
    }
}

/// Children that are covered by a set of identifiers are covered by every
/// larger set.
pub proof fn lemma_all_covered_grows(
    children: Seq<AnyWidget>,
    k: nat,
    ids: Set<usize>,
    more: Set<usize>,
)
    requires
        all_covered(children, k, ids),
        ids.subset_of(more),
    ensures
        all_covered(children, k, more),
    decreases children, k,
{
    if k > 0 && k <= children.len() {
        lemma_all_covered_grows(children, (k - 1) as nat, ids, more);
        lemma_covered_grows(children[k - 1], ids, more);
    }
}

/// The second pass of layout gives every widget of the tree a rectangle, and
/// takes no rectangle away.
pub proof fn lemma_layout_covers(
    w: AnyWidget,
    rect: Rect,
    theme: Theme,
    sizes: Map<usize, Vec2>,
    rects: Map<usize, Rect>,
)
    requires
        rects_after(w, rect, theme, sizes, rects).is_some(),
    ensures
        covered(w, rects_after(w, rect, theme, sizes, rects).unwrap().dom()),
        rects.dom().subset_of(rects_after(w, rect, theme, sizes, rects).unwrap().dom()),
    decreases w, 0nat,
{
    let id = w.spec_id().raw;
    let after = rects_after(w, rect, theme, sizes, rects).unwrap();
    match w {
        AnyWidget::Col(c) => {
            let (flow, own) = flow_of(w, rect, sizes).unwrap();
            lemma_children_layout_covers(
                c.children@,
                c.children@.len(),
                flow,
                c.flex@,
                theme,
                sizes,
                rects.insert(id, own),
            );
        },
        AnyWidget::Row(c) => {
            let (flow, own) = flow_of(w, rect, sizes).unwrap();
            lemma_children_layout_covers(
                c.children@,
                c.children@.len(),
                flow,
                c.flex@,
                theme,
                sizes,
                rects.insert(id, own),
            );
        },
        AnyWidget::Overlap(c) => {
            let (flow, own) = flow_of(w, rect, sizes).unwrap();
            lemma_children_layout_covers(
                c.children@,
                c.children@.len(),
                flow,
                Seq::empty(),
                theme,
                sizes,
                rects.insert(id, own),
            );
        },
        AnyWidget::NoFill(c) => {
            let (own, inner) = single_rects(w, rect, theme, sizes).unwrap();
            lemma_layout_covers(*c.child, inner, theme, sizes, rects.insert(id, own));
        },
        AnyWidget::Inset(c) => {
            let (own, inner) = single_rects(w, rect, theme, sizes).unwrap();
            lemma_layout_covers(*c.child, inner, theme, sizes, rects.insert(id, own));
        },
        AnyWidget::Fill(c) => {
            let (own, inner) = single_rects(w, rect, theme, sizes).unwrap();
            lemma_layout_covers(*c.child, inner, theme, sizes, rects.insert(id, own));
        },
        _ => {},
    }
}

/// The second pass over the first `k` children gives every widget below them
/// a rectangle, and takes no rectangle away.
pub proof fn lemma_children_layout_covers(
    children: Seq<AnyWidget>,
    k: nat,
    flow: Flow,
    flex: Seq<u32>,
    theme: Theme,
    sizes: Map<usize, Vec2>,
    rects: Map<usize, Rect>,
)
    requires
        children_rects_after(children, k, flow, flex, theme, sizes, rects).is_some(),
    ensures
        all_covered(
            children,
            k,
            children_rects_after(children, k, flow, flex, theme, sizes, rects).unwrap().0.dom(),
        ),
        rects.dom().subset_of(
            children_rects_after(children, k, flow, flex, theme, sizes, rects).unwrap().0.dom(),
        ),
    decreases children, k,
{
    if k > 0 && k <= children.len() {
        let (before, pos) = children_rects_after(
            children,
            (k - 1) as nat,
            flow,
            flex,
            theme,
            sizes,
            rects,
        ).unwrap();
        lemma_children_layout_covers(children, (k - 1) as nat, flow, flex, theme, sizes, rects);
        let child = children[k - 1];
        let child_id = child.spec_id().raw;
        let child_min = if sizes.contains_key(child_id) {
            Some(sizes[child_id])
        } else {
            None
        };
        let (child_rect, next) = flow_step(flow, pos, flex_at(flex, k - 1), child_min).unwrap();
        lemma_layout_covers(child, child_rect, theme, sizes, before);
        let after = rects_after(child, child_rect, theme, sizes, before).unwrap();
        lemma_all_covered_grows(children, (k - 1) as nat, before.dom(), after.dom());
    }
}

/// Whether the event says where the mouse is.
pub open spec fn has_position(event: Event) -> bool {
    event is MouseDown || event is MouseUp || event is MouseMove
}

/// In a tree whose widgets all have a rectangle, an event that does not say
/// where the mouse is can always be routed.
pub proof fn lemma_route_finds_rects(
    w: AnyWidget,
    event: Event,
    rects: Map<usize, Rect>,
    queues: Map<usize, Seq<Event>>,
    active: Option<WidgetId>,
)
    requires
        covered(w, rects.dom()),
        !has_position(event),
    ensures
        route(w, event, rects, queues, active).is_some(),
    decreases w, 0nat,
{
    match w {
        AnyWidget::Col(c) => lemma_route_children_finds_rects(
            c.children@,
            c.children@.len(),
            event,
            rects,
            queues,
            active,
        ),
        AnyWidget::Row(c) => lemma_route_children_finds_rects(
            c.children@,
            c.children@.len(),
            event,
            rects,
            queues,
            active,
        ),
        AnyWidget::Overlap(c) => lemma_route_children_finds_rects(
            c.children@,
            c.children@.len(),
            event,
            rects,
            queues,
            active,
        ),
        AnyWidget::NoFill(c) => lemma_route_finds_rects(*c.child, event, rects, queues, active),
        AnyWidget::Inset(c) => lemma_route_finds_rects(*c.child, event, rects, queues, active),
        AnyWidget::Fill(c) => lemma_route_finds_rects(*c.child, event, rects, queues, active),
        _ => {},
    }
}

/// Among children whose widgets all have a rectangle, an event that does not
/// say where the mouse is can always be routed.
pub proof fn lemma_route_children_finds_rects(
    children: Seq<AnyWidget>,
    k: nat,
    event: Event,
    rects: Map<usize, Rect>,
    queues: Map<usize, Seq<Event>>,
    active: Option<WidgetId>,
)
    requires
        all_covered(children, k, rects.dom()),
        !has_position(event),
    ensures
        route_children(children, k, event, rects, queues, active).is_some(),
    decreases children, k,
{
    if k > 0 && k <= children.len() {
        lemma_route_children_finds_rects(children, (k - 1) as nat, event, rects, queues, active);
        let before = route_children(children, (k - 1) as nat, event, rects, queues, active).unwrap();
        if !before.handled {
            lemma_route_finds_rects(children[k - 1], event, rects, before.queues, before.active);
        }
    }
}

/// The sum of the shares of the first `k` children in the extra space of a
/// flow.
pub open spec fn share_sum(extra: int, flex: Seq<u32>, divisor: int, k: nat) -> int
    decreases k,
{
    if k == 0 {
        0
    } else {
        share_sum(extra, flex, divisor, (k - 1) as nat) + crate::geom::trunc_div(
            extra * flex_at(flex, k - 1),
            divisor,
        )
    }
}

proof fn lemma_share_sum_bound(extra: int, flex: Seq<u32>, divisor: int, k: nat)
    requires
        extra >= 0,
        divisor > 0,
    ensures
        0 <= share_sum(extra, flex, divisor, k),
        share_sum(extra, flex, divisor, k) * divisor <= extra * flex_sum(flex, k),
    decreases k,
{
    if k > 0 {
        lemma_share_sum_bound(extra, flex, divisor, (k - 1) as nat);
        let weight = flex_at(flex, k - 1);
        let before = share_sum(extra, flex, divisor, (k - 1) as nat);
        let sum_before = flex_sum(flex, (k - 1) as nat);
        let product = extra * weight;
        assert(product >= 0) by (nonlinear_arith)
            requires
                product == extra * weight,
                extra >= 0,
                weight >= 0,
        ;
        let share = crate::geom::trunc_div(product, divisor);
        assert(share == product / divisor);
        assert(0 <= share && share * divisor <= product) by (nonlinear_arith)
            requires
                share == product / divisor,
                product >= 0,
                divisor > 0,
        ;
        assert((before + share) * divisor <= extra * (sum_before + weight)) by (nonlinear_arith)
            requires
                before * divisor <= extra * sum_before,
                share * divisor <= product,
                product == extra * weight,
        ;
    } else {
        assert(0 * divisor == 0 && extra * 0 == 0) by (nonlinear_arith);
    }
}

/// Where a column or a row has space left over and shares it out by the
/// weights of its children, the shares together take no more than the space
/// that is left over.
pub proof fn lemma_shares_fit(extra: int, flex: Seq<u32>, n: nat)
    requires
        extra >= 0,
        flex_sum(flex, n) > 0,
    ensures
        0 <= share_sum(extra, flex, flex_sum(flex, n), n) <= extra,
{
    let total = flex_sum(flex, n);
    let shares = share_sum(extra, flex, total, n);
    lemma_share_sum_bound(extra, flex, total, n);
    assert(shares <= extra) by (nonlinear_arith)
        requires
            shares * total <= extra * total,
            total > 0,
    ;
}

/// After a layout, an event that does not say where the mouse is can always
/// be routed into the tree that was laid out.
pub proof fn lemma_laid_out_tree_routes(
    widget: AnyWidget,
    theme: Theme,
    metrics: Map<usize, Seq<i32>>,
    surface_size: crate::gui::event::Extent,
    event: Event,
    queues: Map<usize, Seq<Event>>,
    active: Option<WidgetId>,
)
    requires
        layout_of(widget, theme, metrics, surface_size).is_some(),
        !has_position(event),
    ensures
        route(
            widget,
            event,
            layout_of(widget, theme, metrics, surface_size).unwrap().0,
            queues,
            active,
        ).is_some(),
{
    let sizes = sizes_after(widget, theme, metrics, Map::empty()).unwrap();
    let area = Rect {
        start: Vec2 { x: 0, y: 0 },
        end: Vec2 { x: surface_size.x as i32, y: surface_size.y as i32 },
    };
    lemma_layout_covers(widget, area, theme, sizes, Map::empty());
    let rects = rects_after(widget, area, theme, sizes, Map::empty()).unwrap();
    lemma_route_finds_rects(widget, event, rects, queues, active);
}

} // verus!

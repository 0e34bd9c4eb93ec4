//! The widgets of the toolkit and what they do with the events they are
//! given.

use crate::geom::{trunc_div, Vec2};
use crate::gui::color::Color4;
use crate::gui::event::{Event, MouseButton};
use crate::gui::gui::Theme;
use crate::ids::WidgetId;
use crate::strings::{join_lines, split_lines, str_eq, string_insert, string_remove, views};
use vstd::prelude::*;
use vstd::string::*;
use vstd::utf8::is_ascii_chars;

verus! {

/// Something that takes a place in the widget tree.
pub trait Widget {
    /// The identifier of the widget.
    spec fn spec_id(&self) -> WidgetId;

    /// Whether the widget is the root of a component.
    spec fn spec_is_component(&self) -> bool;

    /// The identifier of the widget. No two widgets of a tree share one.
    fn id(&self) -> (r: WidgetId)
        ensures
            r == self.spec_id(),
    ;

    /// Whether the widget is the root of a component, which events are routed
    /// to.
    fn is_component(&self) -> (r: bool)
        ensures
            r == self.spec_is_component(),
    ;
}

/// A widget that keeps state between frames and takes input.
pub trait Component: Widget + Sized {
    /// What an update reports back to the application.
    type Res;

    /// Whether the component can take the events in its present state.
    spec fn accepts_spec(&self, theme: Theme, events: Seq<Event>) -> bool;

    /// Whether an update with the events may leave the component as `after`
    /// and report `res`.
    spec fn update_spec(&self, theme: Theme, events: Seq<Event>, after: Self, res: Self::Res) -> bool;

    /// Whether the component can take the events in its present state.
    fn accepts(&self, theme: &Theme, events: &Vec<Event>) -> (r: bool)
        ensures
            r == self.accepts_spec(*theme, events@),
    ;

    /// Takes the events in, in order, and reports what came of them.
    fn update(&mut self, theme: &Theme, events: Vec<Event>) -> (res: Self::Res)
        requires
            old(self).accepts_spec(*theme, events@),
        ensures
            old(self).update_spec(*theme, events@, *final(self), res),
    ;
}

/// A line of text.
pub struct Label {
    pub id: WidgetId,
    pub text: String,
}

impl Label {
    /// A label with a fresh identifier.
    pub fn new(text: &str) -> (w: Label)
        ensures
            w.text@ == text@,
    {
        Label { id: WidgetId::new(), text: text.to_owned() }
    }
}

impl Widget for Label {
    open spec fn spec_id(&self) -> WidgetId {
        self.id
    }

    open spec fn spec_is_component(&self) -> bool {
        false
    }

    fn id(&self) -> (r: WidgetId) {
        self.id
    }

    fn is_component(&self) -> (r: bool) {
        false
    }
}

/// What an update of a `Button` reports.
pub struct ButtonResult {
    pub pressed: bool,
}

impl ButtonResult {
    /// Whether the button was pressed.
    pub fn pressed(&self) -> (r: bool)
        ensures
            r == self.pressed,
    {
        self.pressed
    }
}

/// A button with a caption.
pub struct Button {
    pub id: WidgetId,
    pub text: String,
}

impl Clone for Button {
    fn clone(&self) -> (r: Button)
        ensures
            r == *self,
    {
        Button { id: self.id, text: self.text.clone() }
    }
}

/// Whether the event presses a button that it reaches: a press of the left
/// mouse button, or of the key named `Enter` or `space`.
pub open spec fn presses_button(event: Event) -> bool {
    match event {
        Event::MouseDown(MouseButton::Left, _) => true,
        Event::KeyDown(key) => key.code@ == "Enter"@ || key.code@ == "space"@,
        _ => false,
    }
}

impl Button {
    /// A button with a fresh identifier.
    pub fn new(text: &str) -> (w: Button)
        ensures
            w.text@ == text@,
    {
        Button { id: WidgetId::new(), text: text.to_owned() }
    }

    /// Replaces the caption.
    pub fn set_text(&mut self, text: &str)
        ensures
            final(self).text@ == text@,
            final(self).id == old(self).id,
    {
        self.text = text.to_owned();
    }
}

impl Widget for Button {
    open spec fn spec_id(&self) -> WidgetId {
        self.id
    }

    open spec fn spec_is_component(&self) -> bool {
        true
    }

    fn id(&self) -> (r: WidgetId) {
        self.id
    }

    fn is_component(&self) -> (r: bool) {
        true
    }
}

impl Component for Button {
    type Res = ButtonResult;

    open spec fn accepts_spec(&self, theme: Theme, events: Seq<Event>) -> bool {
        true
    }

    /// The button stays as it is, and it was pressed if one of the events
    /// presses it.
    open spec fn update_spec(
        &self,
        theme: Theme,
        events: Seq<Event>,
        after: Button,
        res: ButtonResult,
    ) -> bool {
        &&& after == *self
        &&& res.pressed == exists|i: int| 0 <= i < events.len() && presses_button(events[i])
    }

    fn accepts(&self, theme: &Theme, events: &Vec<Event>) -> (r: bool) {
        true
    }

    fn update(&mut self, theme: &Theme, events: Vec<Event>) -> (res: ButtonResult) {
        let mut pressed = false;
        let mut i: usize = 0;
        while i < events.len() && !pressed
            invariant
                i <= events@.len(),
                pressed == exists|j: int| 0 <= j < i && presses_button(events@[j]),
            decreases events@.len() - i,
        {
            match &events[i] {
                Event::MouseDown(MouseButton::Left, _) => {
                    pressed = true;
                },
                Event::KeyDown(key) => {
                    if str_eq(key.code.as_str(), "Enter") || str_eq(key.code.as_str(), "space") {
                        pressed = true;
                    }
                },
                _ => {},
            }
            i = i + 1;
        }
        ButtonResult { pressed }
    }
}

/// A block of text. It is shown as the lines between the line feeds of its
/// text.
pub struct TextBox {
    pub text: String,
    pub lines: Vec<String>,
    pub text_color: Color4,
    pub id: WidgetId,
}

impl TextBox {
    /// A text box with black text and a fresh identifier.
    pub fn new(text: &str) -> (w: TextBox)
        ensures
            w.text@ == text@,
            w.text_color == Color4::black(),
            w.lines@.len() >= 1,
            forall|i: int| 0 <= i < w.lines@.len() ==> !w.lines@[i]@.contains('\n'),
            join_lines(views(w.lines@)) == text@,
    {
        TextBox {
            text: text.to_owned(),
            lines: split_lines(text),
            text_color: Color4::black(),
            id: WidgetId::new(),
        }
    }

    /// The same text box with another colour of the text.
    pub fn text_color(self, color: Color4) -> (w: TextBox)
        ensures
            w.text_color == color,
            w.text == self.text,
            w.lines == self.lines,
            w.id == self.id,
    {
        TextBox { text: self.text, lines: self.lines, text_color: color, id: self.id }
    }
}

impl Widget for TextBox {
    open spec fn spec_id(&self) -> WidgetId {
        self.id
    }

    open spec fn spec_is_component(&self) -> bool {
        false
    }

    fn id(&self) -> (r: WidgetId) {
        self.id
    }

    fn is_component(&self) -> (r: bool) {
        false
    }
}

/// A log of coloured lines that keeps only the newest ones.
pub struct MessageBox {
    pub lines: Vec<(String, Color4)>,
    pub max_lines: usize,
    pub id: WidgetId,
}

impl MessageBox {
    /// An empty log that keeps up to `max_lines` lines, with a fresh
    /// identifier.
    pub fn new(max_lines: usize) -> (w: MessageBox)
        ensures
            w.lines@.len() == 0,
            w.max_lines == max_lines,
    {
        MessageBox { lines: Vec::new(), max_lines, id: WidgetId::new() }
    }

    /// Adds a line at the end. If the log then holds more lines than it
    /// keeps, the oldest line is dropped.
    pub fn add_line(&mut self, color: Color4, line: String)
        ensures
            final(self).lines@ == (if old(self).lines@.len() + 1 > old(self).max_lines {
                old(self).lines@.push((line, color)).drop_first()
            } else {
                old(self).lines@.push((line, color))
            }),
            final(self).max_lines == old(self).max_lines,
            final(self).id == old(self).id,
            old(self).lines@.len() <= old(self).max_lines ==> final(self).lines@.len()
                <= old(self).max_lines,
    {
        self.lines.push((line, color));
        if self.lines.len() > self.max_lines {
            let ghost pushed = self.lines@;
            self.lines.remove(0);
            assert(self.lines@ =~= pushed.drop_first());
        }
    }
}

impl Widget for MessageBox {
    open spec fn spec_id(&self) -> WidgetId {
        self.id
    }

    open spec fn spec_is_component(&self) -> bool {
        false
    }

    fn id(&self) -> (r: WidgetId) {
        self.id
    }

    fn is_component(&self) -> (r: bool) {
        false
    }
}

/// A widget without content that asks for a given size.
#[derive(Clone, Copy)]
pub struct EmptyWidget {
    pub id: WidgetId,
    pub size: Vec2,
}

impl EmptyWidget {
    /// An empty widget that asks for no space, with a fresh identifier.
    pub fn new() -> (w: EmptyWidget)
        ensures
            w.size == (Vec2 { x: 0, y: 0 }),
    {
        EmptyWidget::with_size(Vec2::zero())
    }

    /// An empty widget that asks for `size`, with a fresh identifier.
    pub fn with_size(size: Vec2) -> (w: EmptyWidget)
        ensures
            w.size == size,
    {
        EmptyWidget { id: WidgetId::new(), size }
    }
}

impl Widget for EmptyWidget {
    open spec fn spec_id(&self) -> WidgetId {
        self.id
    }

    open spec fn spec_is_component(&self) -> bool {
        false
    }

    fn id(&self) -> (r: WidgetId) {
        self.id
    }

    fn is_component(&self) -> (r: bool) {
        false
    }
}

/// A square of free space whose side is the padding of the theme.
pub struct Padding {
    pub id: WidgetId,
}

impl Padding {
    /// A padding with a fresh identifier.
    pub fn new() -> Padding {
        Padding { id: WidgetId::new() }
    }
}

impl Widget for Padding {
    open spec fn spec_id(&self) -> WidgetId {
        self.id
    }

    open spec fn spec_is_component(&self) -> bool {
        false
    }

    fn id(&self) -> (r: WidgetId) {
        self.id
    }

    fn is_component(&self) -> (r: bool) {
        false
    }
}

/// A list of options, shown one below the other, of which the user picks
/// one by a click.
pub struct Selector<T: Copy> {
    pub options: Vec<(String, T)>,
    pub selected_option: Option<usize>,
    pub id: WidgetId,
}

/// What an update of a `Selector` reports.
pub struct SelectorResult<T: Copy> {
    /// The option that is selected after the update.
    pub selected: Option<(String, T)>,
    /// Whether an option was picked during the update.
    pub just_selected: bool,
}

/// The option that a press of the left mouse button picks: the one in whose
/// line the press lies. `None` for any other event.
pub open spec fn picked_option(theme: Theme, event: Event) -> Option<int> {
    match event {
        Event::MouseDown(MouseButton::Left, pos) => Some(
            trunc_div(pos.y as int, theme.advance_y as int),
        ),
        _ => None,
    }
}

/// The selection after the events, starting from `selected`: the option that
/// the last pick among the events picked, if there is one.
pub open spec fn selection_after(selected: Option<usize>, theme: Theme, events: Seq<Event>) -> Option<
    usize,
>
    decreases events.len(),
{
    if events.len() == 0 {
        selected
    } else {
        match picked_option(theme, events.last()) {
            Some(entry) => Some(entry as usize),
            None => selection_after(selected, theme, events.drop_last()),
        }
    }
}

impl<T: Copy> Selector<T> {
    /// Whether the selection, if there is one, is one of the options.
    pub open spec fn wf(&self) -> bool {
        self.selected_option matches Some(i) ==> i < self.options@.len()
    }

    /// A selector with a fresh identifier. A selection must be one of the
    /// options.
    pub fn new(options: Vec<(String, T)>, selected_option: Option<usize>) -> (w: Selector<T>)
        requires
            selected_option matches Some(i) ==> i < options@.len(),
        ensures
            w.options == options,
            w.selected_option == selected_option,
            w.wf(),
    {
        Selector { selected_option, options, id: WidgetId::new() }
    }

    /// The value of the selected option.
    pub fn selected_option(&self) -> (r: Option<T>)
        requires
            self.wf(),
        ensures
            r == (match self.selected_option {
                Some(i) => Some(self.options@[i as int].1),
                None => None,
            }),
    {
        match self.selected_option {
            Some(i) => Some(self.options[i].1),
            None => None,
        }
    }

    /// Adds an option after the others.
    pub fn add_option(&mut self, option: (String, T))
        ensures
            final(self).options@ == old(self).options@.push(option),
            final(self).selected_option == old(self).selected_option,
            final(self).id == old(self).id,
            old(self).wf() ==> final(self).wf(),
    {
        self.options.push(option);
    }

    /// Removes the option at `i`. Was it selected, nothing is selected
    /// afterwards; otherwise the selected option stays selected.
    pub fn remove_option(&mut self, i: usize)
        requires
            i < old(self).options@.len(),
            old(self).wf(),
        ensures
            final(self).options@ == old(self).options@.remove(i as int),
            final(self).selected_option == (match old(self).selected_option {
                Some(s) => if s == i {
                    None
                } else if s > i {
                    Some((s - 1) as usize)
                } else {
                    Some(s)
                },
                None => None,
            }),
            final(self).id == old(self).id,
            final(self).wf(),
    {
        self.options.remove(i);
        if let Some(selected) = self.selected_option {
            if selected == i {
                self.selected_option = None;
            } else if selected > i {
                self.selected_option = Some(selected - 1);
            }
        }
    }

    /// Whether a press of the left mouse button at height `y` lies in the
    /// line of an option.
    pub open spec fn hits_option(&self, theme: Theme, y: i32) -> bool {
        &&& theme.advance_y != 0
        &&& 0 <= trunc_div(y as int, theme.advance_y as int) < self.options@.len()
    }

    fn option_at(&self, theme: &Theme, y: i32) -> (r: Option<usize>)
        ensures
            r.is_some() == self.hits_option(*theme, y),
            r matches Some(entry) ==> entry == trunc_div(y as int, theme.advance_y as int),
    {
        if theme.advance_y == 0 {
            return None;
        }
        let entry = crate::geom::div_towards_zero(y as i64, theme.advance_y as i64);
        if entry >= 0 && (entry as u64) < (self.options.len() as u64) {
            Some(entry as usize)
        } else {
            None
        }
    }
}

impl<T: Copy> Widget for Selector<T> {
    open spec fn spec_id(&self) -> WidgetId {
        self.id
    }

    open spec fn spec_is_component(&self) -> bool {
        true
    }

    fn id(&self) -> (r: WidgetId) {
        self.id
    }

    fn is_component(&self) -> (r: bool) {
        true
    }
}

impl<T: Copy> Component for Selector<T> {
    type Res = SelectorResult<T>;

    /// Every press of the left mouse button among the events lies in the
    /// line of an option.
    open spec fn accepts_spec(&self, theme: Theme, events: Seq<Event>) -> bool {
        &&& self.wf()
        &&& forall|i: int|
            0 <= i < events.len() ==> (#[trigger] events[i] matches Event::MouseDown(
                MouseButton::Left,
                pos,
            ) ==> self.hits_option(theme, pos.y))
    }

    /// The options stay as they are. The last pick among the events decides
    /// the selection, which is reported together with whether there was a
    /// pick.
    open spec fn update_spec(
        &self,
        theme: Theme,
        events: Seq<Event>,
        after: Selector<T>,
        res: SelectorResult<T>,
    ) -> bool {
        &&& after.options == self.options
        &&& after.id == self.id
        &&& after.selected_option == selection_after(self.selected_option, theme, events)
        &&& after.wf()
        &&& res.selected == (match after.selected_option {
            Some(i) => Some(self.options@[i as int]),
            None => None,
        })
        &&& res.just_selected == exists|i: int|
            0 <= i < events.len() && picked_option(theme, events[i]).is_some()
    }

    fn accepts(&self, theme: &Theme, events: &Vec<Event>) -> (r: bool) {
        if let Some(selected) = self.selected_option {
            if selected >= self.options.len() {
                return false;
            }
        }
        let mut i: usize = 0;
        while i < events.len()
            invariant
                i <= events@.len(),
                forall|j: int|
                    0 <= j < i ==> (#[trigger] events@[j] matches Event::MouseDown(
                        MouseButton::Left,
                        pos,
                    ) ==> self.hits_option(*theme, pos.y)),
            decreases events@.len() - i,
        {
            if let Event::MouseDown(MouseButton::Left, pos) = &events[i] {
                if self.option_at(theme, pos.y).is_none() {
                    return false;
                }
            }
            i = i + 1;
        }
        true
    }

    fn update(&mut self, theme: &Theme, events: Vec<Event>) -> (res: SelectorResult<T>) {
        let mut just_selected = false;
        let mut i: usize = 0;
        assert(events@.subrange(0, 0).len() == 0);
        while i < events.len()
            invariant
                i <= events@.len(),
                old(self).accepts_spec(*theme, events@),
                self.options == old(self).options,
                self.id == old(self).id,
                self.wf(),
                self.selected_option == selection_after(
                    old(self).selected_option,
                    *theme,
                    events@.subrange(0, i as int),
                ),
                just_selected == exists|j: int|
                    0 <= j < i && picked_option(*theme, events@[j]).is_some(),
            decreases events@.len() - i,
        {
            proof {
                let next = events@.subrange(0, i + 1);
                assert(next.last() == events@[i as int]);
                assert(next.drop_last() == events@.subrange(0, i as int));
            }
            if let Event::MouseDown(MouseButton::Left, pos) = &events[i] {
                assert(old(self).hits_option(*theme, pos.y));
                let entry = self.option_at(theme, pos.y);
                self.selected_option = entry;
                just_selected = true;
            }
            i = i + 1;
        }
        assert(events@.subrange(0, i as int) == events@);
        let selected = match self.selected_option {
            Some(i) => Some((self.options[i].0.clone(), self.options[i].1)),
            None => None,
        };
        SelectorResult { selected, just_selected }
    }
}

/// What the user can do to a text entry.
#[derive(Copy, Clone, Debug, PartialEq, Eq, Structural)]
pub enum TextEntryEvent {
    AddChar(char),
    Backspace,
    CaretLeft,
    CaretRight,
    EnterPressed,
}

/// What an update of a `TextEntry` reports.
pub struct TextEntryResult {
    /// The text that was entered, if the update completed an entry.
    pub text: Option<String>,
}

impl TextEntryResult {
    /// The text that was entered, if the update completed an entry.
    pub fn text(&self) -> (r: Option<&str>)
        ensures
            r.is_some() == self.text.is_some(),
            r matches Some(t) ==> t@ == self.text.unwrap()@,
    {
        match &self.text {
            Some(t) => Some(t.as_str()),
            None => None,
        }
    }
}

/// A line of text that the user edits. All of its text is ASCII.
pub struct TextEntry {
    pub id: WidgetId,
    pub text: String,
    pub placeholder_text: String,
    pub text_color: Color4,
    /// The number of characters before the caret.
    pub caret_pos: i32,
    /// The length up to which characters are taken in.
    pub max_len: usize,
    pub use_placeholder_text_if_empty: bool,
    pub continuous_updates: bool,
}

/// The part of a `TextEntry` that events change, and the text that the
/// events have completed so far.
pub ghost struct EntryState {
    pub text: Seq<char>,
    pub caret: int,
    pub entered: Option<Seq<char>>,
}

impl Clone for TextEntry {
    fn clone(&self) -> (r: TextEntry)
        ensures
            r == *self,
    {
        TextEntry {
            id: self.id,
            text: self.text.clone(),
            placeholder_text: self.placeholder_text.clone(),
            text_color: self.text_color,
            caret_pos: self.caret_pos,
            max_len: self.max_len,
            use_placeholder_text_if_empty: self.use_placeholder_text_if_empty,
            continuous_updates: self.continuous_updates,
        }
    }
}

impl TextEntry {
    /// Whether the text is ASCII and short enough to be counted in an `i32`,
    /// and the caret lies within it.
    pub open spec fn wf(&self) -> bool {
        &&& is_ascii_chars(self.text@)
        &&& self.text@.len() < i32::MAX
        &&& 0 <= self.caret_pos <= self.text@.len()
    }

    /// The text that counts as entered: the placeholder in place of an empty
    /// text, where the entry is set up so, else the text.
    pub open spec fn entered_text(&self, text: Seq<char>) -> Seq<char> {
        if text.len() == 0 && self.use_placeholder_text_if_empty {
            self.placeholder_text@
        } else {
            text
        }
    }

    /// The state after one event.
    ///
    /// `Backspace` removes the character before the caret. `ArrowLeft` and
    /// `ArrowRight` move the caret by one character within the text. `Enter`
    /// completes the entry: the entered text is reported, the caret goes to
    /// the start, and the text is cleared unless it is reported continuously
    /// or the placeholder stood in for it. A character is put in at the caret
    /// while the text is shorter than the limit.
    pub open spec fn step(&self, st: EntryState, event: Event) -> EntryState {
        match event {
            Event::KeyDown(key) => {
                if key.code@ == "Backspace"@ {
                    if st.caret > 0 {
                        EntryState { text: st.text.remove(st.caret - 1), caret: st.caret - 1, ..st }
                    } else {
                        st
                    }
                } else if key.code@ == "ArrowLeft"@ {
                    EntryState { caret: if st.caret - 1 > 0 { st.caret - 1 } else { 0 }, ..st }
                } else if key.code@ == "ArrowRight"@ {
                    EntryState {
                        caret: if st.caret + 1 < st.text.len() {
                            st.caret + 1
                        } else {
                            st.text.len() as int
                        },
                        ..st
                    }
                } else if key.code@ == "Enter"@ {
                    EntryState {
                        text: if (st.text.len() == 0 && self.use_placeholder_text_if_empty)
                            || self.continuous_updates {
                            st.text
                        } else {
                            Seq::empty()
                        },
                        caret: 0,
                        entered: Some(self.entered_text(st.text)),
                    }
                } else {
                    st
                }
            },
            Event::CharEntered(c) => {
                if st.text.len() < self.max_len {
                    EntryState { text: st.text.insert(st.caret, c), caret: st.caret + 1, ..st }
                } else {
                    st
                }
            },
            _ => st,
        }
    }

    /// The state after the events, taken in order.
    pub open spec fn run(&self, st: EntryState, events: Seq<Event>) -> EntryState
        decreases events.len(),
    {
        if events.len() == 0 {
            st
        } else {
            self.step(self.run(st, events.drop_last()), events.last())
        }
    }

    /// A text entry with black text, the caret at the start, and a fresh
    /// identifier. The placeholder must not be longer than `max_len` bytes.
    ///
    /// With `continuous_updates` every update reports the text, and `Enter`
    /// does not clear it.
    pub fn new(
        start_text: &str,
        placeholder_text: &str,
        use_placeholder_text_if_empty: bool,
        max_len: usize,
        continuous_updates: bool,
    ) -> (w: TextEntry)
        requires
            placeholder_text.len() <= max_len,
        ensures
            w.text@ == start_text@,
            w.placeholder_text@ == placeholder_text@,
            w.text_color == Color4::black(),
            w.caret_pos == 0,
            w.max_len == max_len,
            w.use_placeholder_text_if_empty == use_placeholder_text_if_empty,
            w.continuous_updates == continuous_updates,
            is_ascii_chars(start_text@) && start_text@.len() < i32::MAX ==> w.wf(),
    {
        TextEntry {
            id: WidgetId::new(),
            text: start_text.to_owned(),
            placeholder_text: placeholder_text.to_owned(),
            text_color: Color4::black(),
            caret_pos: 0,
            max_len,
            use_placeholder_text_if_empty,
            continuous_updates,
        }
    }

    /// The same text entry with another colour of the text.
    pub fn text_color(self, color: Color4) -> (w: TextEntry)
        ensures
            w == (TextEntry { text_color: color, ..self }),
    {
        let mut w = self;
        w.text_color = color;
        w
    }

    /// The text that is shown: the placeholder in place of an empty text.
    pub fn drawn_text(&self) -> (r: &str)
        ensures
            r@ == (if self.text@.len() == 0 {
                self.placeholder_text@
            } else {
                self.text@
            }),
    {
        if self.text.as_str().is_empty() {
            self.placeholder_text.as_str()
        } else {
            self.text.as_str()
        }
    }

    /// The text that counts as entered at present.
    pub fn cur_text(&self) -> (r: &str)
        ensures
            r@ == self.entered_text(self.text@),
    {
        if self.text.as_str().is_empty() && self.use_placeholder_text_if_empty {
            self.placeholder_text.as_str()
        } else {
            self.text.as_str()
        }
    }

    /// Returns the text that counts as entered, and clears the text unless
    /// it is reported continuously or the placeholder stood in for it.
    fn take_cur_text(&mut self) -> (r: String)
        ensures
            r@ == old(self).entered_text(old(self).text@),
            final(self).text@ == (if (old(self).text@.len() == 0 && old(
                self,
            ).use_placeholder_text_if_empty) || old(self).continuous_updates {
                old(self).text@
            } else {
                Seq::empty()
            }),
            *final(self) == (TextEntry { text: final(self).text, ..*old(self) }),
    {
        if self.text.as_str().is_empty() && self.use_placeholder_text_if_empty {
            self.placeholder_text.clone()
        } else if self.continuous_updates {
            self.text.clone()
        } else {
            let mut taken = String::new();
            std::mem::swap(&mut self.text, &mut taken);
            taken
        }
    }

    /// The part of the entry that events change.
    pub open spec fn state(&self) -> EntryState {
        EntryState { text: self.text@, caret: self.caret_pos as int, entered: None }
    }
}

impl Widget for TextEntry {
    open spec fn spec_id(&self) -> WidgetId {
        self.id
    }

    open spec fn spec_is_component(&self) -> bool {
        true
    }

    fn id(&self) -> (r: WidgetId) {
        self.id
    }

    fn is_component(&self) -> (r: bool) {
        true
    }
}

impl Component for TextEntry {
    type Res = TextEntryResult;

    /// The entry is well formed, every character among the events is ASCII,
    /// and the text cannot grow beyond what an `i32` counts.
    open spec fn accepts_spec(&self, theme: Theme, events: Seq<Event>) -> bool {
        &&& self.wf()
        &&& self.text@.len() + events.len() < i32::MAX
        &&& forall|i: int|
            0 <= i < events.len() ==> (#[trigger] events[i] matches Event::CharEntered(c) ==> c
                <= '\u{7f}')
    }

    /// Text and caret are what the events make of them, everything else
    /// stays. The report is the text that the last `Enter` completed or,
    /// with continuous updates, the text that counts as entered afterwards.
    open spec fn update_spec(
        &self,
        theme: Theme,
        events: Seq<Event>,
        after: TextEntry,
        res: TextEntryResult,
    ) -> bool {
        let st = self.run(self.state(), events);
        &&& after.text@ == st.text
        &&& after.caret_pos == st.caret
        &&& after == (TextEntry { text: after.text, caret_pos: after.caret_pos, ..*self })
        &&& after.wf()
        &&& match res.text {
            Some(t) => Some(t@),
            None => None,
        } == (if self.continuous_updates {
            Some(self.entered_text(st.text))
        } else {
            st.entered
        })
    }

    fn accepts(&self, theme: &Theme, events: &Vec<Event>) -> (r: bool) {
        let text = self.text.as_str();
        if !text.is_ascii() {
            return false;
        }
        let len = text.unicode_len();
        if len >= 0x7fff_ffff || self.caret_pos < 0 || self.caret_pos as usize > len {
            return false;
        }
        if events.len() >= 0x7fff_ffff - len {
            return false;
        }
        let mut i: usize = 0;
        while i < events.len()
            invariant
                i <= events@.len(),
                forall|j: int|
                    0 <= j < i ==> (#[trigger] events@[j] matches Event::CharEntered(c) ==> c
                        <= '\u{7f}'),
            decreases events@.len() - i,
        {
            if let Event::CharEntered(c) = &events[i] {
                if *c > '\u{7f}' {
                    return false;
                }
            }
            i = i + 1;
        }
        true
    }

    fn update(&mut self, theme: &Theme, events: Vec<Event>) -> (res: TextEntryResult) {
        let mut res: Option<String> = None;
        let mut i: usize = 0;
        let ghost start = old(self).state();
        assert(events@.subrange(0, 0).len() == 0);
        while i < events.len()
            invariant
                i <= events@.len(),
                old(self).accepts_spec(*theme, events@),
                start == old(self).state(),
                *self == (TextEntry { text: self.text, caret_pos: self.caret_pos, ..*old(self) }),
                self.wf(),
                self.text@.len() + (events@.len() - i) < i32::MAX,
                self.text@ == old(self).run(start, events@.subrange(0, i as int)).text,
                self.caret_pos == old(self).run(start, events@.subrange(0, i as int)).caret,
                match res {
                    Some(t) => Some(t@),
                    None => None,
                } == old(self).run(start, events@.subrange(0, i as int)).entered,
            decreases events@.len() - i,
        {
            let text = self.text.as_str();
            let len = text.len();
            proof {
                is_ascii_spec_bytes(text);
                let next = events@.subrange(0, i + 1);
                assert(next.last() == events@[i as int]);
                assert(next.drop_last() == events@.subrange(0, i as int));
            }
            assert(len == self.text@.len());
            match &events[i] {
                Event::KeyDown(key) => {
                    let code = key.code.as_str();
                    if str_eq(code, "Backspace") {
                        if self.caret_pos > 0 {
                            string_remove(&mut self.text, (self.caret_pos - 1) as usize);
                            self.caret_pos = self.caret_pos - 1;
                        }
                    } else if str_eq(code, "ArrowLeft") {
                        self.caret_pos = if self.caret_pos - 1 > 0 {
                            self.caret_pos - 1
                        } else {
                            0
                        };
                    } else if str_eq(code, "ArrowRight") {
                        self.caret_pos = if self.caret_pos + 1 < len as i32 {
                            self.caret_pos + 1
                        } else {
                            len as i32
                        };
                    } else if str_eq(code, "Enter") {
                        res = Some(self.take_cur_text());
                        self.caret_pos = 0;
                    }
                },
                Event::CharEntered(c) => {
                    if len < self.max_len {
                        string_insert(&mut self.text, self.caret_pos as usize, *c);
                        self.caret_pos = self.caret_pos + 1;
                    }
                },
                _ => {},
            }
            i = i + 1;
        }
        assert(events@.subrange(0, i as int) == events@);
        if self.continuous_updates {
            res = Some(self.cur_text().to_owned());
        }
        TextEntryResult { text: res }
    }
}

/// Gives its child the least size that the child needs, in place of all the
/// space that is there.
pub struct NoFill {
    pub id: WidgetId,
    pub child: Box<AnyWidget>,
}

impl NoFill {
    /// Around `child`, with a fresh identifier.
    pub fn new(child: AnyWidget) -> (w: NoFill)
        ensures
            *w.child == child,
    {
        NoFill { id: WidgetId::new(), child: Box::new(child) }
    }
}

impl Widget for NoFill {
    open spec fn spec_id(&self) -> WidgetId {
        self.id
    }

    open spec fn spec_is_component(&self) -> bool {
        false
    }

    fn id(&self) -> (r: WidgetId) {
        self.id
    }

    fn is_component(&self) -> (r: bool) {
        false
    }
}

/// Lays its children out one below the other.
///
/// Each child has a weight. Space that is left over along the vertical axis is
/// shared out among the children in proportion to their weights.
pub struct Col {
    pub id: WidgetId,
    pub children: Vec<AnyWidget>,
    /// The weight of each child, in the order of the children. A child
    /// without an entry has the weight zero.
    pub flex: Vec<u32>,
}

impl Col {
    /// Without children, with a fresh identifier.
    pub fn new() -> (w: Col)
        ensures
            w.children@.len() == 0,
            w.flex@.len() == 0,
    {
        Col { id: WidgetId::new(), children: Vec::new(), flex: Vec::new() }
    }

    /// Whether every child has its weight.
    pub open spec fn wf(&self) -> bool {
        self.children@.len() == self.flex@.len()
    }

    /// The weight of the child at `i`.
    pub open spec fn spec_flex_of(&self, i: int) -> u32 {
        if 0 <= i < self.flex@.len() {
            self.flex@[i]
        } else {
            0
        }
    }

    /// The weight of the child at `i`.
    pub fn flex_of(&self, i: usize) -> (r: u32)
        ensures
            r == self.spec_flex_of(i as int),
    {
        if i < self.flex.len() {
            self.flex[i]
        } else {
            0
        }
    }

    /// The same with `child` added after the other children, with the
    /// weight `flex`.
    pub fn child(self, flex: u32, child: AnyWidget) -> (w: Col)
        requires
            self.wf(),
        ensures
            w.id == self.id,
            w.children@ == self.children@.push(child),
            w.flex@ == self.flex@.push(flex),
            w.wf(),
    {
        let mut w = self;
        w.children.push(child);
        w.flex.push(flex);
        w
    }

    /// The same with the given children added in order after the other
    /// children, each with its weight.
    pub fn children(self, children: Vec<(u32, AnyWidget)>) -> (w: Col)
        requires
            self.wf(),
        ensures
            w.id == self.id,
            w.wf(),
            w.children@.len() == self.children@.len() + children@.len(),
            forall|i: int| 0 <= i < self.children@.len() ==> w.children@[i] == self.children@[i],
            forall|i: int| 0 <= i < self.children@.len() ==> w.flex@[i] == self.flex@[i],
            forall|i: int|
                0 <= i < children@.len() ==> w.children@[self.children@.len() + i]
                    == children@[i].1,
            forall|i: int|
                0 <= i < children@.len() ==> w.flex@[self.children@.len() + i] == children@[i].0,
    {
        let mut w = self;
        let mut rest = children;
        let ghost done: int = 0;
        while rest.len() > 0
            invariant
                w.id == self.id,
                w.wf(),
                0 <= done <= children@.len(),
                rest@ == children@.subrange(done, children@.len() as int),
                w.children@.len() == self.children@.len() + done,
                forall|i: int|
                    0 <= i < self.children@.len() ==> w.children@[i] == self.children@[i],
                forall|i: int| 0 <= i < self.children@.len() ==> w.flex@[i] == self.flex@[i],
                forall|i: int|
                    0 <= i < done ==> w.children@[self.children@.len() + i] == children@[i].1,
                forall|i: int|
                    0 <= i < done ==> w.flex@[self.children@.len() + i] == children@[i].0,
            decreases rest@.len(),
        {
            let (flex, child) = rest.remove(0);
            assert(rest@ == children@.subrange(done + 1, children@.len() as int));
            w.children.push(child);
            w.flex.push(flex);
            proof {
                done = done + 1;
            }
        }
        w
    }
}

impl Widget for Col {
    open spec fn spec_id(&self) -> WidgetId {
        self.id
    }

    open spec fn spec_is_component(&self) -> bool {
        false
    }

    fn id(&self) -> (r: WidgetId) {
        self.id
    }

    fn is_component(&self) -> (r: bool) {
        false
    }
}

/// Lays its children out side by side.
///
/// Each child has a weight. Space that is left over along the horizontal axis is
/// shared out among the children in proportion to their weights.
pub struct Row {
    pub id: WidgetId,
    pub children: Vec<AnyWidget>,
    /// The weight of each child, in the order of the children. A child
    /// without an entry has the weight zero.
    pub flex: Vec<u32>,
}

impl Row {
    /// Without children, with a fresh identifier.
    pub fn new() -> (w: Row)
        ensures
            w.children@.len() == 0,
            w.flex@.len() == 0,
    {
        Row { id: WidgetId::new(), children: Vec::new(), flex: Vec::new() }
    }

    /// Whether every child has its weight.
    pub open spec fn wf(&self) -> bool {
        self.children@.len() == self.flex@.len()
    }

    /// The weight of the child at `i`.
    pub open spec fn spec_flex_of(&self, i: int) -> u32 {
        if 0 <= i < self.flex@.len() {
            self.flex@[i]
        } else {
            0
        }
    }

    /// The weight of the child at `i`.
    pub fn flex_of(&self, i: usize) -> (r: u32)
        ensures
            r == self.spec_flex_of(i as int),
    {
        if i < self.flex.len() {
            self.flex[i]
        } else {
            0
        }
    }

    /// The same with `child` added after the other children, with the
    /// weight `flex`.
    pub fn child(self, flex: u32, child: AnyWidget) -> (w: Row)
        requires
            self.wf(),
        ensures
            w.id == self.id,
            w.children@ == self.children@.push(child),
            w.flex@ == self.flex@.push(flex),
            w.wf(),
    {
        let mut w = self;
        w.children.push(child);
        w.flex.push(flex);
        w
    }

    /// The same with the given children added in order after the other
    /// children, each with its weight.
    pub fn children(self, children: Vec<(u32, AnyWidget)>) -> (w: Row)
        requires
            self.wf(),
        ensures
            w.id == self.id,
            w.wf(),
            w.children@.len() == self.children@.len() + children@.len(),
            forall|i: int| 0 <= i < self.children@.len() ==> w.children@[i] == self.children@[i],
            forall|i: int| 0 <= i < self.children@.len() ==> w.flex@[i] == self.flex@[i],
            forall|i: int|
                0 <= i < children@.len() ==> w.children@[self.children@.len() + i]
                    == children@[i].1,
            forall|i: int|
                0 <= i < children@.len() ==> w.flex@[self.children@.len() + i] == children@[i].0,
    {
        let mut w = self;
        let mut rest = children;
        let ghost done: int = 0;
        while rest.len() > 0
            invariant
                w.id == self.id,
                w.wf(),
                0 <= done <= children@.len(),
                rest@ == children@.subrange(done, children@.len() as int),
                w.children@.len() == self.children@.len() + done,
                forall|i: int|
                    0 <= i < self.children@.len() ==> w.children@[i] == self.children@[i],
                forall|i: int| 0 <= i < self.children@.len() ==> w.flex@[i] == self.flex@[i],
                forall|i: int|
                    0 <= i < done ==> w.children@[self.children@.len() + i] == children@[i].1,
                forall|i: int|
                    0 <= i < done ==> w.flex@[self.children@.len() + i] == children@[i].0,
            decreases rest@.len(),
        {
            let (flex, child) = rest.remove(0);
            assert(rest@ == children@.subrange(done + 1, children@.len() as int));
            w.children.push(child);
            w.flex.push(flex);
            proof {
                done = done + 1;
            }
        }
        w
    }
}

impl Widget for Row {
    open spec fn spec_id(&self) -> WidgetId {
        self.id
    }

    open spec fn spec_is_component(&self) -> bool {
        false
    }

    fn id(&self) -> (r: WidgetId) {
        self.id
    }

    fn is_component(&self) -> (r: bool) {
        false
    }
}

/// Lays its children out one on top of the other, each over all of its space.
pub struct Overlap {
    pub id: WidgetId,
    pub children: Vec<AnyWidget>,
}

impl Overlap {
    /// Without children, with a fresh identifier.
    pub fn new() -> (w: Overlap)
        ensures
            w.children@.len() == 0,
    {
        Overlap { id: WidgetId::new(), children: Vec::new() }
    }

    /// The same with `child` added on top of the other children.
    pub fn child(self, child: AnyWidget) -> (w: Overlap)
        ensures
            w.id == self.id,
            w.children@ == self.children@.push(child),
    {
        let mut w = self;
        w.children.push(child);
        w
    }

    /// The same with the given children added in order on top of the other
    /// children.
    pub fn children(self, children: Vec<AnyWidget>) -> (w: Overlap)
        ensures
            w.id == self.id,
            w.children@ == self.children@ + children@,
    {
        let mut w = self;
        let mut rest = children;
        w.children.append(&mut rest);
        w
    }
}

impl Widget for Overlap {
    open spec fn spec_id(&self) -> WidgetId {
        self.id
    }

    open spec fn spec_is_component(&self) -> bool {
        false
    }

    fn id(&self) -> (r: WidgetId) {
        self.id
    }

    fn is_component(&self) -> (r: bool) {
        false
    }
}

/// Leaves the padding of the theme free around its child.
pub struct Inset {
    pub id: WidgetId,
    pub child: Box<AnyWidget>,
}

impl Inset {
    /// Around `child`, with a fresh identifier.
    pub fn new(child: AnyWidget) -> (w: Inset)
        ensures
            *w.child == child,
    {
        Inset { id: WidgetId::new(), child: Box::new(child) }
    }
}

impl Widget for Inset {
    open spec fn spec_id(&self) -> WidgetId {
        self.id
    }

    open spec fn spec_is_component(&self) -> bool {
        false
    }

    fn id(&self) -> (r: WidgetId) {
        self.id
    }

    fn is_component(&self) -> (r: bool) {
        false
    }
}

/// Fills the space of its child with a colour before the child is drawn.
pub struct Fill {
    pub id: WidgetId,
    pub child: Box<AnyWidget>,
    pub fill_color: Color4,
}

impl Fill {
    /// Around `child`, with a fresh identifier.
    pub fn new(fill_color: Color4, child: AnyWidget) -> (w: Fill)
        ensures
            *w.child == child,
            w.fill_color == fill_color,
    {
        Fill { id: WidgetId::new(), child: Box::new(child), fill_color }
    }
}

impl Widget for Fill {
    open spec fn spec_id(&self) -> WidgetId {
        self.id
    }

    open spec fn spec_is_component(&self) -> bool {
        false
    }

    fn id(&self) -> (r: WidgetId) {
        self.id
    }

    fn is_component(&self) -> (r: bool) {
        false
    }
}

/// A `Selector` as it stands in the widget tree: its labels and its
/// selection, without the values of the options.
pub struct SelectorNode {
    pub id: WidgetId,
    pub labels: Vec<String>,
    pub selected: Option<usize>,
}

impl Widget for SelectorNode {
    open spec fn spec_id(&self) -> WidgetId {
        self.id
    }

    open spec fn spec_is_component(&self) -> bool {
        true
    }

    fn id(&self) -> (r: WidgetId) {
        self.id
    }

    fn is_component(&self) -> (r: bool) {
        true
    }
}

impl<T: Copy> Selector<T> {
    /// The selector as it stands in the widget tree.
    pub fn node(&self) -> (n: SelectorNode)
        ensures
            n.id == self.id,
            n.selected == self.selected_option,
            n.labels@.len() == self.options@.len(),
            forall|i: int| 0 <= i < n.labels@.len() ==> n.labels@[i] == self.options@[i].0,
    {
        let mut labels: Vec<String> = Vec::new();
        let mut i: usize = 0;
        while i < self.options.len()
            invariant
                i <= self.options@.len(),
                labels@.len() == i,
                forall|j: int| 0 <= j < i ==> labels@[j] == self.options@[j].0,
            decreases self.options@.len() - i,
        {
            labels.push(self.options[i].0.clone());
            i = i + 1;
        }
        SelectorNode { id: self.id, labels, selected: self.selected_option }
    }
}

/// A widget of any of the kinds of the toolkit: a node of the widget tree.
pub enum AnyWidget {
    Label(Label),
    Button(Button),
    NoFill(NoFill),
    Col(Col),
    Row(Row),
    TextBox(TextBox),
    MessageBox(MessageBox),
    Overlap(Overlap),
    Empty(EmptyWidget),
    Padding(Padding),
    Inset(Inset),
    Selector(SelectorNode),
    Fill(Fill),
    TextEntry(TextEntry),
}

impl AnyWidget {
    /// The children of a widget that lays out a list of children.
    pub open spec fn spec_child_list(self) -> Option<Seq<AnyWidget>> {
        match self {
            AnyWidget::Col(w) => Some(w.children@),
            AnyWidget::Row(w) => Some(w.children@),
            AnyWidget::Overlap(w) => Some(w.children@),
            _ => None,
        }
    }

    /// The child of a widget that stands around one child.
    pub open spec fn spec_single_child(self) -> Option<AnyWidget> {
        match self {
            AnyWidget::NoFill(w) => Some(*w.child),
            AnyWidget::Inset(w) => Some(*w.child),
            AnyWidget::Fill(w) => Some(*w.child),
            _ => None,
        }
    }

    /// The children of the widget, in order.
    pub open spec fn spec_children(self) -> Seq<AnyWidget> {
        match self.spec_child_list() {
            Some(children) => children,
            None => match self.spec_single_child() {
                Some(child) => seq![child],
                None => Seq::empty(),
            },
        }
    }

    /// The children of a widget that lays out a list of children.
    pub fn child_list(&self) -> (r: Option<&Vec<AnyWidget>>)
        ensures
            r.is_some() == self.spec_child_list().is_some(),
            r matches Some(children) ==> Some(children@) == self.spec_child_list(),
    {
        match self {
            AnyWidget::Col(w) => Some(&w.children),
            AnyWidget::Row(w) => Some(&w.children),
            AnyWidget::Overlap(w) => Some(&w.children),
            _ => None,
        }
    }

    /// The child of a widget that stands around one child.
    pub fn single_child(&self) -> (r: Option<&AnyWidget>)
        ensures
            r.is_some() == self.spec_single_child().is_some(),
            r matches Some(child) ==> Some(*child) == self.spec_single_child(),
    {
        match self {
            AnyWidget::NoFill(w) => Some(&*w.child),
            AnyWidget::Inset(w) => Some(&*w.child),
            AnyWidget::Fill(w) => Some(&*w.child),
            _ => None,
        }
    }
}

impl Widget for AnyWidget {
    open spec fn spec_id(&self) -> WidgetId {
        match self {
            AnyWidget::Label(w) => w.id,
            AnyWidget::Button(w) => w.id,
            AnyWidget::NoFill(w) => w.id,
            AnyWidget::Col(w) => w.id,
            AnyWidget::Row(w) => w.id,
            AnyWidget::TextBox(w) => w.id,
            AnyWidget::MessageBox(w) => w.id,
            AnyWidget::Overlap(w) => w.id,
            AnyWidget::Empty(w) => w.id,
            AnyWidget::Padding(w) => w.id,
            AnyWidget::Inset(w) => w.id,
            AnyWidget::Selector(w) => w.id,
            AnyWidget::Fill(w) => w.id,
            AnyWidget::TextEntry(w) => w.id,
        }
    }

    open spec fn spec_is_component(&self) -> bool {
        self is Button || self is Selector || self is TextEntry
    }

    fn id(&self) -> (r: WidgetId) {
        match self {
            AnyWidget::Label(w) => w.id,
            AnyWidget::Button(w) => w.id,
            AnyWidget::NoFill(w) => w.id,
            AnyWidget::Col(w) => w.id,
            AnyWidget::Row(w) => w.id,
            AnyWidget::TextBox(w) => w.id,
            AnyWidget::MessageBox(w) => w.id,
            AnyWidget::Overlap(w) => w.id,
            AnyWidget::Empty(w) => w.id,
            AnyWidget::Padding(w) => w.id,
            AnyWidget::Inset(w) => w.id,
            AnyWidget::Selector(w) => w.id,
            AnyWidget::Fill(w) => w.id,
            AnyWidget::TextEntry(w) => w.id,
        }
    }

    fn is_component(&self) -> (r: bool) {
        match self {
            AnyWidget::Button(_) => true,
            AnyWidget::Selector(_) => true,
            AnyWidget::TextEntry(_) => true,
            _ => false,
        }
    }
}

} // verus!

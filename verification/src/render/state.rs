//! The state of a rendering: a stack of frames, one for each part of the
//! document that has started and not yet ended.

use crate::terminal::ansi::{AnsiStyle, Style};
use crate::terminal::LinkCapability;
use crate::render::highlighting::{Highlighted, Highlighting};
use vstd::prelude::*;

verus! {

/// Whether a blank line goes before the next block.
#[derive(Clone, Copy, Debug, PartialEq, Eq, Structural)]
pub enum MarginControl {
    /// A blank line goes before the next block.
    Margin,
    /// No blank line goes before the next block.
    NoMargin,
    /// No blank line goes before the next block if it is markup that the
    /// document holds as it is; one goes before any other block.
    NoMarginForHtmlOnly,
}

/// The attributes of a block that holds other blocks.
#[derive(Clone, Copy, Debug, PartialEq, Eq, Structural)]
pub struct StyledBlockAttrs {
    /// Whether a blank line goes before the next block in this one.
    pub margin_before: MarginControl,
    /// The column that the lines of this block start at.
    pub indent: u16,
    /// The style of the text in this block.
    pub style: Style,
    /// Whether this block is a quote or stands in one.
    pub in_quote: bool,
}

impl StyledBlockAttrs {
    /// A block at the first column, in the plain style, before whose first
    /// block a blank line goes.
    pub open spec fn initial() -> StyledBlockAttrs {
        StyledBlockAttrs {
            margin_before: MarginControl::Margin,
            indent: 0,
            style: Style::plain(),
            in_quote: false,
        }
    }

    /// These attributes for a quote in this block: four columns further in,
    /// and italic.
    pub open spec fn quoted(self) -> StyledBlockAttrs {
        StyledBlockAttrs {
            indent: (self.indent + 4) as u16,
            style: self.style.with_italic(),
            in_quote: true,
            ..self
        }
    }

    /// These attributes with the margin control `margin_before`.
    pub open spec fn with_margin(self, margin_before: MarginControl) -> StyledBlockAttrs {
        StyledBlockAttrs { margin_before, ..self }
    }

    /// The attributes of inline text that stands in a block of these
    /// attributes.
    pub open spec fn inline(self) -> InlineAttrs {
        InlineAttrs { style: self.style, indent: self.indent }
    }

    /// A block at the first column, in the plain style, before whose first
    /// block a blank line goes.
    pub fn new() -> (r: StyledBlockAttrs)
        ensures
            r == StyledBlockAttrs::initial(),
    {
        StyledBlockAttrs {
            margin_before: MarginControl::Margin,
            indent: 0,
            style: Style::new(),
            in_quote: false,
        }
    }

    /// These attributes for a quote in this block.
    pub fn block_quote(self) -> (r: StyledBlockAttrs)
        requires
            self.indent + 4 <= u16::MAX,
        ensures
            r == self.quoted(),
    {
        StyledBlockAttrs {
            indent: self.indent + 4,
            style: self.style.italic(),
            in_quote: true,
            ..self
        }
    }

    /// These attributes, with a blank line before the next block.
    pub fn with_margin_before(self) -> (r: StyledBlockAttrs)
        ensures
            r == self.with_margin(MarginControl::Margin),
    {
        StyledBlockAttrs { margin_before: MarginControl::Margin, ..self }
    }

    /// These attributes, without a blank line before the next block.
    pub fn without_margin_before(self) -> (r: StyledBlockAttrs)
        ensures
            r == self.with_margin(MarginControl::NoMargin),
    {
        StyledBlockAttrs { margin_before: MarginControl::NoMargin, ..self }
    }

    /// These attributes, without a blank line before the next block if that
    /// is markup held as it is.
    pub fn without_margin_for_html_only(self) -> (r: StyledBlockAttrs)
        ensures
            r == self.with_margin(MarginControl::NoMarginForHtmlOnly),
    {
        StyledBlockAttrs { margin_before: MarginControl::NoMarginForHtmlOnly, ..self }
    }

    /// The attributes of inline text that stands in a block of these
    /// attributes.
    pub fn to_inline(&self) -> (r: InlineAttrs)
        ensures
            r == self.inline(),
    {
        InlineAttrs { style: self.style, indent: self.indent }
    }
}

/// The attributes of a code block that is highlighted.
#[derive(Debug, PartialEq, Eq)]
pub struct HighlightBlockAttrs {
    /// How the terminal shows styled text.
    pub ansi: AnsiStyle,
    /// The highlighting, after the lines written so far.
    pub highlighting: Highlighting,
    /// The column that the lines of the block start at.
    pub indent: u16,
}

/// The attributes of a code block that is written as it is.
#[derive(Clone, Copy, Debug, PartialEq, Eq, Structural)]
pub struct LiteralBlockAttrs {
    /// The column that the lines of the block start at.
    pub indent: u16,
    /// The style of the code.
    pub style: Style,
}

/// The kind of a list, and for an ordered list the number of the next item.
#[derive(Clone, Copy, Debug, PartialEq, Eq, Structural)]
pub enum ListItemKind {
    /// An item of a list without order.
    Unordered,
    /// An item of an ordered list, with its number.
    Ordered(u64),
}

impl ListItemKind {
    /// The number of columns that the marker of an item takes: two for a
    /// bullet, four for a number.
    pub open spec fn marker_width(self) -> int {
        match self {
            ListItemKind::Unordered => 2,
            ListItemKind::Ordered(_) => 4,
        }
    }

    /// The kind for the item after an item of this kind: in an ordered list
    /// the number goes up by one.
    pub open spec fn next(self) -> ListItemKind {
        match self {
            ListItemKind::Unordered => ListItemKind::Unordered,
            ListItemKind::Ordered(number) => ListItemKind::Ordered((number + 1) as u64),
        }
    }

    /// The kind of the items of a list that starts at `start`, or has no order
    /// where there is no start.
    pub open spec fn of_start(start: Option<u64>) -> ListItemKind {
        match start {
            Some(start) => ListItemKind::Ordered(start),
            None => ListItemKind::Unordered,
        }
    }

    /// The kind of the items of a list that starts at `start`, or has no order
    /// where there is no start.
    pub fn from_start(start: Option<u64>) -> (r: ListItemKind)
        ensures
            r == ListItemKind::of_start(start),
    {
        match start {
            Some(start) => ListItemKind::Ordered(start),
            None => ListItemKind::Unordered,
        }
    }
}

/// How far an item of a list has got.
#[derive(Clone, Copy, Debug, PartialEq, Eq, Structural)]
pub enum ListItemState {
    /// At the start of the item: what comes goes beside the marker.
    StartItem,
    /// In the text of the item.
    ItemText,
    /// After a block in the item.
    ItemBlock,
}

/// What inline text stands in.
#[derive(Clone, Copy, Debug, PartialEq, Eq, Structural)]
pub enum InlineState {
    /// Plain text.
    InlineText,
    /// A link that the terminal follows, started by the capability held.
    InlineLink(LinkCapability),
    /// An item of a list.
    ListItem(ListItemKind, ListItemState),
}

/// The attributes of inline text.
#[derive(Clone, Copy, Debug, PartialEq, Eq, Structural)]
pub struct InlineAttrs {
    /// The style of the text.
    pub style: Style,
    /// The column that a new line of the text starts at.
    pub indent: u16,
}

impl InlineAttrs {
    /// Inline text at the first column, in the plain style.
    pub open spec fn initial() -> InlineAttrs {
        InlineAttrs { style: Style::plain(), indent: 0 }
    }

    /// The attributes of a block that stands in inline text of these
    /// attributes, before whose first block a blank line goes.
    pub open spec fn block(self) -> StyledBlockAttrs {
        StyledBlockAttrs {
            margin_before: MarginControl::Margin,
            indent: self.indent,
            style: self.style,
            in_quote: false,
        }
    }

    /// Inline text at the first column, in the plain style.
    pub fn new() -> (r: InlineAttrs)
        ensures
            r == InlineAttrs::initial(),
    {
        InlineAttrs { style: Style::new(), indent: 0 }
    }

    /// The attributes of a block that stands in inline text of these
    /// attributes.
    pub fn to_block(&self) -> (r: StyledBlockAttrs)
        ensures
            r == self.block(),
    {
        StyledBlockAttrs {
            margin_before: MarginControl::Margin,
            indent: self.indent,
            style: self.style,
            in_quote: false,
        }
    }
}

/// One entry of the stack: a part of the document that has started.
#[derive(Debug, PartialEq, Eq)]
pub enum StackedState {
    /// A block that holds other blocks.
    StyledBlock(StyledBlockAttrs),
    /// A code block that is highlighted.
    HighlightBlock(HighlightBlockAttrs),
    /// A code block that is written as it is.
    LiteralBlock(LiteralBlockAttrs),
    /// An image that was shown: its text is left out.
    RenderedImage,
    /// Inline text.
    Inline(InlineState, InlineAttrs),
}

/// What a stack entry holds, as plain values.
pub enum Frame {
    /// A block that holds other blocks.
    StyledBlock(StyledBlockAttrs),
    /// A code block that is highlighted, with the column its lines start at
    /// and what tells how its next line is highlighted.
    HighlightBlock(u16, Highlighted),
    /// A code block that is written as it is.
    LiteralBlock(LiteralBlockAttrs),
    /// An image that was shown.
    RenderedImage,
    /// Inline text.
    Inline(InlineState, InlineAttrs),
}

impl Frame {
    /// The column that lines in this frame start at; the first column for an
    /// image that was shown.
    pub open spec fn indent(self) -> int {
        match self {
            Frame::StyledBlock(attrs) => attrs.indent as int,
            Frame::HighlightBlock(indent, _) => indent as int,
            Frame::LiteralBlock(attrs) => attrs.indent as int,
            Frame::RenderedImage => 0,
            Frame::Inline(_, attrs) => attrs.indent as int,
        }
    }

    /// The style of the text in this frame, where the frame has one.
    pub open spec fn style(self) -> Option<Style> {
        match self {
            Frame::StyledBlock(attrs) => Some(attrs.style),
            Frame::HighlightBlock(_, _) => None,
            Frame::LiteralBlock(attrs) => Some(attrs.style),
            Frame::RenderedImage => None,
            Frame::Inline(_, attrs) => Some(attrs.style),
        }
    }
}

impl View for StackedState {
    type V = Frame;

    open spec fn view(&self) -> Frame {
        match *self {
            StackedState::StyledBlock(attrs) => Frame::StyledBlock(attrs),
            StackedState::HighlightBlock(attrs) => Frame::HighlightBlock(
                attrs.indent,
                attrs.highlighting@,
            ),
            StackedState::LiteralBlock(attrs) => Frame::LiteralBlock(attrs),
            StackedState::RenderedImage => Frame::RenderedImage,
            StackedState::Inline(state, attrs) => Frame::Inline(state, attrs),
        }
    }
}

/// The attributes of the top level of a document.
#[derive(Clone, Copy, Debug, PartialEq, Eq, Structural)]
pub struct TopLevelAttrs {
    /// Whether a blank line goes before the next block.
    pub margin_before: MarginControl,
}

impl TopLevelAttrs {
    /// The top level with the margin control `margin_before`.
    pub open spec fn with(margin_before: MarginControl) -> TopLevelAttrs {
        TopLevelAttrs { margin_before }
    }

    /// The top level at the start of a document: no blank line goes before
    /// the first block.
    pub fn new() -> (r: TopLevelAttrs)
        ensures
            r == TopLevelAttrs::with(MarginControl::NoMargin),
    {
        TopLevelAttrs { margin_before: MarginControl::NoMargin }
    }

    /// The top level after a block: a blank line goes before the next.
    pub fn margin_before() -> (r: TopLevelAttrs)
        ensures
            r == TopLevelAttrs::with(MarginControl::Margin),
    {
        TopLevelAttrs { margin_before: MarginControl::Margin }
    }

    /// The top level after markup held as it is: no blank line goes before
    /// more of it.
    pub fn no_margin_for_html_only() -> (r: TopLevelAttrs)
        ensures
            r == TopLevelAttrs::with(MarginControl::NoMarginForHtmlOnly),
    {
        TopLevelAttrs { margin_before: MarginControl::NoMarginForHtmlOnly }
    }
}

/// A state as plain values: the attributes of the top level and the frames
/// above it, the current frame last.  At the top level there is no frame.
pub struct Frames {
    /// The attributes of the top level.
    pub top_level: TopLevelAttrs,
    /// The frames, from the one started first to the current one.
    pub frames: Seq<Frame>,
}

impl Frames {
    /// The state at the top level with the attributes `top_level`.
    pub open spec fn top(top_level: TopLevelAttrs) -> Frames {
        Frames { top_level, frames: Seq::empty() }
    }

    /// The number of parts that have started and not ended.
    pub open spec fn depth(self) -> nat {
        self.frames.len()
    }

    /// Whether this state is at the top level.
    pub open spec fn is_top_level(self) -> bool {
        self.frames.len() == 0
    }

    /// The current frame.
    pub open spec fn current(self) -> Frame
        recommends
            !self.is_top_level(),
    {
        self.frames.last()
    }

    /// The column that lines start at: that of the current frame, the first
    /// column at the top level.
    pub open spec fn indent(self) -> int {
        if self.is_top_level() {
            0
        } else {
            self.current().indent()
        }
    }

    /// The style of text: that of the current frame, where there is a frame
    /// and it has a style.
    pub open spec fn style(self) -> Option<Style> {
        if self.is_top_level() {
            None
        } else {
            self.current().style()
        }
    }

    /// This state with `frame` above the current frame.
    pub open spec fn pushed(self, frame: Frame) -> Frames {
        Frames { frames: self.frames.push(frame), ..self }
    }

    /// This state without its current frame.
    pub open spec fn popped(self) -> Frames
        recommends
            !self.is_top_level(),
    {
        Frames { frames: self.frames.drop_last(), ..self }
    }

    /// This state with `frame` in place of its current frame.
    pub open spec fn replaced(self, frame: Frame) -> Frames
        recommends
            !self.is_top_level(),
    {
        self.popped().pushed(frame)
    }
}

/// Pushing a frame and popping it gives the state before, and the frame
/// pushed is the current one.
pub proof fn lemma_pushed(state: Frames, frame: Frame)
    ensures
        !state.pushed(frame).is_top_level(),
        state.pushed(frame).current() == frame,
        state.pushed(frame).popped() == state,
        state.pushed(frame).indent() == frame.indent(),
        state.pushed(frame).style() == frame.style(),
{
    assert(state.frames.push(frame).drop_last() =~= state.frames);
}

/// The views of the entries `states`.
pub open spec fn frames_of(states: Seq<StackedState>) -> Seq<Frame> {
    Seq::new(states.len(), |i: int| states[i]@)
}

/// The frames below the current one.
///
/// The view of a stack is the state that popping it gives: the state in which
/// its last frame is the current one.
#[derive(Debug, PartialEq, Eq)]
pub struct StateStack {
    top_level: TopLevelAttrs,
    states: Vec<StackedState>,
}

impl View for StateStack {
    type V = Frames;

    closed spec fn view(&self) -> Frames {
        Frames { top_level: self.top_level, frames: frames_of(self.states@) }
    }
}

impl StateStack {
    /// The stack above the top level with the attributes `top_level`.
    fn new(top_level: TopLevelAttrs) -> (r: StateStack)
        ensures
            r@ == Frames::top(top_level),
    {
        let r = StateStack { top_level, states: Vec::new() };
        assert(r@.frames =~= Seq::empty());
        r
    }

    /// The number of frames on this stack.
    pub fn len(&self) -> (r: usize)
        ensures
            r == self@.depth(),
    {
        self.states.len()
    }

    /// Push `state` on this stack.
    pub fn push(self, state: StackedState) -> (r: StateStack)
        ensures
            r@ == self@.pushed(state@),
    {
        let ghost before = self@;
        let mut states = self.states;
        states.push(state);
        let r = StateStack { top_level: self.top_level, states };
        assert(r@.frames =~= before.frames.push(state@));
        r
    }

    /// The state in which `state` is the current frame above this stack.
    pub fn current(self, state: StackedState) -> (r: State)
        ensures
            r@ == self@.pushed(state@),
    {
        State::Stacked(self, state)
    }

    /// The state in which the last frame of this stack is the current one;
    /// the top level where the stack is empty.
    pub fn pop(self) -> (r: State)
        ensures
            r@ == self@,
    {
        let ghost before = self@;
        let top_level = self.top_level;
        let mut states = self.states;
        match states.pop() {
            None => {
                assert(before.frames =~= Seq::empty());
                State::TopLevel(top_level)
            },
            Some(state) => {
                let stack = StateStack { top_level, states };
                assert(stack@.frames.push(state@) =~= before.frames);
                State::Stacked(stack, state)
            },
        }
    }
}

/// The state of a rendering.
#[derive(Debug, PartialEq, Eq)]
pub enum State {
    /// At the top level of the document.
    TopLevel(TopLevelAttrs),
    /// In a part of the document: the frames below, and the current frame.
    Stacked(StateStack, StackedState),
}

impl View for State {
    type V = Frames;

    open spec fn view(&self) -> Frames {
        match *self {
            State::TopLevel(attrs) => Frames::top(attrs),
            State::Stacked(stack, state) => stack@.pushed(state@),
        }
    }
}

impl State {
    /// The state at the start of a document.
    pub fn new() -> (r: State)
        ensures
            r@ == Frames::top(TopLevelAttrs::with(MarginControl::NoMargin)),
    {
        State::TopLevel(TopLevelAttrs::new())
    }

    /// The empty stack above the top level with the attributes `top_level`.
    pub fn stack_onto(top_level: TopLevelAttrs) -> (r: StateStack)
        ensures
            r@ == Frames::top(top_level),
    {
        StateStack::new(top_level)
    }

    /// Whether this state is at the top level of the document.
    pub fn is_top_level(&self) -> (r: bool)
        ensures
            r == self@.is_top_level(),
    {
        match self {
            State::TopLevel(_) => true,
            State::Stacked(_, _) => false,
        }
    }

    /// The column that lines start at in this state.
    pub fn indent(&self) -> (r: u16)
        ensures
            r == self@.indent(),
    {
        match self {
            State::TopLevel(_) => 0,
            State::Stacked(_, StackedState::StyledBlock(attrs)) => attrs.indent,
            State::Stacked(_, StackedState::HighlightBlock(attrs)) => attrs.indent,
            State::Stacked(_, StackedState::LiteralBlock(attrs)) => attrs.indent,
            State::Stacked(_, StackedState::RenderedImage) => 0,
            State::Stacked(_, StackedState::Inline(_, attrs)) => attrs.indent,
        }
    }
}

} // verus!

//! What holds of the rules of rendering, whatever the document.

use crate::events::{Event, Tag, TagKind};
use crate::render::data::PendingLinks;
use crate::render::images::Fetched;
use crate::render::highlighting::{highlighted_code, Highlighted};
use crate::render::rules::{
    inline_step, list_item_step, literal_lines, may_follow, styled_block_step, top_level_step,
    transition,
};
use crate::render::state::{
    lemma_pushed, Frame, Frames, InlineAttrs, InlineState, ListItemKind, ListItemState, LiteralBlockAttrs,
    MarginControl, StyledBlockAttrs, TopLevelAttrs,
};
use crate::render::write::{border_text, link_refs_text, newline};
use crate::settings::Context;
use crate::terminal::ansi::{Colour, Style};
use crate::terminal::TerminalCapabilities;
use crate::text::{
    ends_with_newline, first_line_len, lemma_first_line_len, lines_with_endings, spaces,
};
use vstd::prelude::*;

verus! {

/// Whether `tag` is one of the three that change the style of inline text.
pub open spec fn is_style_tag(tag: Tag) -> bool {
    tag is Emphasis || tag is Strong || tag is Strikethrough
}

/// The style of text in a part with the tag `tag` that stands in text of the
/// style `style`: the one attribute that the tag names is added, or, for
/// emphasis, toggled.
pub open spec fn style_within(tag: Tag, style: Style) -> Style {
    match tag {
        Tag::Emphasis => style.with_italic_toggled(),
        Tag::Strong => style.with_bold(),
        Tag::Strikethrough => style.with_strikethrough(),
        _ => style,
    }
}

/// Inline text between the start and the end of emphasis, strong emphasis or
/// strikethrough has the style around it with the one attribute of the tag,
/// at the same column; and the end brings back the very state before the
/// start, so the style before the start and not one worked out anew.
pub proof fn lemma_style_span(
    context: Context,
    below: Frames,
    inline: InlineState,
    attrs: InlineAttrs,
    data: PendingLinks,
    tag: Tag,
    fetched: Fetched,
)
    requires
        is_style_tag(tag),
    ensures
        ({
            let before = below.pushed(Frame::Inline(inline, attrs));
            let started = transition(context, before, data, Event::Start(tag), fetched);
            &&& started matches Some(inside)
            &&& inside.state == before.pushed(
                Frame::Inline(
                    inline,
                    InlineAttrs { style: style_within(tag, attrs.style), indent: attrs.indent },
                ),
            )
            &&& inside.output == Seq::<char>::empty()
            &&& transition(context, inside.state, inside.data, Event::End(tag), fetched) matches Some(
                after,
            )
            &&& after.state == before
            &&& after.data == data
        }),
{
    let before = below.pushed(Frame::Inline(inline, attrs));
    let within = Frame::Inline(
        inline,
        InlineAttrs { style: style_within(tag, attrs.style), indent: attrs.indent },
    );
    assert(before.frames.drop_last() =~= below.frames);
    assert(before.pushed(within).frames.drop_last() =~= before.frames);
    assert(before.popped() == below);
    assert(before.pushed(within).popped() == before);
}

/// Strong emphasis in emphasis in upright text is bold and italic, and after
/// the end of the strong emphasis the text is italic still, not upright.
pub proof fn lemma_strong_in_emphasis(
    context: Context,
    below: Frames,
    inline: InlineState,
    attrs: InlineAttrs,
    data: PendingLinks,
    fetched: Fetched,
)
    requires
        !attrs.style.is_italic,
    ensures
        ({
            let before = below.pushed(Frame::Inline(inline, attrs));
            let emphasis = transition(context, before, data, Event::Start(Tag::Emphasis), fetched).unwrap();
            let strong = transition(
                context,
                emphasis.state,
                data,
                Event::Start(Tag::Strong),
                fetched,
            ).unwrap();
            let after = transition(context, strong.state, data, Event::End(Tag::Strong), fetched).unwrap();
            &&& strong.state.current().style() matches Some(style) && style.is_bold
                && style.is_italic
            &&& after.state.current().style() matches Some(style) && style.is_italic
                && style.is_bold == attrs.style.is_bold
            &&& after.state == emphasis.state
        }),
{
    lemma_style_span(context, below, inline, attrs, data, Tag::Emphasis, fetched);
    let before = below.pushed(Frame::Inline(inline, attrs));
    let italic = InlineAttrs { style: attrs.style.with_italic_toggled(), indent: attrs.indent };
    lemma_style_span(context, before, inline, italic, data, Tag::Strong, fetched);
}

/// The parts that have started and not ended after `events`, the innermost
/// last; none where an end is not that of the part that started last.
pub open spec fn open_parts(events: Seq<Event>) -> Option<Seq<TagKind>>
    decreases events.len(),
{
    if events.len() == 0 {
        Some(Seq::empty())
    } else {
        match open_parts(events.drop_last()) {
            None => None,
            Some(open) => match events.last() {
                Event::Start(tag) => Some(open.push(tag.kind())),
                Event::End(tag) => if open.len() > 0 && open.last() == tag.kind() {
                    Some(open.drop_last())
                } else {
                    None
                },
                _ => Some(open),
            },
        }
    }
}

/// Whether `events` are well nested: every end is that of the part that
/// started last, and no part is left open.
pub open spec fn well_nested(events: Seq<Event>) -> bool {
    open_parts(events) == Some(Seq::<TagKind>::empty())
}

/// Whether `states` are the states of a rendering of `events`: one before the
/// first event and one after each event, each as the rules allow after the one
/// before.
pub open spec fn rendering(context: Context, states: Seq<Frames>, events: Seq<Event>) -> bool {
    &&& states.len() == events.len() + 1
    &&& forall|i: int|
        0 <= i < events.len() ==> may_follow(context, #[trigger] states[i], events[i], states[i + 1])
}

/// The number of columns that the marker of an item took, where `frame` is an
/// item of a list; nothing for any other frame.
pub open spec fn marker_columns(frame: Frame) -> int {
    match frame {
        Frame::Inline(InlineState::ListItem(kind, _), _) => kind.marker_width(),
        _ => 0,
    }
}

/// Whether `a` and `b` have as many frames, each frame of `a` in the same
/// style and at the same column as the frame of `b` at its place, and an item
/// of the same kind of list if that is one, but for the current frame, which
/// is `shift` columns further in in `a` than in `b`.
pub open spec fn same_columns(a: Frames, b: Frames, shift: int) -> bool {
    &&& a.frames.len() == b.frames.len()
    &&& forall|i: int|
        0 <= i < a.frames.len() ==> marker_columns(#[trigger] a.frames[i]) == marker_columns(
            b.frames[i],
        ) && a.frames[i].style() == b.frames[i].style()
    &&& forall|i: int|
        0 <= i < a.frames.len() - 1 ==> (#[trigger] a.frames[i]).indent() == b.frames[i].indent()
    &&& a.indent() == b.indent() + shift
}

/// The depth, the column and the style of the state in which the parts `open`
/// started, told from the state `state` in which they are open: each part but
/// an item added a frame, and each item moved the current frame in by the
/// width of its marker, of which `raised` columns are counted already.
pub open spec fn started_at(state: Frames, open: Seq<TagKind>, raised: int) -> (
    nat,
    int,
    Option<Style>,
)
    decreases open.len(),
{
    if open.len() == 0 {
        (state.depth(), state.indent() - raised, state.style())
    } else if open.last() == TagKind::Item {
        started_at(
            state,
            open.drop_last(),
            raised + (if state.is_top_level() {
                0
            } else {
                marker_columns(state.current())
            }),
        )
    } else if state.is_top_level() {
        (0, 0, None)
    } else {
        started_at(state.popped(), open.drop_last(), 0)
    }
}

/// States with the same columns tell the same start.
proof fn lemma_started_at_same_columns(
    a: Frames,
    b: Frames,
    shift: int,
    open: Seq<TagKind>,
    raised: int,
)
    requires
        same_columns(a, b, shift),
    ensures
        started_at(a, open, raised + shift) == started_at(b, open, raised),
    decreases open.len(),
{
    if open.len() == 0 {
    } else if open.last() == TagKind::Item {
        let width = if a.is_top_level() {
            0
        } else {
            marker_columns(a.current())
        };
        lemma_started_at_same_columns(a, b, shift, open.drop_last(), raised + width);
    } else if a.is_top_level() {
    } else {
        let pa = a.popped();
        let pb = b.popped();
        assert(same_columns(pa, pb, 0)) by {
            assert forall|i: int| 0 <= i < pa.frames.len() implies marker_columns(
                #[trigger] pa.frames[i],
            ) == marker_columns(pb.frames[i]) && pa.frames[i].style() == pb.frames[i].style() by {
                assert(pa.frames[i] == a.frames[i]);
                assert(pb.frames[i] == b.frames[i]);
            }
            assert forall|i: int| 0 <= i < pa.frames.len() - 1 implies (
            #[trigger] pa.frames[i]).indent() == pb.frames[i].indent() by {
                assert(pa.frames[i] == a.frames[i]);
                assert(pb.frames[i] == b.frames[i]);
            }
            if pa.frames.len() > 0 {
                let last = pa.frames.len() - 1;
                assert(pa.frames[last] == a.frames[last]);
                assert(pb.frames[last] == b.frames[last]);
            }
        }
        lemma_started_at_same_columns(pa, pb, 0, open.drop_last(), 0);
    }
}

/// What one event does to the frames, as far as depth, columns and styles
/// go.
///
/// The start of a part other than an item adds a frame and leaves the columns
/// and the styles of the others as they are; the frame that it adds stands at
/// the column of the frame below or further in, unless it is an image that was
/// shown, which has no column.  The end of such a part takes the current frame
/// away.  The start of an item moves the current frame in by the width of the
/// marker, and its end moves it back.  Any other event leaves depth, columns
/// and styles alone.
pub open spec fn moves(state: Frames, event: Event, next: Frames) -> bool {
    match event {
        Event::Start(Tag::Item) => !state.is_top_level() && same_columns(
            next,
            state,
            marker_columns(state.current()),
        ),
        Event::End(Tag::Item) => !state.is_top_level() && same_columns(
            state,
            next,
            marker_columns(state.current()),
        ),
        Event::Start(_) => !next.is_top_level() && same_columns(next.popped(), state, 0) && (
        next.current() is RenderedImage || next.indent() >= state.indent()),
        Event::End(_) => !state.is_top_level() && same_columns(next, state.popped(), 0),
        _ => same_columns(next, state, 0),
    }
}

/// Two states that differ in their current frames only have the same columns,
/// but for the shift between the two frames.
proof fn lemma_same_columns_pushed(below: Frames, old_frame: Frame, new_frame: Frame, shift: int)
    requires
        marker_columns(new_frame) == marker_columns(old_frame),
        new_frame.style() == old_frame.style(),
        new_frame.indent() == old_frame.indent() + shift,
    ensures
        same_columns(below.pushed(new_frame), below.pushed(old_frame), shift),
{
}

/// A state has the same columns as itself.
proof fn lemma_same_columns_self(state: Frames)
    ensures
        same_columns(state, state, 0),
{
}

/// Adding a frame `new` above the frame `kept`, which stands at the column of
/// `current` in its place, and is an item of the same kind of list if that is
/// one.
proof fn lemma_entered(below: Frames, current: Frame, kept: Frame, new: Frame)
    requires
        marker_columns(kept) == marker_columns(current),
        kept.style() == current.style(),
        kept.indent() == current.indent(),
    ensures
        !below.pushed(kept).pushed(new).is_top_level(),
        same_columns(below.pushed(kept).pushed(new).popped(), below.pushed(current), 0),
        below.pushed(kept).pushed(new).current() == new,
        below.pushed(kept).pushed(new).indent() == new.indent(),
        below.pushed(current).indent() == current.indent(),
{
    let after = below.pushed(kept);
    lemma_pushed(after, new);
    lemma_same_columns_pushed(below, current, kept, 0);
}

/// Adding a frame `new` above the top level.
proof fn lemma_entered_top(before: TopLevelAttrs, after: TopLevelAttrs, new: Frame)
    ensures
        !Frames::top(after).pushed(new).is_top_level(),
        same_columns(Frames::top(after).pushed(new).popped(), Frames::top(before), 0),
        Frames::top(after).pushed(new).indent() == new.indent(),
{
    let top = Frames::top(after);
    lemma_pushed(top, new);
}

/// The rules at the top level move the frames as `moves` says.
proof fn lemma_top_level_moves(
    context: Context,
    attrs: TopLevelAttrs,
    data: PendingLinks,
    event: Event,
    next: Frames,
)
    requires
        top_level_step(context, attrs, data, event) matches Some(t) && t.state == next,
    ensures
        moves(Frames::top(attrs), event, next),
{
    let t = top_level_step(context, attrs, data, event).unwrap();
    let after = TopLevelAttrs::with(MarginControl::Margin);
    match event {
        Event::Start(_) => {
            assert(t.state == Frames::top(after).pushed(t.state.current())) by {
                assert(t.state.frames =~= Frames::top(after).frames.push(t.state.current()));
            }
            lemma_entered_top(attrs, after, t.state.current());
        },
        _ => {},
    }
}

/// The rules in a block that holds other blocks move the frames as `moves`
/// says.
proof fn lemma_styled_block_moves(
    context: Context,
    below: Frames,
    attrs: StyledBlockAttrs,
    data: PendingLinks,
    event: Event,
    next: Frames,
)
    requires
        styled_block_step(context, below, attrs, data, event) matches Some(t) && t.state == next,
    ensures
        moves(below.pushed(Frame::StyledBlock(attrs)), event, next),
{
    let t = styled_block_step(context, below, attrs, data, event).unwrap();
    let current = Frame::StyledBlock(attrs);
    let kept = Frame::StyledBlock(attrs.with_margin(MarginControl::Margin));
    lemma_pushed(below, current);
    match event {
        Event::Start(_) => {
            let new = t.state.current();
            assert(t.state == below.pushed(kept).pushed(new)) by {
                assert(t.state.frames =~= below.pushed(kept).frames.push(new));
            }
            lemma_entered(below, current, kept, new);
        },
        Event::End(_) => {},
        Event::Html(_) => {
            lemma_same_columns_pushed(
                below,
                current,
                Frame::StyledBlock(
                    attrs.with_margin(MarginControl::NoMarginForHtmlOnly),
                ),
                0,
            );
        },
        _ => {
            lemma_same_columns_pushed(below, current, kept, 0);
        },
    }
}

/// The rules in inline text move the frames as `moves` says.
proof fn lemma_inline_moves(
    context: Context,
    below: Frames,
    inline: InlineState,
    attrs: InlineAttrs,
    data: PendingLinks,
    event: Event,
    fetched: Fetched,
)
    requires
        inline_step(context, below, inline, attrs, data, event, fetched) is Some,
        !(event matches Event::Start(tag) && tag is Item),
        !(event matches Event::End(tag) && tag is Item),
    ensures
        moves(
            below.pushed(Frame::Inline(inline, attrs)),
            event,
            inline_step(context, below, inline, attrs, data, event, fetched).unwrap().state,
        ),
{
    let t = inline_step(context, below, inline, attrs, data, event, fetched).unwrap();
    let current = Frame::Inline(inline, attrs);
    lemma_pushed(below, current);
    match event {
        Event::Start(_) => {
            let new = t.state.current();
            assert(t.state == below.pushed(current).pushed(new)) by {
                assert(t.state.frames =~= below.pushed(current).frames.push(new));
            }
            lemma_entered(below, current, current, new);
        },
        Event::End(_) => {},
        _ => {
            lemma_same_columns_self(below.pushed(current));
        },
    }
}

/// The rules in an item of a list move the frames as `moves` says.
proof fn lemma_list_item_moves(
    context: Context,
    below: Frames,
    kind: ListItemKind,
    progress: ListItemState,
    attrs: InlineAttrs,
    data: PendingLinks,
    event: Event,
    fetched: Fetched,
    next: Frames,
)
    requires
        list_item_step(context, below, kind, progress, attrs, data, event, fetched) matches Some(t)
            && t.state == next,
    ensures
        moves(below.pushed(Frame::Inline(InlineState::ListItem(kind, progress), attrs)), event, next),
{
    let t = list_item_step(context, below, kind, progress, attrs, data, event, fetched).unwrap();
    let current = Frame::Inline(InlineState::ListItem(kind, progress), attrs);
    let kept = Frame::Inline(InlineState::ListItem(kind, ListItemState::ItemBlock), attrs);
    lemma_pushed(below, current);
    match event {
        Event::Start(Tag::Item) => {
            let raised = Frame::Inline(
                InlineState::ListItem(kind, ListItemState::StartItem),
                InlineAttrs {
                    indent: (attrs.indent + kind.marker_width()) as u16,
                    style: attrs.style,
                },
            );
            lemma_same_columns_pushed(below, current, raised, kind.marker_width());
        },
        Event::End(Tag::Item) => {
            let lowered = Frame::Inline(
                InlineState::ListItem(kind.next(), progress),
                InlineAttrs {
                    indent: (attrs.indent - kind.marker_width()) as u16,
                    style: attrs.style,
                },
            );
            lemma_same_columns_pushed(below, lowered, current, kind.marker_width());
        },
        Event::Start(Tag::Paragraph) | Event::Start(Tag::CodeBlock(_)) | Event::Start(
            Tag::Heading(_),
        ) | Event::Start(Tag::List(_)) | Event::Start(Tag::BlockQuote) => {
            let new = t.state.current();
            assert(t.state == below.pushed(kept).pushed(new)) by {
                assert(t.state.frames =~= below.pushed(kept).frames.push(new));
            }
            lemma_entered(below, current, kept, new);
        },
        Event::Rule => {
            lemma_same_columns_pushed(below, current, kept, 0);
        },
        Event::TaskListMarker(_) => {
            lemma_same_columns_self(below.pushed(current));
        },
        Event::Text(_) | Event::Html(_) => {
            if progress == ListItemState::ItemBlock {
                lemma_same_columns_pushed(
                    below,
                    current,
                    Frame::Inline(InlineState::ListItem(kind, ListItemState::ItemText), attrs),
                    0,
                );
            } else {
                lemma_inline_moves(
                    context,
                    below,
                    InlineState::ListItem(kind, progress),
                    attrs,
                    data,
                    event,
                    fetched,
                );
            }
        },
        _ => {
            lemma_inline_moves(
                context,
                below,
                InlineState::ListItem(kind, progress),
                attrs,
                data,
                event,
                fetched,
            );
            if event is Start {
                lemma_entered(below, current, current, t.state.current());
                assert(t.state == below.pushed(current).pushed(t.state.current())) by {
                    assert(t.state.frames =~= below.pushed(current).frames.push(
                        t.state.current(),
                    ));
                }
            }
        },
    }
}

/// Every event that the rules allow moves the frames as `moves` says.
pub proof fn lemma_step_moves(
    context: Context,
    state: Frames,
    data: PendingLinks,
    event: Event,
    fetched: Fetched,
    next: Frames,
)
    requires
        transition(context, state, data, event, fetched) matches Some(t) && t.state == next,
    ensures
        moves(state, event, next),
{
    let t = transition(context, state, data, event, fetched).unwrap();
    if state.is_top_level() {
        assert(state == Frames::top(state.top_level)) by {
            assert(state.frames =~= Seq::empty());
        }
        lemma_top_level_moves(context, state.top_level, data, event, next);
    } else {
        let below = state.popped();
        let current = state.current();
        assert(state == below.pushed(current)) by {
            assert(state.frames =~= below.frames.push(current));
        }
        lemma_pushed(below, current);
        match current {
            Frame::StyledBlock(attrs) => {
                lemma_styled_block_moves(context, below, attrs, data, event, next);
            },
            Frame::Inline(InlineState::ListItem(kind, progress), attrs) => {
                lemma_list_item_moves(
                    context,
                    below,
                    kind,
                    progress,
                    attrs,
                    data,
                    event,
                    fetched,
                    next,
                );
            },
            Frame::Inline(inline, attrs) => {
                lemma_inline_moves(context, below, inline, attrs, data, event, fetched);
                if event is Start {
                    let new = t.state.current();
                    assert(t.state == below.pushed(current).pushed(new)) by {
                        assert(t.state.frames =~= below.pushed(current).frames.push(new));
                    }
                    lemma_entered(below, current, current, new);
                }
            },
            Frame::LiteralBlock(_) => {
                lemma_same_columns_self(state);
            },
            Frame::HighlightBlock(_, _) => {
                if event is Text {
                    lemma_same_columns_pushed(below, current, t.state.current(), 0);
                    assert(t.state == below.pushed(t.state.current())) by {
                        assert(t.state.frames =~= below.frames.push(t.state.current()));
                    }
                }
            },
            Frame::RenderedImage => {
                lemma_same_columns_self(state);
            },
        }
    }
}

/// The number of frames that `event` adds: one for the start of a part other
/// than an item, one less than none for the end of such a part, and none for
/// any other event.  An item moves the frame of its list and adds none.
pub open spec fn frames_added(event: Event) -> int {
    match event {
        Event::Start(Tag::Item) | Event::End(Tag::Item) => 0,
        Event::Start(_) => 1,
        Event::End(_) => -1,
        _ => 0,
    }
}

/// The start of a part pushes exactly one frame and the end of a part pops
/// exactly one, but for items, which push and pop nothing, as any other
/// event.
pub proof fn lemma_pushes_and_pops(
    context: Context,
    state: Frames,
    data: PendingLinks,
    event: Event,
    fetched: Fetched,
    next: Frames,
)
    requires
        transition(context, state, data, event, fetched) matches Some(t) && t.state == next,
    ensures
        next.depth() == state.depth() + frames_added(event),
{
    lemma_step_moves(context, state, data, event, fetched, next);
}

/// An event that moves the frames as `moves` says, and after which the parts
/// `open` are open where `before` were, leaves what the open parts tell of
/// the start as it was.
proof fn lemma_started_at_step(
    state: Frames,
    event: Event,
    next: Frames,
    before: Seq<TagKind>,
    open: Seq<TagKind>,
)
    requires
        moves(state, event, next),
        match event {
            Event::Start(tag) => open == before.push(tag.kind()),
            Event::End(tag) => before.len() > 0 && before.last() == tag.kind() && open
                == before.drop_last(),
            _ => open == before,
        },
    ensures
        started_at(next, open, 0) == started_at(state, before, 0),
{
    match event {
        Event::Start(tag) => {
            assert(open.drop_last() =~= before);
            assert(open.last() == tag.kind());
            if tag is Item {
                let width = marker_columns(state.current());
                let last = state.frames.len() - 1;
                assert(marker_columns(next.frames[last]) == marker_columns(state.frames[last]));
                lemma_started_at_same_columns(next, state, width, before, 0);
            } else {
                lemma_started_at_same_columns(next.popped(), state, 0, before, 0);
            }
        },
        Event::End(tag) => {
            if tag is Item {
                let width = marker_columns(state.current());
                lemma_started_at_same_columns(state, next, width, open, 0);
            } else {
                lemma_started_at_same_columns(next, state.popped(), 0, open, 0);
            }
        },
        _ => {
            lemma_started_at_same_columns(next, state, 0, open, 0);
        },
    }
}

/// In a rendering, the parts that are open after the first `k` events tell
/// the depth, the column and the style of the state before the first event.
proof fn lemma_open_parts_tell_start(
    context: Context,
    states: Seq<Frames>,
    events: Seq<Event>,
    k: int,
)
    requires
        rendering(context, states, events),
        0 <= k <= events.len(),
        open_parts(events.take(k)) is Some,
    ensures
        started_at(states[k], open_parts(events.take(k)).unwrap(), 0) == (
            states[0].depth(),
            states[0].indent(),
            states[0].style(),
        ),
    decreases k,
{
    if k == 0 {
        assert(events.take(0) =~= Seq::empty());
    } else {
        assert(events.take(k).drop_last() =~= events.take(k - 1));
        assert(events.take(k).last() == events[k - 1]);
        lemma_open_parts_tell_start(context, states, events, k - 1);
        let state = states[k - 1];
        let next = states[k];
        assert(may_follow(context, state, events[k - 1], next));
        let (data, fetched) = choose|data: PendingLinks, fetched: Fetched|
            (#[trigger] transition(context, state, data, events[k - 1], fetched)) matches Some(t)
                && t.state == next;
        lemma_step_moves(context, state, data, events[k - 1], fetched, next);
        lemma_started_at_step(
            state,
            events[k - 1],
            next,
            open_parts(events.take(k - 1)).unwrap(),
            open_parts(events.take(k)).unwrap(),
        );
    }
}

/// After a well-nested sequence of events, as many frames have been taken
/// away as were added, lines start at the column at which they started
/// before the first of the events, and text has the style that it had.
///
/// In particular, after the end of a part the indentation and the style are
/// those before its start: the events from a start to its end are well
/// nested.
pub proof fn lemma_well_nested_restores(context: Context, states: Seq<Frames>, events: Seq<Event>)
    requires
        rendering(context, states, events),
        well_nested(events),
    ensures
        states.last().depth() == states[0].depth(),
        states.last().indent() == states[0].indent(),
        states.last().style() == states[0].style(),
{
    assert(events.take(events.len() as int) =~= events);
    lemma_open_parts_tell_start(context, states, events, events.len() as int);
}

/// Whether `frame` is the frame of a code block, highlighted or not.
pub open spec fn is_code_block(frame: Frame) -> bool {
    frame is LiteralBlock || frame is HighlightBlock
}

/// A code block has one border at its start and one at its end, however many
/// texts of code come between: a text of code leaves the data as they are and
/// the block open, at its column; and the end of the block writes the border,
/// nothing else, and takes the frame of the block away.
pub proof fn lemma_code_block_borders(
    context: Context,
    below: Frames,
    block: Frame,
    data: PendingLinks,
    event: Event,
    fetched: Fetched,
)
    requires
        is_code_block(block),
        event is Text || (event matches Event::End(tag) && tag is CodeBlock),
    ensures
        transition(context, below.pushed(block), data, event, fetched) matches Some(t) && t.data
            == data && if event is Text {
            !t.state.is_top_level() && t.state.popped() == below && is_code_block(t.state.current())
                && (t.state.current() is HighlightBlock <==> block is HighlightBlock)
                && t.state.indent() == block.indent()
        } else {
            t.state == below && t.output == border_text(context.capabilities, context.size)
        },
{
    lemma_pushed(below, block);
    let t = transition(context, below.pushed(block), data, event, fetched).unwrap();
    if event is Text {
        lemma_pushed(below, t.state.current());
        assert(t.state == below.pushed(t.state.current())) by {
            assert(t.state.frames =~= below.frames.push(t.state.current()));
        }
    }
}

/// The first line of a text that holds a line feed is the first line of
/// that text with any other text behind it.
proof fn lemma_first_line_of_longer(a: Seq<char>, b: Seq<char>)
    requires
        ends_with_newline(a),
    ensures
        first_line_len(a + b) == first_line_len(a),
    decreases a.len(),
{
    if a[0] != '\n' {
        assert(a.len() > 1);
        assert((a + b).skip(1) =~= a.skip(1) + b);
        assert(a.skip(1).last() == a.last());
        lemma_first_line_of_longer(a.skip(1), b);
    }
}

/// The lines of a text that ends with a line feed, or is empty, and of the
/// text behind it, are the lines of the two texts joined.
pub proof fn lemma_lines_of_joined(a: Seq<char>, b: Seq<char>)
    requires
        a.len() == 0 || ends_with_newline(a),
    ensures
        lines_with_endings(a + b) == lines_with_endings(a) + lines_with_endings(b),
    decreases a.len(),
{
    if a.len() == 0 {
        assert(a + b =~= b);
        assert(lines_with_endings(a) + lines_with_endings(b) =~= lines_with_endings(b));
    } else {
        let n = first_line_len(a);
        lemma_first_line_len(a);
        lemma_first_line_of_longer(a, b);
        assert((a + b).take(n) =~= a.take(n));
        assert((a + b).skip(n) =~= a.skip(n) + b);
        if a.skip(n).len() > 0 {
            assert(a.skip(n).last() == a.last());
        }
        lemma_lines_of_joined(a.skip(n), b);
        assert(lines_with_endings(a + b) =~= lines_with_endings(a) + lines_with_endings(b));
    }
}

/// What is written for lines and more lines is what is written for the ones,
/// then what is written for the others.
pub proof fn lemma_literal_lines_joined(
    capabilities: TerminalCapabilities,
    style: Style,
    indent: u16,
    first: Seq<Seq<char>>,
    second: Seq<Seq<char>>,
)
    ensures
        literal_lines(capabilities, style, indent, first + second) == literal_lines(
            capabilities,
            style,
            indent,
            first,
        ) + literal_lines(capabilities, style, indent, second),
    decreases second.len(),
{
    if second.len() == 0 {
        assert(first + second =~= first);
        assert(literal_lines(capabilities, style, indent, first) + Seq::<char>::empty()
            =~= literal_lines(capabilities, style, indent, first));
    } else {
        assert((first + second).drop_last() =~= first + second.drop_last());
        assert((first + second).last() == second.last());
        lemma_literal_lines_joined(capabilities, style, indent, first, second.drop_last());
        assert(literal_lines(capabilities, style, indent, first + second) =~= literal_lines(
            capabilities,
            style,
            indent,
            first,
        ) + literal_lines(capabilities, style, indent, second));
    }
}

/// In a code block that is written as it is, it makes no difference whether
/// code comes in one text or in two, where the first of the two ends with a
/// line feed: the same is written, and the state is the same after it.
pub proof fn lemma_literal_block_chunks(
    context: Context,
    below: Frames,
    attrs: LiteralBlockAttrs,
    data: PendingLinks,
    first: String,
    second: String,
    whole: String,
    fetched: Fetched,
)
    requires
        whole@ == first@ + second@,
        first@.len() == 0 || ends_with_newline(first@),
    ensures
        ({
            let state = below.pushed(Frame::LiteralBlock(attrs));
            let one = transition(context, state, data, Event::Text(first), fetched).unwrap();
            let two = transition(context, one.state, one.data, Event::Text(second), fetched).unwrap();
            let both = transition(context, state, data, Event::Text(whole), fetched).unwrap();
            &&& both.output == one.output + two.output
            &&& both.state == two.state
            &&& both.data == two.data
        }),
{
    lemma_pushed(below, Frame::LiteralBlock(attrs));
    lemma_lines_of_joined(first@, second@);
    lemma_literal_lines_joined(
        context.capabilities,
        attrs.style,
        attrs.indent,
        lines_with_endings(first@),
        lines_with_endings(second@),
    );
}

/// What is written for lines and more lines of a highlighted code block is
/// what is written for the ones, then what is written for the others as lines
/// that follow the ones.
pub proof fn lemma_highlighted_code_joined(
    highlighted: Highlighted,
    indent: u16,
    first: Seq<Seq<char>>,
    second: Seq<Seq<char>>,
)
    ensures
        highlighted_code(highlighted, indent, first + second) == highlighted_code(
            highlighted,
            indent,
            first,
        ) + highlighted_code(highlighted.after(first), indent, second),
    decreases second.len(),
{
    if second.len() == 0 {
        assert(first + second =~= first);
        assert(highlighted_code(highlighted, indent, first) + Seq::<char>::empty()
            =~= highlighted_code(highlighted, indent, first));
    } else {
        assert((first + second).drop_last() =~= first + second.drop_last());
        assert((first + second).last() == second.last());
        assert(highlighted.fed + (first + second.drop_last()) =~= highlighted.after(first).fed
            + second.drop_last());
        lemma_highlighted_code_joined(highlighted, indent, first, second.drop_last());
        assert(highlighted_code(highlighted, indent, first + second) =~= highlighted_code(
            highlighted,
            indent,
            first,
        ) + highlighted_code(highlighted.after(first), indent, second));
    }
}

/// In a code block that is highlighted, it makes no difference whether code
/// comes in one text or in two, where the first of the two ends with a line
/// feed: the same is written, and the state is the same after it.  The
/// highlighter goes on in the second text where the first left it.
pub proof fn lemma_highlighted_block_chunks(
    context: Context,
    below: Frames,
    indent: u16,
    highlighted: Highlighted,
    data: PendingLinks,
    first: String,
    second: String,
    whole: String,
    fetched: Fetched,
)
    requires
        whole@ == first@ + second@,
        first@.len() == 0 || ends_with_newline(first@),
    ensures
        ({
            let state = below.pushed(Frame::HighlightBlock(indent, highlighted));
            let one = transition(context, state, data, Event::Text(first), fetched).unwrap();
            let two = transition(context, one.state, one.data, Event::Text(second), fetched).unwrap();
            let both = transition(context, state, data, Event::Text(whole), fetched).unwrap();
            &&& both.output == one.output + two.output
            &&& both.state == two.state
            &&& both.data == two.data
        }),
{
    let lines = lines_with_endings(first@);
    let more = lines_with_endings(second@);
    lemma_pushed(below, Frame::HighlightBlock(indent, highlighted));
    lemma_pushed(below, Frame::HighlightBlock(indent, highlighted.after(lines)));
    lemma_lines_of_joined(first@, second@);
    lemma_highlighted_code_joined(highlighted, indent, lines, more);
    assert(highlighted.after(lines).after(more).fed =~= highlighted.after(lines + more).fed);
}

/// `text` with the indent of the column `indent` after each of its line
/// feeds.
pub open spec fn indented(text: Seq<char>, indent: u16) -> Seq<char>
    decreases text.len(),
{
    if text.len() == 0 {
        Seq::empty()
    } else {
        indented(text.drop_last(), indent).push(text.last()) + if text.last() == '\n' {
            spaces(indent as nat)
        } else {
            Seq::empty()
        }
    }
}

/// Indenting a text and the text behind it indents the two joined.
pub proof fn lemma_indented_joined(a: Seq<char>, b: Seq<char>, indent: u16)
    ensures
        indented(a + b, indent) == indented(a, indent) + indented(b, indent),
    decreases b.len(),
{
    if b.len() == 0 {
        assert(a + b =~= a);
        assert(indented(a, indent) + Seq::<char>::empty() =~= indented(a, indent));
    } else {
        assert((a + b).drop_last() =~= a + b.drop_last());
        assert((a + b).last() == b.last());
        lemma_indented_joined(a, b.drop_last(), indent);
        assert(indented(a + b, indent) =~= indented(a, indent) + indented(b, indent));
    }
}

/// Indenting a text without line feeds leaves it as it is.
proof fn lemma_indented_without_newline(text: Seq<char>, indent: u16)
    requires
        forall|i: int| 0 <= i < text.len() ==> text[i] != '\n',
    ensures
        indented(text, indent) == text,
    decreases text.len(),
{
    if text.len() > 0 {
        lemma_indented_without_newline(text.drop_last(), indent);
        assert(indented(text, indent) =~= text);
    }
}

/// Indenting one line puts the indent behind it if it ends with a line feed.
proof fn lemma_indented_line(line: Seq<char>, indent: u16)
    requires
        line.len() > 0,
        forall|i: int| 0 <= i < line.len() - 1 ==> line[i] != '\n',
    ensures
        indented(line, indent) == line + if ends_with_newline(line) {
            spaces(indent as nat)
        } else {
            Seq::<char>::empty()
        },
{
    lemma_indented_without_newline(line.drop_last(), indent);
    assert(line.drop_last().push(line.last()) =~= line);
}

/// Where the terminal shows no styles, what is written for the lines of a
/// text of code is the text, with the indent after each of its line feeds.
pub proof fn lemma_unstyled_lines(
    capabilities: TerminalCapabilities,
    style: Style,
    indent: u16,
    text: Seq<char>,
)
    requires
        capabilities.style is None,
    ensures
        literal_lines(capabilities, style, indent, lines_with_endings(text)) == indented(
            text,
            indent,
        ),
    decreases text.len(),
{
    if text.len() > 0 {
        let n = first_line_len(text);
        lemma_first_line_len(text);
        let first = text.take(n);
        let rest = text.skip(n);
        assert(first + rest =~= text);
        lemma_unstyled_lines(capabilities, style, indent, rest);
        lemma_literal_lines_joined(
            capabilities,
            style,
            indent,
            seq![first],
            lines_with_endings(rest),
        );
        lemma_indented_line(first, indent);
        lemma_indented_joined(first, rest, indent);
        let one = seq![first];
        assert(one.drop_last() =~= Seq::<Seq<char>>::empty());
        assert(one.last() == first);
        assert(literal_lines(capabilities, style, indent, one.drop_last()) =~= Seq::<char>::empty());
        assert(literal_lines(capabilities, style, indent, one) =~= indented(first, indent));
    }
}

/// In a code block that is written as it is on a terminal that shows no
/// styles, it makes no difference where code is cut into texts: whether it
/// comes in one text or in two, the same is written, and the state is the
/// same after it.
pub proof fn lemma_unstyled_block_chunks(
    context: Context,
    below: Frames,
    attrs: LiteralBlockAttrs,
    data: PendingLinks,
    first: String,
    second: String,
    whole: String,
    fetched: Fetched,
)
    requires
        whole@ == first@ + second@,
        context.capabilities.style is None,
    ensures
        ({
            let state = below.pushed(Frame::LiteralBlock(attrs));
            let one = transition(context, state, data, Event::Text(first), fetched).unwrap();
            let two = transition(context, one.state, one.data, Event::Text(second), fetched).unwrap();
            let both = transition(context, state, data, Event::Text(whole), fetched).unwrap();
            &&& both.output == one.output + two.output
            &&& both.state == two.state
            &&& both.data == two.data
        }),
{
    lemma_pushed(below, Frame::LiteralBlock(attrs));
    lemma_unstyled_lines(context.capabilities, attrs.style, attrs.indent, first@);
    lemma_unstyled_lines(context.capabilities, attrs.style, attrs.indent, second@);
    lemma_unstyled_lines(context.capabilities, attrs.style, attrs.indent, whole@);
    lemma_indented_joined(first@, second@, attrs.indent);
}

/// Whether the data `after` are the data `data` after one event: as they
/// were, or with the links that waited taken out, or with one link added.
pub open spec fn data_follow(data: PendingLinks, after: PendingLinks) -> bool {
    ||| after == data
    ||| after == data.taken()
    ||| data.next_link < u64::MAX && exists|target: Seq<char>, title: Seq<char>, colour: Colour|
        after == #[trigger] data.added(target, title, colour)
}

/// In inline text an event leaves the data as they are or adds a link.
proof fn lemma_inline_data(
    context: Context,
    below: Frames,
    inline: InlineState,
    attrs: InlineAttrs,
    data: PendingLinks,
    event: Event,
    fetched: Fetched,
)
    requires
        inline_step(context, below, inline, attrs, data, event, fetched) is Some,
    ensures
        data_follow(data, inline_step(context, below, inline, attrs, data, event, fetched).unwrap().data),
{
    let after = inline_step(context, below, inline, attrs, data, event, fetched).unwrap().data;
    match event {
        Event::End(Tag::Link(_, target, title)) => {
            if after != data {
                assert(after == data.added(target@, title@, Colour::Blue));
            }
        },
        Event::End(Tag::Image(_, target, title)) => {
            if after != data {
                assert(after == data.added(target@, title@, Colour::Purple));
            }
        },
        _ => {},
    }
}

/// In an item of a list an event leaves the data as they are or adds a link.
proof fn lemma_list_item_data(
    context: Context,
    below: Frames,
    kind: ListItemKind,
    progress: ListItemState,
    attrs: InlineAttrs,
    data: PendingLinks,
    event: Event,
    fetched: Fetched,
)
    requires
        list_item_step(context, below, kind, progress, attrs, data, event, fetched) is Some,
    ensures
        data_follow(
            data,
            list_item_step(context, below, kind, progress, attrs, data, event, fetched).unwrap().data,
        ),
{
    let after = list_item_step(
        context,
        below,
        kind,
        progress,
        attrs,
        data,
        event,
        fetched,
    ).unwrap().data;
    if after != data {
        lemma_inline_data(
            context,
            below,
            InlineState::ListItem(kind, progress),
            attrs,
            data,
            event,
            fetched,
        );
    }
}

/// Every event leaves the data as they are, takes the links out that wait, or
/// adds one link.  The links are taken out nowhere but before a heading at the
/// top level.
pub proof fn lemma_data_follow(
    context: Context,
    state: Frames,
    data: PendingLinks,
    event: Event,
    fetched: Fetched,
)
    requires
        transition(context, state, data, event, fetched) is Some,
    ensures
        data_follow(data, transition(context, state, data, event, fetched).unwrap().data),
        data.pending.len() > 0 && transition(
            context,
            state,
            data,
            event,
            fetched,
        ).unwrap().data.pending.len() == 0 ==> state.is_top_level() && (event matches Event::Start(
            tag,
        ) && tag is Heading),
{
    if !state.is_top_level() {
        let below = state.popped();
        match state.current() {
            Frame::Inline(InlineState::ListItem(kind, progress), attrs) => {
                lemma_list_item_data(context, below, kind, progress, attrs, data, event, fetched);
            },
            Frame::Inline(inline, attrs) => {
                lemma_inline_data(context, below, inline, attrs, data, event, fetched);
            },
            _ => {},
        }
    }
}

/// The numbers of the links that wait stay in order through every event: a
/// link that is added gets the next number, which no link had before, and
/// goes behind the others.
pub proof fn lemma_links_stay_numbered(
    context: Context,
    state: Frames,
    data: PendingLinks,
    event: Event,
    fetched: Fetched,
)
    requires
        data.numbered_in_order(),
        data.next_link >= 1,
        transition(context, state, data, event, fetched) is Some,
    ensures
        transition(context, state, data, event, fetched).unwrap().data.numbered_in_order(),
        transition(context, state, data, event, fetched).unwrap().data.next_link >= data.next_link,
{
    lemma_data_follow(context, state, data, event, fetched);
}

/// The end of an item of an ordered list makes the number for the next item
/// greater by one, and leaves a list without order as it is.
pub proof fn lemma_item_numbers(
    context: Context,
    below: Frames,
    kind: ListItemKind,
    progress: ListItemState,
    attrs: InlineAttrs,
    data: PendingLinks,
    fetched: Fetched,
)
    requires
        transition(
            context,
            below.pushed(Frame::Inline(InlineState::ListItem(kind, progress), attrs)),
            data,
            Event::End(Tag::Item),
            fetched,
        ) is Some,
    ensures
        transition(
            context,
            below.pushed(Frame::Inline(InlineState::ListItem(kind, progress), attrs)),
            data,
            Event::End(Tag::Item),
            fetched,
        ).unwrap().state.current() matches Frame::Inline(InlineState::ListItem(next, _), _)
            && match kind {
            ListItemKind::Unordered => next == ListItemKind::Unordered,
            ListItemKind::Ordered(number) => next == ListItemKind::Ordered((number + 1) as u64)
                && number + 1 <= u64::MAX,
        },
{
    lemma_pushed(below, Frame::Inline(InlineState::ListItem(kind, progress), attrs));
    let lowered = Frame::Inline(
        InlineState::ListItem(kind.next(), progress),
        InlineAttrs { indent: (attrs.indent - kind.marker_width()) as u16, style: attrs.style },
    );
    lemma_pushed(below, lowered);
}

/// Whether a blank line is due before the next block at the top level once
/// the parts that are open in `state` have ended.
pub open spec fn margin_due(state: Frames) -> bool {
    state.top_level.margin_before == MarginControl::Margin
}

/// Between two blocks at the top level there is one blank line: whenever a
/// block at the top level has started, a blank line is due before the next;
/// it stays due until the block has ended; and the block that starts where
/// one is due writes it, after the links that wait if it is a heading.  Only
/// markup held as it is leaves no blank line due behind it, for more of the
/// same.
pub proof fn lemma_margin_between_blocks(
    context: Context,
    state: Frames,
    data: PendingLinks,
    event: Event,
    fetched: Fetched,
    next: Frames,
)
    requires
        transition(context, state, data, event, fetched) matches Some(t) && t.state == next,
    ensures
        state.is_top_level() ==> margin_due(next) || event is Html,
        !state.is_top_level() ==> next.top_level == state.top_level,
        state.is_top_level() && margin_due(state) && !(event is Html) ==> ({
            let output = transition(context, state, data, event, fetched).unwrap().output;
            let before = if event matches Event::Start(Tag::Heading(_)) {
                link_refs_text(context, data.pending)
            } else {
                Seq::<char>::empty()
            };
            (before + newline()).is_prefix_of(output) && newline().len() == 1
        }),
{
    reveal_strlit("\n");
    let t = transition(context, state, data, event, fetched).unwrap();
    if state.is_top_level() {
        if margin_due(state) && !(event is Html) {
            let before = if event matches Event::Start(Tag::Heading(_)) {
                link_refs_text(context, data.pending)
            } else {
                Seq::<char>::empty()
            };
            let start = before + newline();
            assert(start =~= t.output.subrange(0, start.len() as int));
        }
    } else {
        let below = state.popped();
        match state.current() {
            Frame::Inline(InlineState::ListItem(kind, progress), attrs) => {
                assert(list_item_step(
                    context,
                    below,
                    kind,
                    progress,
                    attrs,
                    data,
                    event,
                    fetched,
                ).unwrap().state.top_level == state.top_level);
            },
            Frame::Inline(inline, attrs) => {
                assert(inline_step(
                    context,
                    below,
                    inline,
                    attrs,
                    data,
                    event,
                    fetched,
                ).unwrap().state.top_level == state.top_level);
            },
            _ => {},
        }
    }
}

} // verus!

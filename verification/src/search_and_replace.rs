//! Streaming SEARCH/REPLACE editing.
//!
//! A model's answer arrives as raw text deltas. Inside the answer, an edit is
//! written as a block of whole lines: a `<<<<<<< SEARCH` marker, the lines to
//! look for, a `=======` divider, the replacement lines, and a
//! `>>>>>>> REPLACE` marker. The accumulator in this module consumes the
//! deltas, recognizes blocks as soon as their lines are fully terminated,
//! locates each search section inside its line buffer, splices the
//! replacement in, and records an event stream that mirrors every edit.
//!
//! Every transition of the parser is specified by the spec functions
//! `step_char`, `step_line` and `feed`; the exec code is proved to follow
//! them exactly.

use vstd::prelude::*;

use crate::text_document::{Position, Range};
use crate::text_lines::{
    char_vec_to_string, count_char, lines_of, split_into_lines, split_rest, str_to_char_vec,
    strip_cr,
};

verus! {

/// The marker line that opens a block's search section.
pub open spec fn search_marker() -> Seq<char> {
    "<<<<<<< SEARCH"@
}

/// The divider line between a block's search and replacement sections.
pub open spec fn divider_marker() -> Seq<char> {
    "======="@
}

/// The marker line that closes a block's replacement section.
pub open spec fn replace_marker() -> Seq<char> {
    ">>>>>>> REPLACE"@
}

// ---------------------------------------------------------------------------
// Locating a search section inside the buffer
// ---------------------------------------------------------------------------

/// Resolution result scanning windows from local index `i` upward: the first
/// window of `needle.len()` consecutive buffer lines equal to `needle` wins,
/// and its absolute range is the window offset by `anchor`. Resolution fails
/// when no window matches, and also when the first matching window's
/// absolute end line would not fit in a machine word.
pub open spec fn resolve_rec(
    buffer: Seq<Seq<char>>,
    anchor: nat,
    needle: Seq<Seq<char>>,
    i: nat,
) -> Option<Range>
    decreases buffer.len() - i,
{
    if needle.len() == 0 || i + needle.len() > buffer.len() {
        None
    } else if buffer.subrange(i as int, (i + needle.len()) as int) == needle {
        if i + needle.len() - 1 + anchor <= usize::MAX {
            Some(
                Range::spec_lines(
                    #[verifier::truncate] ((i + anchor) as usize),
                    #[verifier::truncate] ((i + needle.len() - 1 + anchor) as usize),
                ),
            )
        } else {
            None
        }
    } else {
        resolve_rec(buffer, anchor, needle, i + 1)
    }
}

/// Where a candidate block of lines sits inside the buffer: the first
/// fully matching window of lines, scanned from the buffer's start. A
/// candidate without a single line never resolves.
pub open spec fn resolve_spec(
    buffer: Seq<Seq<char>>,
    anchor: nat,
    needle: Seq<Seq<char>>,
) -> Option<Range> {
    if needle.len() == 0 {
        None
    } else {
        resolve_rec(buffer, anchor, needle, 0)
    }
}

/// A resolved range is an in-bounds window of the buffer that matches the
/// needle, whose absolute line numbers start at or after the anchor.
pub proof fn lemma_resolve_rec_ok(
    buffer: Seq<Seq<char>>,
    anchor: nat,
    needle: Seq<Seq<char>>,
    i: nat,
)
    requires
        needle.len() > 0,
        resolve_rec(buffer, anchor, needle, i) is Some,
    ensures
        ({
            let r = resolve_rec(buffer, anchor, needle, i)->Some_0;
            &&& anchor <= r.spec_start_line()
            &&& r.spec_start_line() <= r.spec_end_line()
            &&& r.spec_end_line() - r.spec_start_line() + 1 == needle.len()
            &&& r.spec_end_line() - anchor < buffer.len()
            &&& buffer.subrange(
                r.spec_start_line() - anchor,
                r.spec_end_line() - anchor + 1,
            ) == needle
        }),
    decreases buffer.len() - i,
{
    if i + needle.len() > buffer.len() {
    } else if buffer.subrange(i as int, (i + needle.len()) as int) == needle {
    } else {
        lemma_resolve_rec_ok(buffer, anchor, needle, i + 1);
    }
}

/// Compares `needle` against the window of buffer lines starting at `i`.
fn window_matches_at(code_lines: &Vec<String>, i: usize, search_lines: &Vec<String>) -> (r: bool)
    requires
        i + search_lines@.len() <= code_lines@.len(),
    ensures
        r == (code_lines.deep_view().subrange(
            i as int,
            i + search_lines.deep_view().len(),
        ) == search_lines.deep_view()),
{
    let k = search_lines.len();
    let n = code_lines.len();
    let ghost cw = code_lines.deep_view();
    let ghost nw = search_lines.deep_view();
    for j in 0..k
        invariant
            k == nw.len(),
            n == cw.len(),
            i + k <= n,
            cw == code_lines.deep_view(),
            nw == search_lines.deep_view(),
            forall|t: int| 0 <= t < j ==> cw[i + t] == nw[t],
    {
        if !(code_lines[i + j] == search_lines[j]) {
            proof {
                assert(cw[i + j] != nw[j as int]);
                assert(cw.subrange(i as int, i + k) != nw) by {
                    assert(cw.subrange(i as int, i + k)[j as int] == cw[i + j]);
                }
            }
            return false;
        }
    }
    proof {
        assert(cw.subrange(i as int, i + k) =~= nw);
    }
    true
}

/// Finds the first window of `code_lines` that equals `search_lines`,
/// returning the absolute inclusive line range it covers.
fn resolve_block(code_lines: &Vec<String>, start_line: usize, search_lines: &Vec<String>) -> (r:
    Option<Range>)
    ensures
        r == resolve_spec(code_lines.deep_view(), start_line as nat, search_lines.deep_view()),
{
    let ghost cw = code_lines.deep_view();
    let ghost nw = search_lines.deep_view();
    let k = search_lines.len();
    if k == 0 {
        return None;
    }
    let n = code_lines.len();
    if k > n {
        return None;
    }
    let mut i: usize = 0;
    while i <= n - k
        invariant
            k == nw.len(),
            n == cw.len(),
            0 < k <= n,
            i <= n,
            cw == code_lines.deep_view(),
            nw == search_lines.deep_view(),
            resolve_spec(cw, start_line as nat, nw) == resolve_rec(
                cw,
                start_line as nat,
                nw,
                i as nat,
            ),
        decreases n - i,
    {
        if window_matches_at(code_lines, i, search_lines) {
            // The window matches; its absolute end line must be representable.
            if i + (k - 1) <= usize::MAX - start_line {
                let start_abs = i + start_line;
                let end_abs = i + (k - 1) + start_line;
                let range = Range::new(
                    Position::new(start_abs, 0, 0),
                    Position::new(end_abs, 0, 0),
                );
                proof {
                    assert(range == Range::spec_lines(start_abs, end_abs));
                }
                return Some(range);
            } else {
                return None;
            }
        }
        i = i + 1;
    }
    proof {
        assert(i + k > n);
        assert(resolve_rec(cw, start_line as nat, nw, i as nat) is None);
    }
    None
}

/// Locates `search_block` inside `code_to_look_at`: the first window of
/// consecutive lines equal to the lines of `search_block`, reported as an
/// absolute inclusive line range counted from `start_line`.
pub fn get_range_for_search_block(
    code_to_look_at: &str,
    start_line: usize,
    search_block: &str,
) -> (r: Option<Range>)
    ensures
        r == resolve_spec(lines_of(code_to_look_at@), start_line as nat, lines_of(search_block@)),
{
    let code_lines = split_into_lines(code_to_look_at);
    let search_lines = split_into_lines(search_block);
    resolve_block(&code_lines, start_line, &search_lines)
}

/// The number of lines of `s` that are fully terminated by a newline: the
/// count of `'\n'` characters, or nothing when no line has ended yet.
pub fn get_last_newline_line_number(s: &str) -> (r: Option<usize>)
    ensures
        count_char(s@, '\n') == 0 ==> r is None,
        count_char(s@, '\n') > 0 ==> r == Some(count_char(s@, '\n') as usize),
{
    let chars = str_to_char_vec(s);
    let n = chars.len();
    let mut count: usize = 0;
    proof {
        lemma_count_char_le_len(s@, '\n');
        assert(s@.skip(0) =~= s@);
    }
    for i in 0..n
        invariant
            n == s@.len(),
            chars@ == s@,
            count == count_char(s@, '\n') - count_char(s@.skip(i as int), '\n'),
            count <= i,
    {
        proof {
            assert(s@.skip(i as int).len() > 0);
            assert(s@.skip(i as int)[0] == s@[i as int]);
            assert(s@.skip(i as int).drop_first() =~= s@.skip(i + 1));
            lemma_count_char_le_len(s@.skip(i as int), '\n');
        }
        if chars[i] == '\n' {
            count = count + 1;
        }
    }
    proof {
        assert(s@.skip(n as int) =~= Seq::<char>::empty());
    }
    if count == 0 {
        None
    } else {
        Some(count)
    }
}

/// A text never holds more occurrences of a character than characters.
proof fn lemma_count_char_le_len(s: Seq<char>, c: char)
    ensures
        count_char(s, c) <= s.len(),
    decreases s.len(),
{
    if s.len() > 0 {
        lemma_count_char_le_len(s.drop_first(), c);
    }
}

// ---------------------------------------------------------------------------
// The parser's ghost model
// ---------------------------------------------------------------------------

/// One edit event, as the specification sees it.
#[verifier::ext_equal]
pub enum EditEvent {
    /// A block's search section resolved to this range; its replacement is
    /// about to stream.
    Started(Range),
    /// One fragment of the replacement text for the block at this range.
    Delta(Range, Seq<char>),
    /// The block at this range closed and its replacement has been applied.
    Ended(Range),
}

/// The parser's position inside a block, as the specification sees it.
#[verifier::ext_equal]
pub enum BlockStatus {
    /// Outside any block, scanning for the opening marker.
    NoBlock,
    /// The opening marker was just consumed; the next line starts the search
    /// section.
    BlockStart,
    /// Accumulating the search section's lines.
    BlockAccumulate(Seq<Seq<char>>),
    /// The search section resolved to a range; accumulating the replacement.
    BlockFound(Seq<Seq<char>>, Range),
}

/// The whole state of the streaming parser.
#[verifier::ext_equal]
pub struct AccumulatorModel {
    /// The buffer being edited, line by line, with all completed blocks
    /// already applied.
    pub buffer: Seq<Seq<char>>,
    /// The absolute line number of the buffer's first line.
    pub anchor: nat,
    /// Characters of the still unterminated final line of the answer.
    pub tail: Seq<char>,
    /// Where the parser stands inside a block.
    pub status: BlockStatus,
    /// The replacement lines of the open block, line by line, none yet if no
    /// fragment has arrived.
    pub pending: Option<Seq<Seq<char>>>,
    /// Every event emitted so far, in emission order.
    pub events: Seq<EditEvent>,
}

/// The buffer after the block at `r` is replaced by `replacement`: the lines
/// strictly before the range, the replacement lines, and the lines strictly
/// after the range.
pub open spec fn apply_replacement(
    buffer: Seq<Seq<char>>,
    anchor: nat,
    r: Range,
    replacement: Seq<Seq<char>>,
) -> Seq<Seq<char>> {
    buffer.subrange(0, r.spec_start_line() - anchor) + replacement + buffer.skip(
        r.spec_end_line() - anchor + 1,
    )
}

/// The transition table of the parser, applied to one fully terminated line.
pub open spec fn step_line(m: AccumulatorModel, line: Seq<char>) -> AccumulatorModel {
    match m.status {
        BlockStatus::NoBlock => {
            if line == search_marker() {
                AccumulatorModel { status: BlockStatus::BlockStart, ..m }
            } else {
                m
            }
        },
        BlockStatus::BlockStart => AccumulatorModel {
            status: BlockStatus::BlockAccumulate(seq![line]),
            ..m
        },
        BlockStatus::BlockAccumulate(acc) => {
            if line == divider_marker() {
                match resolve_spec(m.buffer, m.anchor, acc) {
                    Some(r) => AccumulatorModel {
                        status: BlockStatus::BlockFound(acc, r),
                        events: m.events.push(EditEvent::Started(r)),
                        ..m
                    },
                    None => AccumulatorModel { status: BlockStatus::NoBlock, ..m },
                }
            } else {
                AccumulatorModel { status: BlockStatus::BlockAccumulate(acc.push(line)), ..m }
            }
        },
        BlockStatus::BlockFound(acc, r) => {
            if line == replace_marker() {
                // The gathered replacement is spliced in unconditionally: a
                // replacement section of zero lines deletes the range.
                let patched = match m.pending {
                    Some(p) => apply_replacement(m.buffer, m.anchor, r, p),
                    None => apply_replacement(m.buffer, m.anchor, r, Seq::empty()),
                };
                AccumulatorModel {
                    buffer: patched,
                    status: BlockStatus::NoBlock,
                    pending: None,
                    events: m.events.push(EditEvent::Ended(r)),
                    ..m
                }
            } else {
                match m.pending {
                    None => AccumulatorModel {
                        pending: Some(seq![line]),
                        events: m.events.push(EditEvent::Delta(r, line)),
                        ..m
                    },
                    Some(p) => AccumulatorModel {
                        pending: Some(p.push(line)),
                        events: m.events.push(EditEvent::Delta(r, seq!['\n'] + line)),
                        ..m
                    },
                }
            }
        },
    }
}

/// Consuming one character of the answer: a newline closes the unterminated
/// line and runs the transition table on it; any other character extends it.
pub open spec fn step_char(m: AccumulatorModel, c: char) -> AccumulatorModel {
    if c == '\n' {
        step_line(AccumulatorModel { tail: Seq::empty(), ..m }, strip_cr(m.tail))
    } else {
        AccumulatorModel { tail: m.tail.push(c), ..m }
    }
}

/// Consuming a whole text, character by character.
pub open spec fn feed(m: AccumulatorModel, text: Seq<char>) -> AccumulatorModel
    decreases text.len(),
{
    if text.len() == 0 {
        m
    } else {
        feed(step_char(m, text[0]), text.drop_first())
    }
}

/// Consuming a sequence of whole lines through the transition table.
pub open spec fn step_lines(m: AccumulatorModel, lines: Seq<Seq<char>>) -> AccumulatorModel
    decreases lines.len(),
{
    if lines.len() == 0 {
        m
    } else {
        step_lines(step_line(m, lines[0]), lines.drop_first())
    }
}

/// The parser's state when it is created over a text anchored at a line.
pub open spec fn initial_model(code_to_edit: Seq<char>, anchor: nat) -> AccumulatorModel {
    AccumulatorModel {
        buffer: lines_of(code_to_edit),
        anchor,
        tail: Seq::empty(),
        status: BlockStatus::NoBlock,
        pending: None,
        events: Seq::empty(),
    }
}

// ---------------------------------------------------------------------------
// Replaying events over the original document
// ---------------------------------------------------------------------------

/// The state rebuilt by replaying events: the document and the replacement
/// lines gathered for the block that is still open.
#[verifier::ext_equal]
pub struct ReplayState {
    pub buffer: Seq<Seq<char>>,
    pub pending: Option<Seq<Seq<char>>>,
}

/// Replays one event. A `Delta` fragment after the first one carries a
/// leading newline, which the replay removes again; an `Ended` splices the
/// gathered replacement in — the empty replacement when no fragment arrived,
/// which deletes the range's lines.
pub open spec fn replay_step(st: ReplayState, anchor: nat, e: EditEvent) -> ReplayState {
    match e {
        EditEvent::Started(r) => ReplayState { pending: None, ..st },
        EditEvent::Delta(r, s) => match st.pending {
            None => ReplayState { pending: Some(seq![s]), ..st },
            Some(p) => ReplayState { pending: Some(p.push(s.drop_first())), ..st },
        },
        EditEvent::Ended(r) => match st.pending {
            Some(p) => ReplayState {
                buffer: apply_replacement(st.buffer, anchor, r, p),
                pending: None,
            },
            None => ReplayState {
                buffer: apply_replacement(st.buffer, anchor, r, Seq::empty()),
                pending: None,
            },
        },
    }
}

/// Replays a whole event sequence over the original document.
pub open spec fn replay(orig: Seq<Seq<char>>, anchor: nat, events: Seq<EditEvent>) -> ReplayState
    decreases events.len(),
{
    if events.len() == 0 {
        ReplayState { buffer: orig, pending: None }
    } else {
        replay_step(replay(orig, anchor, events.drop_last()), anchor, events.last())
    }
}

/// The range of the block that the event log leaves open: the range of the
/// last `Started` not yet answered by its `Ended`.
pub open spec fn open_range(events: Seq<EditEvent>) -> Option<Range>
    decreases events.len(),
{
    if events.len() == 0 {
        None
    } else {
        match events.last() {
            EditEvent::Started(r) => Some(r),
            EditEvent::Delta(r, s) => open_range(events.drop_last()),
            EditEvent::Ended(r) => None,
        }
    }
}

/// Whether one event may follow a log that leaves `open` open: a block
/// starts only while none is open, and a fragment or a close belongs to
/// exactly the block that is open.
pub open spec fn event_in_order(e: EditEvent, open: Option<Range>) -> bool {
    match e {
        EditEvent::Started(r) => open is None,
        EditEvent::Delta(r, s) => open == Some(r),
        EditEvent::Ended(r) => open == Some(r),
    }
}

/// Whether every event of the log arrived in order.
pub open spec fn events_ordered(events: Seq<EditEvent>) -> bool {
    forall|i: int|
        0 <= i < events.len() ==> event_in_order(#[trigger] events[i], open_range(events.take(i)))
}

/// Appending an event that is in order keeps the log ordered.
proof fn lemma_push_keeps_order(events: Seq<EditEvent>, e: EditEvent)
    requires
        events_ordered(events),
        event_in_order(e, open_range(events)),
    ensures
        events_ordered(events.push(e)),
{
    let bigger = events.push(e);
    assert forall|i: int| 0 <= i < bigger.len() implies event_in_order(
        #[trigger] bigger[i],
        open_range(bigger.take(i)),
    ) by {
        if i < events.len() {
            assert(bigger.take(i) =~= events.take(i));
            assert(bigger[i] == events[i]);
        } else {
            assert(bigger.take(i) =~= events);
        }
    }
}

/// What always holds of a parser that started over `orig`: its buffer and its
/// pending replacement are exactly what replaying its own events over `orig`
/// rebuilds; an open block's range lies inside the buffer; the event log is
/// properly bracketed, and it leaves a block open exactly while the parser
/// holds one.
pub open spec fn accumulator_inv(m: AccumulatorModel, orig: Seq<Seq<char>>) -> bool {
    &&& replay(orig, m.anchor, m.events).buffer == m.buffer
    &&& replay(orig, m.anchor, m.events).pending == m.pending
    &&& events_ordered(m.events)
    &&& open_range(m.events) == (match m.status {
        BlockStatus::BlockFound(acc, r) => Some(r),
        _ => Option::<Range>::None,
    })
    &&& match m.status {
        BlockStatus::BlockFound(acc, r) => {
            &&& m.anchor <= r.spec_start_line()
            &&& r.spec_start_line() <= r.spec_end_line()
            &&& r.spec_end_line() - m.anchor < m.buffer.len()
        },
        _ => m.pending is None,
    }
}

/// The transition table preserves the parser's invariant.
pub proof fn lemma_step_line_preserves_inv(
    m: AccumulatorModel,
    orig: Seq<Seq<char>>,
    line: Seq<char>,
)
    requires
        accumulator_inv(m, orig),
    ensures
        accumulator_inv(step_line(m, line), orig),
        step_line(m, line).anchor == m.anchor,
{
    let m2 = step_line(m, line);
    match m.status {
        BlockStatus::NoBlock => {},
        BlockStatus::BlockStart => {},
        BlockStatus::BlockAccumulate(acc) => {
            if line == divider_marker() {
                match resolve_spec(m.buffer, m.anchor, acc) {
                    Some(r) => {
                        assert(acc.len() > 0);
                        lemma_resolve_rec_ok(m.buffer, m.anchor, acc, 0);
                        let ev = EditEvent::Started(r);
                        assert(m.events.push(ev).drop_last() =~= m.events);
                        assert(replay(orig, m.anchor, m2.events) == replay_step(
                            replay(orig, m.anchor, m.events),
                            m.anchor,
                            ev,
                        ));
                        lemma_push_keeps_order(m.events, ev);
                        assert(m2.events.last() == ev);
                    },
                    None => {},
                }
            }
        },
        BlockStatus::BlockFound(acc, r) => {
            if line == replace_marker() {
                let ev = EditEvent::Ended(r);
                assert(m.events.push(ev).drop_last() =~= m.events);
                assert(replay(orig, m.anchor, m2.events) == replay_step(
                    replay(orig, m.anchor, m.events),
                    m.anchor,
                    ev,
                ));
                lemma_push_keeps_order(m.events, ev);
                assert(m2.events.last() == ev);
            } else {
                match m.pending {
                    None => {
                        let ev = EditEvent::Delta(r, line);
                        assert(m.events.push(ev).drop_last() =~= m.events);
                        assert(replay(orig, m.anchor, m2.events) == replay_step(
                            replay(orig, m.anchor, m.events),
                            m.anchor,
                            ev,
                        ));
                        lemma_push_keeps_order(m.events, ev);
                        assert(m2.events.last() == ev);
                    },
                    Some(p) => {
                        let ev = EditEvent::Delta(r, seq!['\n'] + line);
                        assert(m.events.push(ev).drop_last() =~= m.events);
                        assert(replay(orig, m.anchor, m2.events) == replay_step(
                            replay(orig, m.anchor, m.events),
                            m.anchor,
                            ev,
                        ));
                        assert((seq!['\n'] + line).drop_first() =~= line);
                        assert(m2.pending == Some(p.push(line)));
                        lemma_push_keeps_order(m.events, ev);
                        assert(m2.events.last() == ev);
                    },
                }
            }
        },
    }
}

/// Consuming one character preserves the parser's invariant.
pub proof fn lemma_step_char_preserves_inv(m: AccumulatorModel, orig: Seq<Seq<char>>, c: char)
    requires
        accumulator_inv(m, orig),
    ensures
        accumulator_inv(step_char(m, c), orig),
        step_char(m, c).anchor == m.anchor,
{
    if c == '\n' {
        lemma_step_line_preserves_inv(
            AccumulatorModel { tail: Seq::empty(), ..m },
            orig,
            strip_cr(m.tail),
        );
    }
}

/// Consuming any text preserves the parser's invariant.
pub proof fn lemma_feed_preserves_inv(m: AccumulatorModel, orig: Seq<Seq<char>>, text: Seq<char>)
    requires
        accumulator_inv(m, orig),
    ensures
        accumulator_inv(feed(m, text), orig),
        feed(m, text).anchor == m.anchor,
    decreases text.len(),
{
    if text.len() > 0 {
        lemma_step_char_preserves_inv(m, orig, text[0]);
        lemma_feed_preserves_inv(step_char(m, text[0]), orig, text.drop_first());
    }
}

/// Consuming a text one character more: the last character is consumed last.
pub proof fn lemma_feed_snoc(m: AccumulatorModel, text: Seq<char>, c: char)
    ensures
        feed(m, text.push(c)) == step_char(feed(m, text), c),
    decreases text.len(),
{
    if text.len() == 0 {
        assert(text.push(c).drop_first() =~= Seq::<char>::empty());
        assert(text.push(c)[0] == c);
        assert(feed(m, text.push(c)) == feed(step_char(m, c), text.push(c).drop_first()));
        assert(feed(step_char(m, c), text.push(c).drop_first()) == step_char(m, c));
        assert(feed(m, text) == m);
    } else {
        assert(text.push(c).drop_first() =~= text.drop_first().push(c));
        assert(text.push(c)[0] == text[0]);
        assert(feed(m, text.push(c)) == feed(step_char(m, text[0]), text.drop_first().push(c)));
        lemma_feed_snoc(step_char(m, text[0]), text.drop_first(), c);
        assert(feed(m, text) == feed(step_char(m, text[0]), text.drop_first()));
    }
}

// ---------------------------------------------------------------------------
// The exec parser
// ---------------------------------------------------------------------------

/// One edit event emitted by the accumulator.
#[derive(Debug, PartialEq)]
pub enum EditDelta {
    /// A block's search section resolved to this range.
    EditStarted(Range),
    /// One fragment of the replacement text for the block at this range.
    /// Fragments after the first carry a leading newline, so that naive
    /// concatenation by the receiver reconstructs the text exactly.
    EditDelta((Range, String)),
    /// The block at this range closed.
    EditEnd(Range),
}

impl View for EditDelta {
    type V = EditEvent;

    open spec fn view(&self) -> EditEvent {
        match self {
            EditDelta::EditStarted(r) => EditEvent::Started(*r),
            EditDelta::EditDelta((r, s)) => EditEvent::Delta(*r, s@),
            EditDelta::EditEnd(r) => EditEvent::Ended(*r),
        }
    }
}

impl DeepView for EditDelta {
    type V = EditEvent;

    open spec fn deep_view(&self) -> EditEvent {
        self@
    }
}

/// Where the parser stands inside a block.
#[derive(Debug, PartialEq)]
pub enum SearchBlockStatus {
    /// Outside any block, scanning for the opening marker.
    NoBlock,
    /// The opening marker was just consumed.
    BlockStart,
    /// Accumulating the search section's lines.
    BlockAccumulate(Vec<String>),
    /// The search section resolved to a range; accumulating the replacement.
    BlockFound((Vec<String>, Range)),
}

impl View for SearchBlockStatus {
    type V = BlockStatus;

    open spec fn view(&self) -> BlockStatus {
        match self {
            SearchBlockStatus::NoBlock => BlockStatus::NoBlock,
            SearchBlockStatus::BlockStart => BlockStatus::BlockStart,
            SearchBlockStatus::BlockAccumulate(acc) => BlockStatus::BlockAccumulate(
                acc.deep_view(),
            ),
            SearchBlockStatus::BlockFound((acc, r)) => BlockStatus::BlockFound(acc.deep_view(), *r),
        }
    }
}

/// The streaming parser: it consumes raw answer deltas, keeps the buffer
/// being edited, and records every edit event it emits.
pub struct SearchAndReplaceAccumulator {
    code_lines: Vec<String>,
    start_line: usize,
    answer_tail: Vec<char>,
    search_block_status: SearchBlockStatus,
    updated_block: Option<Vec<String>>,
    events: Vec<EditDelta>,
    original_code_lines: Ghost<Seq<Seq<char>>>,
}

impl View for SearchAndReplaceAccumulator {
    type V = AccumulatorModel;

    closed spec fn view(&self) -> AccumulatorModel {
        AccumulatorModel {
            buffer: self.code_lines.deep_view(),
            anchor: self.start_line as nat,
            tail: self.answer_tail@,
            status: self.search_block_status@,
            pending: match self.updated_block {
                Some(v) => Some(v.deep_view()),
                None => None,
            },
            events: self.events.deep_view(),
        }
    }
}

impl SearchAndReplaceAccumulator {
    /// The lines of the text the parser was created over, before any edit.
    pub closed spec fn original(&self) -> Seq<Seq<char>> {
        self.original_code_lines@
    }

    /// A parser is well formed when its invariant ties it to its original
    /// text.
    pub open spec fn wf(&self) -> bool {
        accumulator_inv(self@, self.original())
    }

    /// Creates a parser over the text being edited, whose first line sits at
    /// absolute line `start_line`.
    pub fn new(code_to_edit: String, start_line: usize) -> (r: Self)
        ensures
            r@ == initial_model(code_to_edit@, start_line as nat),
            r.original() == lines_of(code_to_edit@),
            r.wf(),
    {
        let code_lines = split_into_lines(code_to_edit.as_str());
        let r = SearchAndReplaceAccumulator {
            code_lines,
            start_line,
            answer_tail: Vec::new(),
            search_block_status: SearchBlockStatus::NoBlock,
            updated_block: None,
            events: Vec::new(),
            original_code_lines: Ghost(lines_of(code_to_edit@)),
        };
        proof {
            assert(r.events.deep_view() =~= Seq::<EditEvent>::empty());
            assert(r@ =~~= initial_model(code_to_edit@, start_line as nat));
        }
        r
    }

    /// The current buffer, line by line, with all completed blocks applied.
    pub fn code_lines(&self) -> (r: Vec<String>)
        ensures
            r.deep_view() == self@.buffer,
    {
        clone_string_vec(&self.code_lines)
    }

    /// The absolute line number of the buffer's first line.
    pub fn start_line(&self) -> (r: usize)
        ensures
            r as nat == self@.anchor,
    {
        self.start_line
    }

    /// Every event emitted so far, in emission order.
    pub fn events(&self) -> (r: &Vec<EditDelta>)
        ensures
            r.deep_view() == self@.events,
    {
        &self.events
    }

    /// Feeds one raw delta of the model's answer. Every line the delta
    /// completes is consumed through the transition table; a trailing
    /// unterminated line is kept for later.
    pub fn add_delta(&mut self, delta: String)
        requires
            old(self).wf(),
        ensures
            final(self)@ == feed(old(self)@, delta@),
            final(self).original() == old(self).original(),
            final(self).wf(),
    {
        let chars = str_to_char_vec(delta.as_str());
        let n = chars.len();
        proof {
            assert(delta@.take(0) =~= Seq::<char>::empty());
        }
        for i in 0..n
            invariant
                n == delta@.len(),
                chars@ == delta@,
                self@ == feed(old(self)@, delta@.take(i as int)),
                self.original() == old(self).original(),
                accumulator_inv(self@, self.original()),
        {
            let ghost m = self@;
            let c = chars[i];
            proof {
                assert(delta@.take(i + 1) =~= delta@.take(i as int).push(delta@[i as int]));
                lemma_feed_snoc(old(self)@, delta@.take(i as int), delta@[i as int]);
                lemma_step_char_preserves_inv(m, self.original(), delta@[i as int]);
            }
            if c == '\n' {
                let mut tail_chars: Vec<char> = Vec::new();
                core::mem::swap(&mut tail_chars, &mut self.answer_tail);
                if tail_chars.len() > 0 && tail_chars[tail_chars.len() - 1] == '\r' {
                    tail_chars.pop();
                }
                let line = char_vec_to_string(&tail_chars);
                proof {
                    assert(line@ =~= strip_cr(m.tail));
                    assert(self@ =~~= (AccumulatorModel { tail: Seq::empty(), ..m }));
                }
                self.process_line(line);
            } else {
                self.answer_tail.push(c);
                proof {
                    assert(self@ =~~= step_char(m, delta@[i as int]));
                }
            }
        }
        proof {
            assert(delta@.take(n as int) =~= delta@);
        }
    }

    /// Runs the transition table on one fully terminated line.
    fn process_line(&mut self, line: String)
        requires
            accumulator_inv(old(self)@, old(self).original()),
        ensures
            final(self)@ == step_line(old(self)@, line@),
            final(self).original() == old(self).original(),
    {
        let ghost m = self@;
        let ghost lv = line@;
        let mut status = SearchBlockStatus::NoBlock;
        core::mem::swap(&mut status, &mut self.search_block_status);
        match status {
            SearchBlockStatus::NoBlock => {
                let head = "<<<<<<< SEARCH".to_owned();
                if line == head {
                    self.search_block_status = SearchBlockStatus::BlockStart;
                }
                proof {
                    assert(self@ =~~= step_line(m, lv));
                }
            },
            SearchBlockStatus::BlockStart => {
                let mut acc: Vec<String> = Vec::new();
                acc.push(line);
                self.search_block_status = SearchBlockStatus::BlockAccumulate(acc);
                proof {
                    assert(acc.deep_view() =~= seq![lv]);
                    assert(self@ =~~= step_line(m, lv));
                }
            },
            SearchBlockStatus::BlockAccumulate(mut acc) => {
                let divider = "=======".to_owned();
                if line == divider {
                    let range = resolve_block(&self.code_lines, self.start_line, &acc);
                    match range {
                        Some(range) => {
                            self.events.push(EditDelta::EditStarted(range));
                            self.search_block_status = SearchBlockStatus::BlockFound(
                                (acc, range),
                            );
                            proof {
                                assert(self.events.deep_view() =~= m.events.push(
                                    EditEvent::Started(range),
                                ));
                                assert(self@ =~~= step_line(m, lv));
                            }
                        },
                        None => {
                            proof {
                                assert(self@ =~~= step_line(m, lv));
                            }
                        },
                    }
                } else {
                    let ghost accdv = acc.deep_view();
                    acc.push(line);
                    self.search_block_status = SearchBlockStatus::BlockAccumulate(acc);
                    proof {
                        assert(acc.deep_view() =~= accdv.push(lv));
                        assert(self@ =~~= step_line(m, lv));
                    }
                }
            },
            SearchBlockStatus::BlockFound((acc, block_range)) => {
                let updated = ">>>>>>> REPLACE".to_owned();
                if line == updated {
                    let mut pending: Option<Vec<String>> = None;
                    core::mem::swap(&mut pending, &mut self.updated_block);
                    // A replacement section of zero lines is spliced in all
                    // the same, deleting the range's lines.
                    let replacement = match pending {
                        Some(p) => p,
                        None => Vec::new(),
                    };
                    proof {
                        if m.pending is None {
                            assert(replacement.deep_view() =~= Seq::<Seq<char>>::empty());
                        }
                    }
                    self.apply_patch(&block_range, replacement);
                    self.events.push(EditDelta::EditEnd(block_range));
                    proof {
                        assert(self.events.deep_view() =~= m.events.push(
                            EditEvent::Ended(block_range),
                        ));
                        assert(self@ =~~= step_line(m, lv));
                    }
                } else {
                    let mut pending: Option<Vec<String>> = None;
                    core::mem::swap(&mut pending, &mut self.updated_block);
                    match pending {
                        None => {
                            let frag = line.clone();
                            let mut v: Vec<String> = Vec::new();
                            v.push(line);
                            self.updated_block = Some(v);
                            self.events.push(EditDelta::EditDelta((block_range, frag)));
                            proof {
                                assert(v.deep_view() =~= seq![lv]);
                                assert(self.events.deep_view() =~= m.events.push(
                                    EditEvent::Delta(block_range, lv),
                                ));
                            }
                        },
                        Some(mut p) => {
                            let ghost pdv = p.deep_view();
                            let mut frag = "\n".to_owned();
                            frag.append(line.as_str());
                            p.push(line);
                            self.updated_block = Some(p);
                            self.events.push(EditDelta::EditDelta((block_range, frag)));
                            proof {
                                reveal_strlit("\n");
                                assert(frag@ =~= seq!['\n'] + lv);
                                assert(p.deep_view() =~= pdv.push(lv));
                                assert(self.events.deep_view() =~= m.events.push(
                                    EditEvent::Delta(block_range, seq!['\n'] + lv),
                                ));
                            }
                        },
                    }
                    self.search_block_status = SearchBlockStatus::BlockFound(
                        (acc, block_range),
                    );
                    proof {
                        assert(self@ =~~= step_line(m, lv));
                    }
                }
            },
        }
    }

    /// Replaces the resolved block with the gathered replacement lines.
    fn apply_patch(&mut self, block_range: &Range, replacement: Vec<String>)
        requires
            old(self).start_line <= block_range.spec_start_line(),
            block_range.spec_start_line() <= block_range.spec_end_line(),
            block_range.spec_end_line() - old(self).start_line < old(self).code_lines@.len(),
        ensures
            final(self).code_lines.deep_view() == apply_replacement(
                old(self).code_lines.deep_view(),
                old(self).start_line as nat,
                *block_range,
                replacement.deep_view(),
            ),
            final(self).start_line == old(self).start_line,
            final(self).answer_tail == old(self).answer_tail,
            final(self).search_block_status == old(self).search_block_status,
            final(self).updated_block == old(self).updated_block,
            final(self).events == old(self).events,
            final(self).original_code_lines == old(self).original_code_lines,
    {
        let start_local = block_range.start_line() - self.start_line;
        let end_local = block_range.end_line() - self.start_line;
        let n = self.code_lines.len();
        let k = replacement.len();
        let mut out: Vec<String> = Vec::new();
        for idx in 0..start_local
            invariant
                start_local <= end_local < n,
                n == self.code_lines@.len(),
                out@.len() == idx,
                forall|t: int| 0 <= t < idx ==> out@[t] == self.code_lines@[t],
        {
            out.push(self.code_lines[idx].clone());
        }
        for j in 0..k
            invariant
                k == replacement@.len(),
                start_local <= end_local < n,
                n == self.code_lines@.len(),
                out@.len() == start_local + j,
                forall|t: int| 0 <= t < start_local ==> out@[t] == self.code_lines@[t],
                forall|t: int|
                    start_local <= t < start_local + j ==> out@[t] == replacement@[t
                        - start_local],
        {
            out.push(replacement[j].clone());
        }
        let mut idx = end_local + 1;
        while idx < n
            invariant
                k == replacement@.len(),
                start_local <= end_local < n,
                end_local + 1 <= idx <= n,
                n == self.code_lines@.len(),
                out@.len() == start_local + k + (idx - end_local - 1),
                forall|t: int| 0 <= t < start_local ==> out@[t] == self.code_lines@[t],
                forall|t: int|
                    start_local <= t < start_local + k ==> out@[t] == replacement@[t
                        - start_local],
                forall|t: int|
                    start_local + k <= t < out@.len() ==> out@[t] == self.code_lines@[t - (
                    start_local + k) + end_local + 1],
            decreases n - idx,
        {
            out.push(self.code_lines[idx].clone());
            idx = idx + 1;
        }
        let ghost buf = self.code_lines.deep_view();
        self.code_lines = out;
        proof {
            assert(self.code_lines.deep_view() =~= apply_replacement(
                buf,
                self.start_line as nat,
                *block_range,
                replacement.deep_view(),
            ));
        }
    }
}

// ---------------------------------------------------------------------------
// Laws of the streaming parser
// ---------------------------------------------------------------------------

/// The concatenation of a sequence of text chunks.
pub open spec fn concat_all(chunks: Seq<Seq<char>>) -> Seq<char>
    decreases chunks.len(),
{
    if chunks.len() == 0 {
        Seq::empty()
    } else {
        chunks[0] + concat_all(chunks.drop_first())
    }
}

/// Consuming a sequence of text chunks one after the other.
pub open spec fn feed_chunks(m: AccumulatorModel, chunks: Seq<Seq<char>>) -> AccumulatorModel
    decreases chunks.len(),
{
    if chunks.len() == 0 {
        m
    } else {
        feed_chunks(feed(m, chunks[0]), chunks.drop_first())
    }
}

/// Consuming two texts one after the other consumes their concatenation.
pub proof fn lemma_feed_concat(m: AccumulatorModel, a: Seq<char>, b: Seq<char>)
    ensures
        feed(feed(m, a), b) == feed(m, a + b),
    decreases a.len(),
{
    if a.len() == 0 {
        assert(a + b =~= b);
        assert(feed(m, a) == m);
    } else {
        assert((a + b)[0] == a[0]);
        assert((a + b).drop_first() =~= a.drop_first() + b);
        assert((a + b).len() > 0);
        assert(feed(m, a + b) == feed(step_char(m, a[0]), a.drop_first() + b));
        lemma_feed_concat(step_char(m, a[0]), a.drop_first(), b);
        assert(feed(m, a) == feed(step_char(m, a[0]), a.drop_first()));
    }
}

/// Chunking invariance: however the same total text is cut into chunks, the
/// parser ends in the same state — the same buffer, the same status and the
/// same sequence of emitted events.
pub proof fn lemma_chunking_invariance(m: AccumulatorModel, chunks: Seq<Seq<char>>)
    ensures
        feed_chunks(m, chunks) == feed(m, concat_all(chunks)),
    decreases chunks.len(),
{
    if chunks.len() == 0 {
    } else {
        lemma_chunking_invariance(feed(m, chunks[0]), chunks.drop_first());
        lemma_feed_concat(m, chunks[0], concat_all(chunks.drop_first()));
    }
}

/// Round trip: replaying the emitted events, in emission order, over the
/// lines of the original text rebuilds exactly the parser's current buffer.
pub proof fn lemma_round_trip(acc: &SearchAndReplaceAccumulator)
    requires
        acc.wf(),
    ensures
        replay(acc.original(), acc@.anchor, acc@.events).buffer == acc@.buffer,
{
}

/// An unresolved search section is recovered from locally: the divider line
/// whose search text has no match in the buffer emits nothing, changes
/// nothing, and returns the parser to scanning for the next block.
pub proof fn lemma_unresolved_divider_is_silent(m: AccumulatorModel, line: Seq<char>)
    requires
        m.status is BlockAccumulate,
        line == divider_marker(),
        resolve_spec(m.buffer, m.anchor, m.status->BlockAccumulate_0) is None,
    ensures
        step_line(m, line) == (AccumulatorModel { status: BlockStatus::NoBlock, ..m }),
{
}

/// Feeding more lines into an open search section appends them, in order.
proof fn lemma_accumulate_lines(m: AccumulatorModel, ls: Seq<Seq<char>>)
    requires
        m.status is BlockAccumulate,
        forall|i: int| 0 <= i < ls.len() ==> ls[i] != divider_marker(),
    ensures
        step_lines(m, ls) == (AccumulatorModel {
            status: BlockStatus::BlockAccumulate(m.status->BlockAccumulate_0 + ls),
            ..m
        }),
    decreases ls.len(),
{
    let acc = m.status->BlockAccumulate_0;
    if ls.len() == 0 {
        assert(acc + ls =~= acc);
        assert(step_lines(m, ls) =~~= (AccumulatorModel {
            status: BlockStatus::BlockAccumulate(acc + ls),
            ..m
        }));
    } else {
        let m1 = step_line(m, ls[0]);
        assert(m1 == (AccumulatorModel {
            status: BlockStatus::BlockAccumulate(acc.push(ls[0])),
            ..m
        }));
        assert(forall|i: int|
            0 <= i < ls.drop_first().len() ==> ls.drop_first()[i] != divider_marker());
        lemma_accumulate_lines(m1, ls.drop_first());
        assert(acc.push(ls[0]) + ls.drop_first() =~= acc + ls);
    }
}

/// A whole block whose search text is absent from the buffer is invisible:
/// from the opening marker to the divider it produces zero events, leaves
/// the buffer untouched, and the parser is again ready for the next block.
pub proof fn lemma_absent_block_is_silent(m: AccumulatorModel, search_lines: Seq<Seq<char>>)
    requires
        m.status is NoBlock,
        search_lines.len() > 0,
        forall|i: int| 1 <= i < search_lines.len() ==> search_lines[i] != divider_marker(),
        resolve_spec(m.buffer, m.anchor, search_lines) is None,
    ensures
        ({
            let block = seq![search_marker()] + search_lines + seq![divider_marker()];
            let m2 = step_lines(m, block);
            &&& m2 == (AccumulatorModel { status: BlockStatus::NoBlock, ..m })
            &&& m2.events == m.events
            &&& m2.buffer == m.buffer
        }),
{
    let block = seq![search_marker()] + search_lines + seq![divider_marker()];
    assert(block[0] == search_marker());
    let m1 = step_line(m, block[0]);
    assert(m1 == (AccumulatorModel { status: BlockStatus::BlockStart, ..m }));
    let rest1 = block.drop_first();
    assert(rest1 =~= search_lines + seq![divider_marker()]);
    assert(step_lines(m, block) == step_lines(m1, rest1));
    assert(rest1[0] == search_lines[0]);
    let m2 = step_line(m1, rest1[0]);
    assert(m2 == (AccumulatorModel {
        status: BlockStatus::BlockAccumulate(seq![search_lines[0]]),
        ..m
    }));
    let rest2 = rest1.drop_first();
    assert(rest2 =~= search_lines.drop_first() + seq![divider_marker()]);
    assert(step_lines(m1, rest1) == step_lines(m2, rest2));
    let middle = search_lines.drop_first();
    assert(forall|i: int| 0 <= i < middle.len() ==> middle[i] != divider_marker());
    lemma_accumulate_lines(m2, middle);
    lemma_step_lines_concat(m2, middle, seq![divider_marker()]);
    assert(rest2 =~= middle + seq![divider_marker()]);
    let m3 = step_lines(m2, middle);
    assert(m3.status->BlockAccumulate_0 =~= search_lines);
    assert(m3 == (AccumulatorModel {
        status: BlockStatus::BlockAccumulate(m3.status->BlockAccumulate_0),
        ..m
    }));
    let m4 = step_line(m3, divider_marker());
    assert(step_lines(m3, seq![divider_marker()]) == step_lines(
        m4,
        seq![divider_marker()].drop_first(),
    ));
    assert(seq![divider_marker()].drop_first() =~= Seq::<Seq<char>>::empty());
    assert(m4 == (AccumulatorModel { status: BlockStatus::NoBlock, ..m }));
}

/// Consuming two line sequences one after the other consumes their
/// concatenation.
proof fn lemma_step_lines_concat(m: AccumulatorModel, a: Seq<Seq<char>>, b: Seq<Seq<char>>)
    ensures
        step_lines(step_lines(m, a), b) == step_lines(m, a + b),
    decreases a.len(),
{
    if a.len() == 0 {
        assert(a + b =~= b);
        assert(step_lines(m, a) == m);
    } else {
        assert((a + b)[0] == a[0]);
        assert((a + b).drop_first() =~= a.drop_first() + b);
        assert((a + b).len() > 0);
        assert(step_lines(m, a + b) == step_lines(step_line(m, a[0]), a.drop_first() + b));
        lemma_step_lines_concat(step_line(m, a[0]), a.drop_first(), b);
        assert(step_lines(m, a) == step_lines(step_line(m, a[0]), a.drop_first()));
    }
}

/// Events are properly bracketed: a block's fragments and its close arrive
/// strictly between its `Started` and its `Ended`, each for the range that
/// is open; a new block starts only while none is open — so no two blocks
/// are ever open at once — and a block stands open exactly while the parser
/// holds one.
pub proof fn lemma_events_are_bracketed(acc: &SearchAndReplaceAccumulator)
    requires
        acc.wf(),
    ensures
        events_ordered(acc@.events),
        (acc@.status is BlockFound <==> open_range(acc@.events) is Some),
{
}

/// Later blocks see earlier edits: at the divider, the search section is
/// resolved against the buffer as already patched by every completed block —
/// the buffer that replaying the emitted events rebuilds — not against the
/// original text.
pub proof fn lemma_search_sees_prior_edits(acc: &SearchAndReplaceAccumulator, line: Seq<char>)
    requires
        acc.wf(),
        acc@.status is BlockAccumulate,
        line == divider_marker(),
    ensures
        ({
            let needle = acc@.status->BlockAccumulate_0;
            let patched = replay(acc.original(), acc@.anchor, acc@.events).buffer;
            step_line(acc@, line).status == (match resolve_spec(patched, acc@.anchor, needle) {
                Some(r) => BlockStatus::BlockFound(needle, r),
                None => BlockStatus::NoBlock,
            })
        }),
{
}

/// Fully terminated text drives the transition table on exactly its lines:
/// consuming a text that ends at a line boundary runs `step_line` on each
/// line that the text completes — the pending unterminated line first —
/// and leaves no unterminated line behind.
pub proof fn lemma_feed_terminated(m: AccumulatorModel, text: Seq<char>)
    requires
        text.len() > 0,
        text.last() == '\n',
    ensures
        feed(m, text) == (AccumulatorModel {
            tail: Seq::empty(),
            ..step_lines(
                AccumulatorModel { tail: Seq::empty(), ..m },
                split_rest(text, m.tail),
            )
        }),
    decreases text.len(),
{
    let rest = text.drop_first();
    let m_clean = AccumulatorModel { tail: Seq::empty(), ..m };
    if text[0] == '\n' {
        let m1 = step_line(m_clean, strip_cr(m.tail));
        assert(feed(m, text) == feed(m1, rest));
        assert(split_rest(text, m.tail) == seq![strip_cr(m.tail)] + split_rest(
            rest,
            Seq::empty(),
        ));
        assert(step_lines(m_clean, split_rest(text, m.tail)) == step_lines(
            m1,
            (seq![strip_cr(m.tail)] + split_rest(rest, Seq::empty())).drop_first(),
        ));
        assert((seq![strip_cr(m.tail)] + split_rest(rest, Seq::empty())).drop_first()
            =~= split_rest(rest, Seq::empty()));
        if rest.len() == 0 {
            assert(split_rest(rest, Seq::empty()) =~= Seq::<Seq<char>>::empty());
            assert(m1.tail =~= Seq::<char>::empty());
            assert(feed(m1, rest) == m1);
            assert(m1 =~~= (AccumulatorModel {
                tail: Seq::empty(),
                ..step_lines(m_clean, split_rest(text, m.tail))
            }));
        } else {
            assert(rest.last() == '\n');
            lemma_feed_terminated(m1, rest);
            assert(m1.tail =~= Seq::<char>::empty());
            assert((AccumulatorModel { tail: Seq::empty(), ..m1 }) =~~= m1);
        }
    } else {
        let m1 = AccumulatorModel { tail: m.tail.push(text[0]), ..m };
        assert(feed(m, text) == feed(m1, rest));
        assert(rest.len() > 0);
        assert(rest.last() == '\n');
        lemma_feed_terminated(m1, rest);
        assert(split_rest(text, m.tail) == split_rest(rest, m.tail.push(text[0])));
        assert((AccumulatorModel { tail: Seq::empty(), ..m1 }) =~~= m_clean);
    }
}

/// An absent search section is invisible on the raw stream too: text whose
/// lines form a whole block head — the opening marker, a search section
/// that has no match in the buffer, and the divider — changes nothing but
/// leaves the parser scanning for the next block.
pub proof fn lemma_absent_block_text_is_silent(
    m: AccumulatorModel,
    text: Seq<char>,
    search_lines: Seq<Seq<char>>,
)
    requires
        m.status is NoBlock,
        m.tail.len() == 0,
        text.len() > 0,
        text.last() == '\n',
        lines_of(text) == seq![search_marker()] + search_lines + seq![divider_marker()],
        search_lines.len() > 0,
        forall|i: int| 1 <= i < search_lines.len() ==> search_lines[i] != divider_marker(),
        resolve_spec(m.buffer, m.anchor, search_lines) is None,
    ensures
        feed(m, text) == (AccumulatorModel { status: BlockStatus::NoBlock, ..m }),
{
    lemma_feed_terminated(m, text);
    assert(m.tail =~= Seq::<char>::empty());
    assert(split_rest(text, m.tail) == lines_of(text));
    assert((AccumulatorModel { tail: Seq::empty(), ..m }) =~~= m);
    lemma_absent_block_is_silent(m, search_lines);
    assert(feed(m, text) =~~= (AccumulatorModel { status: BlockStatus::NoBlock, ..m }));
}

/// A transition never unsays an event: the old event log is a prefix of the
/// new one.
pub proof fn lemma_step_line_extends_events(m: AccumulatorModel, line: Seq<char>)
    ensures
        m.events.is_prefix_of(step_line(m, line).events),
{
    let ev2 = step_line(m, line).events;
    assert(ev2 == m.events || (ev2.len() == m.events.len() + 1 && ev2.take(m.events.len() as int)
        =~= m.events));
}

/// Consuming one character never unsays an event.
pub proof fn lemma_step_char_extends_events(m: AccumulatorModel, c: char)
    ensures
        m.events.is_prefix_of(step_char(m, c).events),
{
    if c == '\n' {
        lemma_step_line_extends_events(
            AccumulatorModel { tail: Seq::empty(), ..m },
            strip_cr(m.tail),
        );
    }
}

/// Consuming any text only appends to the event log: events already emitted
/// stay, in their order, at their places.
pub proof fn lemma_feed_extends_events(m: AccumulatorModel, text: Seq<char>)
    ensures
        m.events.is_prefix_of(feed(m, text).events),
    decreases text.len(),
{
    if text.len() > 0 {
        let m1 = step_char(m, text[0]);
        lemma_step_char_extends_events(m, text[0]);
        lemma_feed_extends_events(m1, text.drop_first());
        let ev_final = feed(m, text).events;
        assert(m1.events =~= ev_final.take(m1.events.len() as int));
        assert(m.events =~= m1.events.take(m.events.len() as int));
        assert(m.events =~= ev_final.take(m.events.len() as int));
    }
}

// ---------------------------------------------------------------------------
// The invocation's answer
// ---------------------------------------------------------------------------

/// The complete answer text of one editing invocation, as the model wrote
/// it.
#[derive(Debug)]
pub struct SearchAndReplaceEditingResponse {
    response: String,
}

impl View for SearchAndReplaceEditingResponse {
    type V = Seq<char>;

    closed spec fn view(&self) -> Seq<char> {
        self.response@
    }
}

impl SearchAndReplaceEditingResponse {
    /// Wraps the complete answer text.
    pub fn new(response: String) -> (r: Self)
        ensures
            r@ == response@,
    {
        SearchAndReplaceEditingResponse { response }
    }

    /// The complete answer text.
    pub fn response(&self) -> (r: &str)
        ensures
            r@ == self@,
    {
        self.response.as_str()
    }
}

/// Copies a vector of lines without changing any of them.
fn clone_string_vec(v: &Vec<String>) -> (r: Vec<String>)
    ensures
        r.deep_view() == v.deep_view(),
{
    let mut r: Vec<String> = Vec::new();
    let n = v.len();
    for i in 0..n
        invariant
            n == v@.len(),
            r@.len() == i,
            forall|t: int| 0 <= t < i ==> r@[t] == v@[t],
    {
        r.push(v[i].clone());
    }
    proof {
        assert(r.deep_view() =~= v.deep_view());
    }
    r
}

} // verus!

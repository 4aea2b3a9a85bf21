//! The chat history view: message bubbles and scrolling.

use crate::shared::clock::ClockTime;
use crate::shared::text::{byte_len, chars_of, extend_chars, string_of, wrap_text, wrapped_lines};
use vstd::prelude::*;

verus! {

#[derive(Debug, Clone, Copy, PartialEq, Eq, Structural)]
pub enum ChatRole {
    User,
    App,
    Assistant,
}

pub struct ChatMessage {
    pub role: ChatRole,
    pub content: String,
    pub timestamp: ClockTime,
}

/// How far the history is scrolled, and the heights it was last laid out with.
pub struct MessageListState {
    pub scroll_offset: usize,
    pub container_height: usize,
    pub text_height: usize,
}

impl MessageListState {
    /// The offset shows no row past the end of the text.
    pub open spec fn offset_in_range(&self) -> bool {
        self.text_height > self.container_height ==> self.scroll_offset + self.container_height
            <= self.text_height
    }

    pub open spec fn room_for_scroll(&self) -> bool {
        self.text_height > self.container_height
    }

    pub fn new() -> (r: Self)
        ensures
            r.scroll_offset == 0,
            r.container_height == 0,
            r.text_height == 0,
    {
        Self { scroll_offset: 0, container_height: 0, text_height: 0 }
    }

    fn has_room_for_bottom_scroll(&self) -> (r: bool)
        ensures
            r == self.room_for_scroll(),
    {
        self.text_height > self.container_height
    }

    /// Scrolls one row up, when the text is taller than the view.
    pub fn scroll_up(&mut self)
        ensures
            final(self).scroll_offset == if old(self).room_for_scroll() && old(self).scroll_offset
                > 0 {
                old(self).scroll_offset - 1
            } else {
                old(self).scroll_offset as int
            },
            final(self).container_height == old(self).container_height,
            final(self).text_height == old(self).text_height,
    {
        if self.has_room_for_bottom_scroll() {
            self.scroll_offset = self.scroll_offset.saturating_sub(1);
        }
    }

    /// Scrolls one row down, when rows remain below the view.
    pub fn scroll_down(&mut self)
        requires
            old(self).room_for_scroll() ==> old(self).scroll_offset + old(self).container_height
                <= usize::MAX,
        ensures
            final(self).scroll_offset == if old(self).room_for_scroll() && old(self).scroll_offset
                + old(self).container_height < old(self).text_height {
                old(self).scroll_offset + 1
            } else {
                old(self).scroll_offset as int
            },
            final(self).container_height == old(self).container_height,
            final(self).text_height == old(self).text_height,
    {
        if self.has_room_for_bottom_scroll() {
            let can_scroll = self.scroll_offset + self.container_height < self.text_height;
            if can_scroll {
                self.scroll_offset = self.scroll_offset.saturating_add(1);
            }
        }
    }

    /// Records the heights of a new layout; while editing, the view jumps to
    /// the last row.
    pub fn sync_layout(&mut self, text_height: usize, container_height: usize, editing: bool)
        ensures
            final(self).text_height == text_height,
            final(self).container_height == container_height,
            final(self).scroll_offset == if editing && text_height > container_height {
                text_height - container_height
            } else {
                old(self).scroll_offset as int
            },
    {
        self.text_height = text_height;
        self.container_height = container_height;
        if editing && self.has_room_for_bottom_scroll() {
            self.scroll_offset = self.text_height - self.container_height;
        }
    }
}

/// One row of the rendered history, with the role whose colour it takes.
pub struct BubbleRow {
    pub role: ChatRole,
    pub text: String,
}

/// The text a message shows: its time, then its content.
pub open spec fn message_text(m: ChatMessage) -> Seq<char> {
    seq!['['] + m.timestamp.label() + seq![']', ':', ' '] + m.content@
}

/// The length `str::len` reports for a string with characters `s`: its
/// UTF-8 length, as a `usize`.
pub open spec fn str_len(s: Seq<char>) -> usize {
    byte_len(s) as usize
}

/// The largest length (`str_len`) among `lines`.
pub open spec fn max_byte_len(lines: Seq<Seq<char>>) -> usize
    decreases lines.len(),
{
    if lines.len() == 0 {
        0
    } else {
        let rest = max_byte_len(lines.drop_last());
        let last = str_len(lines.last());
        if last > rest {
            last
        } else {
            rest
        }
    }
}

/// `n` copies of `c`.
pub open spec fn repeat_char(c: char, n: nat) -> Seq<char> {
    Seq::new(n, |i: int| c)
}

/// `line` followed by spaces up to `width` characters.
pub open spec fn pad_right(line: Seq<char>, width: nat) -> Seq<char> {
    if line.len() < width {
        line + repeat_char(' ', (width - line.len()) as nat)
    } else {
        line
    }
}

/// The rows of one bubble around `lines`, `width` being the widest line's
/// UTF-8 length: a top border, each line framed and padded, a bottom border.
pub open spec fn bubble_rows(lines: Seq<Seq<char>>, width: nat) -> Seq<Seq<char>> {
    seq![seq!['\u{256D}'] + repeat_char('\u{2500}', width + 2) + seq!['\u{256E}']] + lines.map_values(
        |l: Seq<char>| seq!['\u{2502}', ' '] + pad_right(l, width) + seq![' ', '\u{2502}', ' '],
    ) + seq![seq!['\u{2570}'] + repeat_char('\u{2500}', width + 2) + seq!['\u{256F}']]
}

/// How many spaces push a bubble of `bubble_width` columns to the right edge
/// of a `chat_width` wide area (the width taken modulo 2^16, as a `u16`).
pub open spec fn right_padding(chat_width: u16, bubble_width: nat) -> nat {
    let w = bubble_width % 65536;
    if w >= chat_width {
        0
    } else {
        (chat_width - w) as nat
    }
}

/// The rows of one message: its text wrapped at `max_width`, framed, and for
/// the user's messages pushed to the right.
pub open spec fn message_rows(m: ChatMessage, max_width: usize, chat_width: u16) -> Seq<Seq<char>> {
    let lines = wrapped_lines(message_text(m), max_width);
    let width = max_byte_len(lines) as nat;
    let rows = bubble_rows(lines, width);
    if m.role == ChatRole::User {
        rows.map_values(
            |r: Seq<char>| repeat_char(' ', right_padding(chat_width, width + 4nat)) + r,
        )
    } else {
        rows
    }
}

/// The rows of a whole history, message after message.
pub open spec fn history_rows(messages: Seq<ChatMessage>, max_width: usize, chat_width: u16) -> Seq<
    (ChatRole, Seq<char>),
>
    decreases messages.len(),
{
    if messages.len() == 0 {
        Seq::empty()
    } else {
        let m = messages.last();
        history_rows(messages.drop_last(), max_width, chat_width) + message_rows(
            m,
            max_width,
            chat_width,
        ).map_values(|r: Seq<char>| (m.role, r))
    }
}

/// The role and text of each row.
pub open spec fn rows_view(rows: Seq<BubbleRow>) -> Seq<(ChatRole, Seq<char>)> {
    rows.map_values(|r: BubbleRow| (r.role, r.text@))
}

pub struct MessageListWidget<'a> {
    pub messages: &'a Vec<ChatMessage>,
}

impl<'a> MessageListWidget<'a> {
    pub fn new(messages: &'a Vec<ChatMessage>) -> (r: MessageListWidget<'a>)
        ensures
            r.messages == messages,
    {
        MessageListWidget { messages }
    }

    /// The rows the history renders to, given the widest a bubble's text may
    /// be and the width of the chat area.
    pub fn rows(&self, max_bubble_width: usize, chat_width: u16) -> (r: Vec<BubbleRow>)
        requires
            forall|i: int| 0 <= i < self.messages@.len() ==> #[trigger] self.messages@[i].timestamp.wf(),
        ensures
            rows_view(r@) == history_rows(self.messages@, max_bubble_width, chat_width),
    {
        let mut out: Vec<BubbleRow> = Vec::new();
        let mut i: usize = 0;
        while i < self.messages.len()
            invariant
                i <= self.messages@.len(),
                forall|k: int| 0 <= k < self.messages@.len() ==> #[trigger] self.messages@[k].timestamp.wf(),
                rows_view(out@) == history_rows(
                    self.messages@.subrange(0, i as int),
                    max_bubble_width,
                    chat_width,
                ),
            decreases self.messages@.len() - i,
        {
            let message = &self.messages[i];
            let rows = bubble_for(message, max_bubble_width, chat_width);
            let ghost before = out@;
            let mut j: usize = 0;
            while j < rows.len()
                invariant
                    j <= rows@.len(),
                    rows_view(out@) == rows_view(before) + rows@.subrange(0, j as int).map_values(
                        |r: String| (message.role, r@),
                    ),
                decreases rows@.len() - j,
            {
                let ghost prev = out@;
                out.push(BubbleRow { role: message.role, text: rows[j].clone() });
                assert(rows_view(out@) =~= rows_view(prev).push((message.role, rows@[j as int]@)));
                assert(rows@.subrange(0, j + 1).map_values(|r: String| (message.role, r@))
                    =~= rows@.subrange(0, j as int).map_values(|r: String| (message.role, r@)).push(
                    (message.role, rows@[j as int]@),
                ));
                j = j + 1;
            }
            let ghost ms = self.messages@.subrange(0, i + 1);
            assert(ms.drop_last() =~= self.messages@.subrange(0, i as int));
            assert(rows@.subrange(0, rows@.len() as int) =~= rows@);
            assert(rows@.map_values(|r: String| (message.role, r@)) =~= message_rows(
                *message,
                max_bubble_width,
                chat_width,
            ).map_values(|r: Seq<char>| (message.role, r)));
            i = i + 1;
        }
        assert(self.messages@.subrange(0, self.messages@.len() as int) =~= self.messages@);
        out
    }
}

impl<'a> MessageListWidget<'a> {
    /// Lays the history out in `state`: the rows it renders to (see `rows`)
    /// become the text height, `container_height` the view's height, and
    /// while editing the view jumps to the last row (see `sync_layout`).
    /// Gives the rows.
    pub fn layout(
        &self,
        state: &mut MessageListState,
        max_bubble_width: usize,
        chat_width: u16,
        container_height: usize,
        editing: bool,
    ) -> (r: Vec<BubbleRow>)
        requires
            forall|i: int| 0 <= i < self.messages@.len() ==> #[trigger] self.messages@[i].timestamp.wf(),
        ensures
            rows_view(r@) == history_rows(self.messages@, max_bubble_width, chat_width),
            final(state).text_height == r@.len(),
            final(state).text_height == history_rows(self.messages@, max_bubble_width, chat_width).len(),
            final(state).container_height == container_height,
            final(state).scroll_offset == if editing && r@.len() > container_height {
                r@.len() - container_height
            } else {
                old(state).scroll_offset as int
            },
    {
        let rows = self.rows(max_bubble_width, chat_width);
        state.sync_layout(rows.len(), container_height, editing);
        rows
    }
}

/// The rows of one message (see `message_rows`).
fn bubble_for(message: &ChatMessage, max_bubble_width: usize, chat_width: u16) -> (r: Vec<String>)
    requires
        message.timestamp.wf(),
    ensures
        r@.map_values(|s: String| s@) == message_rows(*message, max_bubble_width, chat_width),
{
    let mut text: Vec<char> = vec!['['];
    let time = message.timestamp.format_hms();
    extend_chars(&mut text, &chars_of(time.as_str()));
    let tail: Vec<char> = vec![']', ':', ' '];
    extend_chars(&mut text, &tail);
    extend_chars(&mut text, &chars_of(message.content.as_str()));
    assert(text@ =~= message_text(*message));
    let content = string_of(&text);
    let wrapped = wrap_text(content.as_str(), max_bubble_width);
    let ghost lines = wrapped_lines(message_text(*message), max_bubble_width);

    let mut text_width: usize = 0;
    let mut k: usize = 0;
    while k < wrapped.len()
        invariant
            k <= wrapped@.len(),
            wrapped@.map_values(|l: String| l@) == lines,
            text_width == max_byte_len(lines.subrange(0, k as int)),
        decreases wrapped@.len() - k,
    {
        let len = wrapped[k].as_str().len();
        assert(lines.subrange(0, k + 1).drop_last() =~= lines.subrange(0, k as int));
        assert(lines[k as int] == wrapped@[k as int]@);
        if len > text_width {
            text_width = len;
        }
        k = k + 1;
    }
    assert(lines.subrange(0, lines.len() as int) =~= lines);
    let ghost width = text_width as nat;
    let ghost rows_spec = bubble_rows(lines, width);

    let padding_count: usize = if message.role == ChatRole::User {
        let bubble_width = (text_width as u128) + 4;
        let w = (bubble_width % 65536) as u16;
        if w >= chat_width {
            0
        } else {
            (chat_width - w) as usize
        }
    } else {
        0
    };
    let padding = repeated(' ', padding_count as u128);
    let dashes = repeated('\u{2500}', text_width as u128 + 2);

    let mut rows: Vec<String> = Vec::new();
    let mut top = padding.clone();
    top.push('\u{256D}');
    extend_chars(&mut top, &dashes);
    top.push('\u{256E}');
    rows.push(string_of(&top));
    let mut k: usize = 0;
    while k < wrapped.len()
        invariant
            k <= wrapped@.len(),
            wrapped@.map_values(|l: String| l@) == lines,
            text_width == max_byte_len(lines),
            padding@ == repeat_char(' ', padding_count as nat),
            rows_spec == bubble_rows(lines, width),
            width == text_width as nat,
            lines.len() == wrapped@.len(),
            rows@.len() == k + 1,
            forall|j: int| 0 <= j <= k ==> #[trigger] rows@[j]@ == padding@ + rows_spec[j],
        decreases wrapped@.len() - k,
    {
        let mut row = padding.clone();
        row.push('\u{2502}');
        row.push(' ');
        let line = chars_of(wrapped[k].as_str());
        assert(line@ == lines[k as int]);
        assert(rows_spec[k + 1] == seq!['\u{2502}', ' '] + pad_right(lines[k as int], width)
            + seq![' ', '\u{2502}', ' ']);
        extend_chars(&mut row, &line);
        if line.len() < text_width {
            let fill = repeated(' ', (text_width - line.len()) as u128);
            extend_chars(&mut row, &fill);
        }
        row.push(' ');
        row.push('\u{2502}');
        row.push(' ');
        assert(row@ =~= padding@ + rows_spec[k + 1]);
        rows.push(string_of(&row));
        k = k + 1;
    }
    let mut bottom = padding.clone();
    bottom.push('\u{2570}');
    extend_chars(&mut bottom, &dashes);
    bottom.push('\u{256F}');
    assert(bottom@ =~= padding@ + rows_spec[lines.len() + 1int]);
    rows.push(string_of(&bottom));
    proof {
        if message.role == ChatRole::User {
            assert(padding_count == right_padding(chat_width, width + 4nat));
        }
        assert(rows@.map_values(|s: String| s@) =~= message_rows(
            *message,
            max_bubble_width,
            chat_width,
        ));
    }
    rows
}

/// `n` copies of `c`.
fn repeated(c: char, n: u128) -> (r: Vec<char>)
    ensures
        r@ == repeat_char(c, n as nat),
{
    let mut r: Vec<char> = Vec::new();
    let mut i: u128 = 0;
    while i < n
        invariant
            i <= n,
            r@ == repeat_char(c, i as nat),
        decreases n - i,
    {
        r.push(c);
        assert(r@ =~= repeat_char(c, (i + 1) as nat));
        i = i + 1;
    }
    r
}

} // verus!

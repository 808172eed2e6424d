//! A region of text lines that fills one character at a time and wraps at a
//! fixed width without splitting words.

use vstd::prelude::*;
use crate::error::ConfigError;
use crate::text_queue::{TextQueue, TextQueueView};
use crate::vector::Point2D;

verus! {

/// Width that one character takes on its line.
pub const CHAR_ADVANCE: u32 = 10;

/// A line of text: where it is anchored, and what it holds.
pub type Line = (Point2D, String);

/// The lines as contracts see them: each anchor with the characters of its line.
pub open spec fn lines_view(lines: Seq<Line>) -> Seq<(Point2D, Seq<char>)> {
    lines.map_values(|l: Line| (l.0, l.1@))
}

/// A copy of the given lines.
pub fn copy_lines(lines: &Vec<Line>) -> (r: Vec<Line>)
    ensures
        lines_view(r@) == lines_view(lines@),
{
    let mut copy: Vec<Line> = Vec::new();
    let mut pos: usize = 0;
    while pos < lines.len()
        invariant
            0 <= pos <= lines.len(),
            copy.len() == pos,
            forall|i: int| 0 <= i < pos ==> copy[i].0 == lines[i].0 && copy[i].1@ == lines[i].1@,
        decreases lines.len() - pos,
    {
        copy.push((lines[pos].0, lines[pos].1.clone()));
        pos += 1;
    }
    assert(lines_view(copy@) =~= lines_view(lines@));
    copy
}

/// The state of a [`TextBox`] as contracts see it.
pub struct TextBoxView {
    /// Anchor of the line under construction.
    pub display_cursor: Point2D,
    /// The lines, top to bottom.
    pub lines: Seq<(Point2D, Seq<char>)>,
    /// Width limit of a line.
    pub width: nat,
    /// Distance from one line down to the next.
    pub line_height: nat,
    /// Length of the line under construction.
    pub line_length: nat,
    /// Length that the line under construction had at the last word boundary.
    pub checkpoint: nat,
    /// The source of the text.
    pub queue: TextQueueView,
}

impl TextBoxView {
    /// The state of a new text box: one empty line at `start`, and `text`
    /// waiting in the queue.
    pub open spec fn fresh(width: nat, line_height: nat, text: Seq<char>, start: Point2D) -> Self {
        TextBoxView {
            display_cursor: start,
            lines: seq![(start, Seq::<char>::empty())],
            width,
            line_height,
            line_length: 0,
            checkpoint: 0,
            queue: TextQueueView::loaded(text),
        }
    }

    /// Each line is anchored one line height below the line before it, and
    /// the display cursor is the anchor of the last line.
    pub open spec fn anchored(self) -> bool {
        &&& self.lines.len() >= 1
        &&& self.display_cursor == self.lines.last().0
        &&& forall|i: int|
            0 < i < self.lines.len() ==> (#[trigger] self.lines[i]).0 == self.lines[i - 1].0.translated(
                self.line_step(),
            )
    }

    /// There is a line to write on, the lines are anchored one below the
    /// other, the width limit is positive, and the line under construction
    /// is at most one character longer than the limit.
    pub open spec fn valid(self) -> bool {
        &&& self.anchored()
        &&& 1 <= self.width <= u32::MAX
        &&& self.line_height <= u32::MAX
        &&& self.checkpoint <= self.line_length <= self.width + CHAR_ADVANCE
        &&& self.queue.valid()
    }

    /// The offset from one line to the next.
    pub open spec fn line_step(self) -> Point2D {
        Point2D { x: 0, y: self.line_height as i64 }
    }

    /// The state once the size of the pending character's word is known: a
    /// size of zero marks a word boundary, and the checkpoint moves up to the
    /// line's length.
    pub open spec fn with_checkpoint(self, word_size: nat) -> Self {
        if word_size == 0 {
            TextBoxView { checkpoint: self.line_length, ..self }
        } else {
            self
        }
    }

    /// Whether a character of a word of size `word_size` has to go to a new
    /// line: the line is already over the limit, or the word would not fit
    /// behind the last word boundary.
    pub open spec fn needs_wrap(self, word_size: nat) -> bool {
        self.line_length > self.width || self.checkpoint + CHAR_ADVANCE * word_size > self.width
    }

    /// The state with a new, empty line one line height further down.
    pub open spec fn with_new_line(self) -> Self {
        let cursor = self.display_cursor.translated(self.line_step());
        TextBoxView {
            display_cursor: cursor,
            lines: self.lines.push((cursor, Seq::<char>::empty())),
            line_length: 0,
            checkpoint: 0,
            ..self
        }
    }

    /// The state with `c` appended to the last line.
    pub open spec fn with_char(self, c: char) -> Self {
        let last = self.lines.last();
        TextBoxView {
            lines: self.lines.update(self.lines.len() - 1, (last.0, last.1.push(c))),
            line_length: (self.line_length + CHAR_ADVANCE) as nat,
            ..self
        }
    }

    /// The state after the character `c` of a word of size `word_size` was
    /// placed: the checkpoint is set, the line is wrapped where needed, and
    /// the character is appended.
    pub open spec fn placed(self, c: char, word_size: nat) -> Self {
        let marked = self.with_checkpoint(word_size);
        if marked.needs_wrap(word_size) {
            marked.with_new_line().with_char(c)
        } else {
            marked.with_char(c)
        }
    }

    /// The state after one reveal step: the queue is asked once, and what it
    /// yields is placed. Where it yields nothing, the lines stay as they are.
    pub open spec fn updated(self) -> Self {
        let asked = TextBoxView { queue: self.queue.advanced(), ..self };
        match self.queue.item() {
            Some((c, word_size)) => asked.placed(c, word_size as nat),
            None => asked,
        }
    }

    /// The state after `n` reveal steps.
    pub open spec fn revealed(self, n: nat) -> Self
        decreases n,
    {
        if n == 0 {
            self
        } else {
            self.revealed((n - 1) as nat).updated()
        }
    }
}

/// A box of text lines, filled from a [`TextQueue`].
#[derive(Debug)]
pub struct TextBox {
    /// Represents the 2D position on the display
    display_cursor: Point2D,
    /// Represents the lines of the text
    lines: Vec<Line>,
    /// Width of the textbox
    width: u32,
    /// Height of a line
    font_size: u32,
    /// Line length index
    current_line_length: u64,
    /// Text space representing a checkpoint to calculate text justify
    checkpoint: u64,
    /// Iterable data source for text
    text_queue: TextQueue,
}

impl View for TextBox {
    type V = TextBoxView;

    closed spec fn view(&self) -> TextBoxView {
        TextBoxView {
            display_cursor: self.display_cursor,
            lines: lines_view(self.lines@),
            width: self.width as nat,
            line_height: self.font_size as nat,
            line_length: self.current_line_length as nat,
            checkpoint: self.checkpoint as nat,
            queue: self.text_queue@,
        }
    }
}

impl Clone for TextBox {
    /// A text box of its own in the same state.
    fn clone(&self) -> (r: Self)
        ensures
            r@ == self@,
            self.wf() ==> r.wf(),
    {
        Self {
            display_cursor: self.display_cursor,
            lines: copy_lines(&self.lines),
            width: self.width,
            font_size: self.font_size,
            current_line_length: self.current_line_length,
            checkpoint: self.checkpoint,
            text_queue: self.text_queue.clone(),
        }
    }
}

impl TextBox {
    /// The invariant of the text box.
    pub closed spec fn wf(&self) -> bool {
        &&& self@.valid()
        &&& self.text_queue.wf()
    }

    /// A well-formed text box has a valid state.
    pub proof fn lemma_wf_valid(&self)
        requires
            self.wf(),
        ensures
            self@.valid(),
    {
    }

    /// A text box of the given width that will reveal `text`, starting with
    /// one empty line at `start_vector`. A width of zero is refused.
    pub fn new(width: u32, font_size: u32, text: String, start_vector: Point2D) -> (r: Result<
        Self,
        ConfigError,
    >)
        ensures
            width == 0 <==> r is Err,
            r matches Err(e) ==> e == ConfigError::ZeroWidth,
            r matches Ok(b) ==> b.wf() && b@ == TextBoxView::fresh(
                width as nat,
                font_size as nat,
                text@,
                start_vector,
            ),
    {
        if width == 0 {
            return Err(ConfigError::ZeroWidth);
        }
        let default_line: Line = (start_vector, String::new());
        let mut text_queue = TextQueue::new();
        text_queue.load(text);
        let mut lines: Vec<Line> = Vec::new();
        lines.push(default_line);
        let b = Self {
            width,
            display_cursor: start_vector,
            current_line_length: 0,
            lines,
            font_size,
            checkpoint: 0,
            text_queue,
        };
        proof {
            assert(b@.lines =~= seq![(start_vector, Seq::<char>::empty())]);
            b.text_queue.lemma_wf_valid();
        }
        Ok(b)
    }

    /// The lines, top to bottom.
    pub fn lines(&self) -> (r: &Vec<Line>)
        ensures
            lines_view(r@) == self@.lines,
    {
        &self.lines
    }

    /// Anchor of the line under construction.
    pub fn display_cursor(&self) -> (r: Point2D)
        ensures
            r == self@.display_cursor,
    {
        self.display_cursor
    }

    /// The source of the text.
    pub fn text_queue(&self) -> (r: &TextQueue)
        ensures
            r@ == self@.queue,
            self.wf() ==> r.wf(),
    {
        &self.text_queue
    }

    /// Width limit of a line.
    pub fn width(&self) -> (r: u32)
        ensures
            r == self@.width,
    {
        self.width
    }

    /// Distance from one line down to the next.
    pub fn font_size(&self) -> (r: u32)
        ensures
            r == self@.line_height,
    {
        self.font_size
    }

    /// Anchor of the most recently added line.
    pub fn last_line_anchor(&self) -> (r: Point2D)
        requires
            self.wf(),
        ensures
            r == self@.lines.last().0,
    {
        self.lines[self.lines.len() - 1].0
    }

    /// Moves the box to `pos`: the lines are dropped, and one empty line at
    /// `pos` takes their place. The queue and the line measures stay.
    pub fn set_anchor(&mut self, pos: Point2D)
        requires
            old(self).wf(),
        ensures
            final(self).wf(),
            final(self)@ == (TextBoxView {
                display_cursor: pos,
                lines: seq![(pos, Seq::<char>::empty())],
                ..old(self)@
            }),
    {
        self.display_cursor = pos;
        let mut lines: Vec<Line> = Vec::new();
        lines.push((pos, String::new()));
        self.lines = lines;
        assert(self@.lines =~= seq![(pos, Seq::<char>::empty())]);
    }

    /// Starts a new, empty line one line height below the current one.
    pub fn new_line(&mut self)
        requires
            old(self).wf(),
        ensures
            final(self).wf(),
            final(self)@ == old(self)@.with_new_line(),
    {
        self.display_cursor = self.display_cursor + Point2D::new(0, self.font_size as i64);
        self.lines.push((self.display_cursor, String::new()));
        self.current_line_length = 0;
        self.checkpoint = 0;
        assert(self@.lines =~= old(self)@.with_new_line().lines);
    }

    /// Leaves one line empty: starts a new line twice.
    pub fn _blank_line(&mut self)
        requires
            old(self).wf(),
        ensures
            final(self).wf(),
            final(self)@ == old(self)@.with_new_line().with_new_line(),
    {
        self.new_line();
        self.new_line();
    }

    /// Reveals one more character: asks the queue once and places what it
    /// yields. Returns `None`, with the lines untouched, when the queue yields
    /// nothing.
    pub fn update(&mut self) -> (r: Option<()>)
        requires
            old(self).wf(),
        ensures
            final(self).wf(),
            final(self)@ == old(self)@.updated(),
            r is Some <==> old(self)@.queue.has_next(),
    {
        let (next_char, word_size) = match self.text_queue.next() {
            Some(res) => res,
            None => return None,
        };
        self.add_checkpoint(word_size);
        self.add_new_line_if_needed(word_size);

        let last = self.lines.len() - 1;
        let ghost before = self@;
        self.lines[last].1.push(next_char);
        self.current_line_length += CHAR_ADVANCE as u64;
        assert(self@.lines =~= before.with_char(next_char).lines);

        Some(())
    }

    fn add_new_line_if_needed(&mut self, word_size: usize)
        requires
            old(self).wf(),
        ensures
            final(self).wf(),
            final(self)@.line_length <= final(self)@.width,
            final(self)@ == if old(self)@.needs_wrap(word_size as nat) {
                old(self)@.with_new_line()
            } else {
                old(self)@
            },
    {
        if self.current_line_length > self.width as u64 {
            self.new_line();
            return ;
        }
        let sent_length: u128 = self.checkpoint as u128 + (CHAR_ADVANCE as u128) * (
        word_size as u128);
        if sent_length > self.width as u128 {
            self.new_line();
        }
    }

    fn add_checkpoint(&mut self, word_size: usize)
        requires
            old(self).wf(),
        ensures
            final(self).wf(),
            final(self)@ == old(self)@.with_checkpoint(word_size as nat),
    {
        if word_size == 0 {
            self.checkpoint = self.current_line_length;
        }
    }
}

} // verus!

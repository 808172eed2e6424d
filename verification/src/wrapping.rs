//! What holds of every text box as it reveals its text: the line under
//! construction stays within one character of the width limit, the reveal
//! ends, and a word that fits the width is never split across lines.

use vstd::prelude::*;
use crate::text_queue::{lemma_advanced_by_cursor, lemma_queue_runs_dry, TextQueueView};
use crate::words::{
    is_whitespace_char,
    lemma_word_size_bounds,
    lemma_word_start_run,
    word_end,
    word_size,
    word_start,
};
use crate::textbox::{TextBoxView, CHAR_ADVANCE};
use crate::vector::Point2D;

verus! {

/// A reveal step keeps the state valid, and changes neither the width limit
/// nor the line height. It never takes a line away; where it places a
/// character it adds at most one line, and where it places none it leaves
/// the lines as they are.
pub proof fn lemma_updated_valid(b: TextBoxView)
    requires
        b.valid(),
    ensures
        b.updated().valid(),
        b.updated().width == b.width,
        b.updated().line_height == b.line_height,
        b.updated().queue == b.queue.advanced(),
        b.lines.len() <= b.updated().lines.len() <= b.lines.len() + 1,
        !b.queue.has_next() ==> b.updated().lines == b.lines,
{
}

/// Where the lines stand: each line starts at the horizontal position of the
/// first line, and as many line heights below it as lines come before it,
/// or at the end of the range of coordinates.
pub proof fn lemma_line_positions(b: TextBoxView, i: int)
    requires
        b.valid(),
        0 <= i < b.lines.len(),
    ensures
        b.lines[i].0.x == b.lines[0].0.x,
        b.lines[i].0.y == if b.lines[0].0.y + i * b.line_height > i64::MAX {
            i64::MAX as int
        } else {
            b.lines[0].0.y + i * b.line_height
        },
    decreases i,
{
    if i > 0 {
        lemma_line_positions(b, i - 1);
        assert(b.lines[i].0 == b.lines[i - 1].0.translated(b.line_step()));
        assert((i - 1) * b.line_height + b.line_height == i * b.line_height) by (nonlinear_arith);
        assert((i - 1) * b.line_height >= 0) by (nonlinear_arith)
            requires
                i >= 1,
        ;
    }
}

/// Once the wrap decision for a pending character is taken, the line under
/// construction is within the width limit, so that with the character
/// appended it is at most one character longer.
pub proof fn lemma_wrap_decision_restores_limit(b: TextBoxView, word_size: nat)
    requires
        b.valid(),
    ensures
        ({
            let marked = b.with_checkpoint(word_size);
            let decided = if marked.needs_wrap(word_size) {
                marked.with_new_line()
            } else {
                marked
            };
            &&& decided.line_length <= decided.width
            &&& decided.checkpoint + CHAR_ADVANCE * word_size > decided.width
                ==> decided.line_length == 0
        }),
{
}

/// The queue of a text box runs as a queue on its own does.
pub proof fn lemma_revealed_queue(b: TextBoxView, n: nat)
    requires
        b.valid(),
    ensures
        b.revealed(n).valid(),
        b.revealed(n).width == b.width,
        b.revealed(n).line_height == b.line_height,
        b.revealed(n).queue == b.queue.advanced_by(n),
    decreases n,
{
    if n > 0 {
        lemma_revealed_queue(b, (n - 1) as nat);
        lemma_updated_valid(b.revealed((n - 1) as nat));
    }
}

/// Whenever a character is about to be placed, the line under construction
/// is at most one character longer than the width limit, and so at most
/// the size of the pending word longer, where a word is pending.
pub proof fn lemma_line_length_bounded(b: TextBoxView, n: nat)
    requires
        b.valid(),
    ensures
        b.revealed(n).line_length <= b.width + CHAR_ADVANCE,
        b.revealed(n).queue.item() matches Some((c, word_size)) ==> word_size >= 1
            ==> b.revealed(n).line_length <= b.width + CHAR_ADVANCE * word_size,
{
    lemma_revealed_queue(b, n);
}

/// The reveal ends, whatever the width limit and however long the words:
/// each step places a character as long as characters remain, the step
/// after the last character finds nothing and exhausts the queue, and from
/// then on the lines stay as they are.
pub proof fn lemma_reveal_ends(b: TextBoxView, n: nat)
    requires
        b.valid(),
    ensures
        n < b.queue.remaining() ==> b.revealed(n).queue.has_next(),
        n >= b.queue.remaining() ==> !b.revealed(n).queue.has_next(),
        n > b.queue.remaining() ==> b.revealed(n).queue == TextQueueView::Exhausted,
        n >= b.queue.remaining() ==> b.revealed(n).lines == b.revealed(b.queue.remaining()).lines,
    decreases n,
{
    let left = b.queue.remaining();
    lemma_revealed_queue(b, n);
    lemma_queue_runs_dry(b.queue, n);
    if n > left {
        lemma_reveal_ends(b, (n - 1) as nat);
        lemma_revealed_queue(b, (n - 1) as nat);
        lemma_queue_runs_dry(b.queue, (n - 1) as nat);
        lemma_updated_valid(b.revealed((n - 1) as nat));
    }
}

/// The characters of the lines, top to bottom, in one row.
pub open spec fn flattened(lines: Seq<(Point2D, Seq<char>)>) -> Seq<char>
    decreases lines.len(),
{
    if lines.len() == 0 {
        Seq::empty()
    } else {
        flattened(lines.drop_last()) + lines.last().1
    }
}

/// Placing a character adds it to the end of what the lines hold, whether
/// or not a new line is started for it.
pub proof fn lemma_placed_appends(b: TextBoxView, c: char, word_size: nat)
    requires
        b.lines.len() >= 1,
    ensures
        flattened(b.placed(c, word_size).lines) == flattened(b.lines).push(c),
{
    let marked = b.with_checkpoint(word_size);
    let after = b.placed(c, word_size).lines;
    if marked.needs_wrap(word_size) {
        let wrapped = marked.with_new_line().lines;
        assert(wrapped.drop_last() == b.lines);
        assert(after.drop_last() == b.lines);
        assert(after.last().1 == seq![c]);
        assert(flattened(b.lines) + seq![c] == flattened(b.lines).push(c));
    } else {
        assert(after.drop_last() == b.lines.drop_last());
        assert(after.last().1 == b.lines.last().1.push(c));
        assert(flattened(b.lines.drop_last()) + b.lines.last().1.push(c) == (flattened(
            b.lines.drop_last(),
        ) + b.lines.last().1).push(c));
    }
}

/// The lines show the text, and nothing else: after `k` steps a new text
/// box holds, line after line, the first `k` characters of its text, in
/// their order. Wrapping decides only where the lines break.
pub proof fn lemma_lines_show_text(
    width: nat,
    line_height: nat,
    text: Seq<char>,
    start: Point2D,
    k: nat,
)
    requires
        TextBoxView::fresh(width, line_height, text, start).valid(),
        k <= text.len(),
    ensures
        flattened(TextBoxView::fresh(width, line_height, text, start).revealed(k).lines)
            == text.take(k as int),
    decreases k,
{
    let fresh = TextBoxView::fresh(width, line_height, text, start);
    if k == 0 {
        assert(fresh.lines.drop_last() == Seq::<(Point2D, Seq<char>)>::empty());
        assert(flattened(fresh.lines.drop_last()) == Seq::<char>::empty());
        assert(flattened(fresh.lines) == Seq::<char>::empty() + Seq::<char>::empty());
        assert(flattened(fresh.lines) == text.take(0));
    } else {
        let before = fresh.revealed((k - 1) as nat);
        lemma_lines_show_text(width, line_height, text, start, (k - 1) as nat);
        lemma_revealed_queue(fresh, (k - 1) as nat);
        lemma_advanced_by_cursor(text, 0, (k - 1) as nat);
        let asked = TextBoxView { queue: before.queue.advanced(), ..before };
        let w = word_size(text, k - 1) as usize as nat;
        assert(before.queue.item() == Some((text[k - 1], word_size(text, k - 1) as usize)));
        assert(fresh.revealed(k) == asked.placed(text[k - 1], w));
        lemma_placed_appends(asked, text[k - 1], w);
        assert(text.take(k - 1).push(text[k - 1]) == text.take(k as int));
    }
}

/// What holds after `k` characters of `text` were revealed from a new text
/// box: the line's length is bounded by the checkpoint and the part of the
/// current word placed so far, a word that fits the width fits behind the
/// checkpoint once its first character is placed, and the last character
/// placed ends the last line.
pub open spec fn reveal_invariant(text: Seq<char>, s: TextBoxView, k: int) -> bool {
    &&& s.valid()
    &&& s.queue == (TextQueueView::Active { text, cursor: k as nat })
    &&& s.line_length <= s.checkpoint + CHAR_ADVANCE * (1 + k - word_start(text, k))
    &&& k > 0 && !is_whitespace_char(text[k - 1]) && CHAR_ADVANCE * word_size(text, k - 1)
        <= s.width ==> s.checkpoint + CHAR_ADVANCE * word_size(text, k - 1) <= s.width
    &&& k > 0 ==> s.lines.last().1.len() > 0 && s.lines.last().1.last() == text[k - 1]
}

/// One reveal step keeps the invariant of the reveal.
pub proof fn lemma_reveal_step(text: Seq<char>, s: TextBoxView, k: int)
    requires
        0 <= k < text.len(),
        reveal_invariant(text, s, k),
    ensures
        reveal_invariant(text, s.updated(), k + 1),
        s.updated().width == s.width,
        s.updated().line_height == s.line_height,
{
    lemma_updated_valid(s);
    lemma_word_start_run(text, k);
    let c = text[k];
    if is_whitespace_char(c) {
        assert(word_start(text, k + 1) == k + 1);
    } else {
        lemma_word_size_bounds(text, k);
        assert(word_start(text, k + 1) == word_start(text, k));
        let w = word_size(text, k);
        assert(w as usize as nat == w);
        if k > 0 && !is_whitespace_char(text[k - 1]) {
            assert(word_start(text, k) == word_start(text, k - 1));
            assert(word_end(text, k - 1) == word_end(text, k));
            assert(word_size(text, k - 1) == w);
        }
        assert(CHAR_ADVANCE * (1 + k - word_start(text, k)) <= CHAR_ADVANCE * w) by (nonlinear_arith)
            requires
                1 + k - word_start(text, k) <= w,
        ;
    }
}

/// The invariant of the reveal holds after each number of steps up to the
/// length of the text.
pub proof fn lemma_reveal_invariant(
    width: nat,
    line_height: nat,
    text: Seq<char>,
    start: Point2D,
    k: nat,
)
    requires
        TextBoxView::fresh(width, line_height, text, start).valid(),
        k <= text.len(),
    ensures
        reveal_invariant(
            text,
            TextBoxView::fresh(width, line_height, text, start).revealed(k),
            k as int,
        ),
        TextBoxView::fresh(width, line_height, text, start).revealed(k).width == width,
    decreases k,
{
    let fresh = TextBoxView::fresh(width, line_height, text, start);
    if k > 0 {
        lemma_reveal_invariant(width, line_height, text, start, (k - 1) as nat);
        lemma_reveal_step(text, fresh.revealed((k - 1) as nat), k - 1);
    }
}

/// No line break falls inside a word that fits the width: where the
/// characters at `k - 1` and `k` belong to one word whose size, in units of
/// the character advance, is at most the width limit, the step that places
/// the character at `k` starts no new line and appends it right behind the
/// character at `k - 1`.
pub proof fn lemma_no_break_inside_word(
    width: nat,
    line_height: nat,
    text: Seq<char>,
    start: Point2D,
    k: nat,
)
    requires
        TextBoxView::fresh(width, line_height, text, start).valid(),
        0 < k < text.len(),
        !is_whitespace_char(text[k - 1]),
        !is_whitespace_char(text[k as int]),
        CHAR_ADVANCE * word_size(text, k as int) <= width,
    ensures
        ({
            let before = TextBoxView::fresh(width, line_height, text, start).revealed(k);
            let after = TextBoxView::fresh(width, line_height, text, start).revealed(k + 1);
            &&& after.lines.len() == before.lines.len()
            &&& after.lines.drop_last() == before.lines.drop_last()
            &&& before.lines.last().1.last() == text[k - 1]
            &&& after.lines.last() == (before.lines.last().0, before.lines.last().1.push(text[k as int]))
        }),
{
    let fresh = TextBoxView::fresh(width, line_height, text, start);
    let before = fresh.revealed(k);
    lemma_reveal_invariant(width, line_height, text, start, k);
    lemma_word_start_run(text, k as int);
    lemma_word_size_bounds(text, k as int);
    let w = word_size(text, k as int);
    assert(w as usize as nat == w);
    assert(word_start(text, k as int) == word_start(text, k - 1));
    assert(word_end(text, k - 1) == word_end(text, k as int));
    assert(word_size(text, k - 1) == w);
    assert(CHAR_ADVANCE * (1 + k - word_start(text, k as int)) <= CHAR_ADVANCE * w)
        by (nonlinear_arith)
        requires
            1 + k - word_start(text, k as int) <= w,
    ;
    assert(!before.with_checkpoint(w).needs_wrap(w));
    assert(fresh.revealed(k + 1) == before.updated());
    assert(before.updated().lines.drop_last() =~= before.lines.drop_last());
}

/// A word that fits the width stands on one line: the steps that place two
/// of its characters end on the same line, however far apart the two are.
pub proof fn lemma_word_on_one_line(
    width: nat,
    line_height: nat,
    text: Seq<char>,
    start: Point2D,
    i: nat,
    j: nat,
)
    requires
        TextBoxView::fresh(width, line_height, text, start).valid(),
        i <= j < text.len(),
        !is_whitespace_char(text[j as int]),
        word_start(text, j as int) <= i,
        CHAR_ADVANCE * word_size(text, j as int) <= width,
    ensures
        TextBoxView::fresh(width, line_height, text, start).revealed(i + 1).lines.len()
            == TextBoxView::fresh(width, line_height, text, start).revealed(j + 1).lines.len(),
    decreases j - i,
{
    if i < j {
        lemma_word_start_run(text, j as int);
        assert(!is_whitespace_char(text[j - 1]));
        assert(word_start(text, j as int) == word_start(text, j - 1));
        assert(word_end(text, j - 1) == word_end(text, j as int));
        lemma_no_break_inside_word(width, line_height, text, start, j);
        lemma_word_on_one_line(width, line_height, text, start, i, (j - 1) as nat);
    }
}

} // verus!

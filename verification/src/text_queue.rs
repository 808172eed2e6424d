//! A single-pass source of characters, each paired with the size of the word
//! it belongs to.

use vstd::prelude::*;
use vstd::string::*;
use vstd::utf8::encode_utf8;
use crate::words::{
    is_whitespace,
    is_whitespace_char,
    lemma_encode_utf8_subrange,
    lemma_word_end_run,
    lemma_word_index_bounds,
    lemma_word_start_run,
    utf8_len,
    word_at,
    word_index,
    word_size,
    word_start,
};

verus! {

/// The state of a [`TextQueue`] as contracts see it: either a text with the
/// number of characters handed out so far, or nothing at all.
pub enum TextQueueView {
    /// A text is loaded, and `cursor` of its characters were handed out.
    Active { text: Seq<char>, cursor: nat },
    /// Nothing is loaded: the queue is new, was cleared, or has run dry.
    Exhausted,
}

impl TextQueueView {
    /// The state right after `text` was loaded.
    pub open spec fn loaded(text: Seq<char>) -> TextQueueView {
        TextQueueView::Active { text, cursor: 0 }
    }

    /// An active queue has its cursor within the text, and the text's UTF-8
    /// encoding has a length that fits `usize`.
    pub open spec fn valid(self) -> bool {
        match self {
            TextQueueView::Active { text, cursor } => {
                &&& cursor <= text.len()
                &&& encode_utf8(text).len() <= usize::MAX
            },
            TextQueueView::Exhausted => true,
        }
    }

    /// Whether a request yields an item.
    pub open spec fn has_next(self) -> bool {
        self matches TextQueueView::Active { text, cursor } && cursor < text.len()
    }

    /// Characters still to be handed out.
    pub open spec fn remaining(self) -> nat {
        match self {
            TextQueueView::Active { text, cursor } => if cursor < text.len() {
                (text.len() - cursor) as nat
            } else {
                0
            },
            TextQueueView::Exhausted => 0,
        }
    }

    /// The item that a request yields, if any: the character at the cursor,
    /// with the size of its word.
    pub open spec fn item(self) -> Option<(char, usize)> {
        match self {
            TextQueueView::Active { text, cursor } => if cursor < text.len() {
                Some((text[cursor as int], word_size(text, cursor as int) as usize))
            } else {
                None
            },
            TextQueueView::Exhausted => None,
        }
    }

    /// The state after one request: the cursor moves on by one, and a queue
    /// that has nothing left becomes exhausted.
    pub open spec fn advanced(self) -> TextQueueView {
        match self {
            TextQueueView::Active { text, cursor } => if cursor < text.len() {
                TextQueueView::Active { text, cursor: cursor + 1 }
            } else {
                TextQueueView::Exhausted
            },
            TextQueueView::Exhausted => TextQueueView::Exhausted,
        }
    }

    /// The state after `n` requests.
    pub open spec fn advanced_by(self, n: nat) -> TextQueueView
        decreases n,
    {
        if n == 0 {
            self
        } else {
            self.advanced_by((n - 1) as nat).advanced()
        }
    }
}

/// Idempotent exhaustion: from an exhausted queue every request yields
/// nothing and leaves the queue exhausted, however many requests are made.
/// Only loading a text makes the queue active again.
pub proof fn lemma_exhausted_stays_exhausted(n: nat)
    ensures
        TextQueueView::Exhausted.advanced_by(n) == TextQueueView::Exhausted,
        TextQueueView::Exhausted.advanced_by(n).item() is None,
    decreases n,
{
    if n > 0 {
        lemma_exhausted_stays_exhausted((n - 1) as nat);
    }
}

/// While characters remain, each request moves the cursor on by one and
/// changes nothing else: the cursor never moves back, and never passes
/// the end of the text.
pub proof fn lemma_advanced_by_cursor(text: Seq<char>, cursor: nat, n: nat)
    requires
        cursor + n <= text.len(),
    ensures
        (TextQueueView::Active { text, cursor }).advanced_by(n) == (TextQueueView::Active {
            text,
            cursor: cursor + n,
        }),
    decreases n,
{
    if n > 0 {
        lemma_advanced_by_cursor(text, cursor, (n - 1) as nat);
    }
}

/// A queue runs dry: each request yields an item as long as characters
/// remain, the request after the last character yields nothing and exhausts
/// the queue, and so does every request after that.
pub proof fn lemma_queue_runs_dry(q: TextQueueView, n: nat)
    requires
        q.valid(),
    ensures
        q.advanced_by(n).valid(),
        n < q.remaining() ==> q.advanced_by(n).item() is Some,
        n >= q.remaining() ==> q.advanced_by(n).item() is None,
        n > q.remaining() ==> q.advanced_by(n) == TextQueueView::Exhausted,
        q.advanced_by(n).remaining() == if n <= q.remaining() {
            q.remaining() - n
        } else {
            0
        },
    decreases n,
{
    match q {
        TextQueueView::Active { text, cursor } => {
            if n <= q.remaining() {
                lemma_advanced_by_cursor(text, cursor, n);
            } else {
                lemma_queue_runs_dry(q, (n - 1) as nat);
            }
        },
        TextQueueView::Exhausted => {
            lemma_exhausted_stays_exhausted(n);
        },
    }
}

/// Iterable text source.
///
/// Once loaded with a text, it hands the text out one character at a time,
/// each with the size of the word it belongs to. When the last character has
/// been handed out, the next request clears the queue, and every request after
/// that yields nothing until a text is loaded again.
#[derive(Debug)]
pub struct TextQueue {
    /// Reading position of the text queue
    cursor: usize,
    /// The loaded text as chars
    chars: Vec<char>,
    /// Shows if the text queue is empty
    is_empty: bool,
    /// Size in bytes of each word of the text, in order
    words: Vec<usize>,
    /// Index position in the list of words
    words_cursor: usize,
}

impl View for TextQueue {
    type V = TextQueueView;

    closed spec fn view(&self) -> TextQueueView {
        if self.is_empty {
            TextQueueView::Exhausted
        } else {
            TextQueueView::Active { text: self.chars@, cursor: self.cursor as nat }
        }
    }
}

impl Clone for TextQueue {
    /// A queue of its own in the same state.
    fn clone(&self) -> (r: Self)
        ensures
            r@ == self@,
            self.wf() ==> r.wf(),
    {
        let chars = self.chars.clone();
        let words = self.words.clone();
        proof {
            assert(chars@ =~= self.chars@);
            assert(words@ =~= self.words@);
        }
        Self {
            cursor: self.cursor,
            chars,
            is_empty: self.is_empty,
            words,
            words_cursor: self.words_cursor,
        }
    }
}

impl TextQueue {
    /// Where position `i` of `text` holds no whitespace, the word list holds the
    /// size of its word, at the index of that word.
    spec fn word_recorded(words: Seq<usize>, text: Seq<char>, i: int) -> bool {
        !is_whitespace_char(text[i]) ==> {
            &&& word_index(text, i) < words.len()
            &&& words[word_index(text, i) as int] == word_size(text, i)
        }
    }

    /// The word list holds one size for each word of `text`.
    spec fn words_match(words: Seq<usize>, text: Seq<char>) -> bool {
        &&& words.len() == word_index(text, text.len() as int) + 1
        &&& forall|i: int| 0 <= i < text.len() ==> #[trigger] Self::word_recorded(words, text, i)
    }

    /// The invariant of the queue: its state is valid, and while it is active
    /// its word list and word cursor agree with the text and the cursor.
    pub closed spec fn wf(&self) -> bool {
        &&& self@.valid()
        &&& !self.is_empty ==> {
            &&& Self::words_match(self.words@, self.chars@)
            &&& self.words_cursor == word_index(self.chars@, self.cursor as int)
        }
    }

    /// A well-formed queue has a valid state.
    pub proof fn lemma_wf_valid(&self)
        requires
            self.wf(),
        ensures
            self@.valid(),
    {
    }

    /// An empty queue: nothing is loaded, and a request yields nothing.
    pub fn new() -> (q: Self)
        ensures
            q.wf(),
            q@ == TextQueueView::Exhausted,
    {
        Self { chars: Vec::new(), cursor: 0, is_empty: true, words: Vec::new(), words_cursor: 0 }
    }

    /// Loads a text, which replaces what the queue held: the queue is active
    /// and starts at the first character.
    pub fn load(&mut self, data: String)
        ensures
            final(self).wf(),
            final(self)@ == TextQueueView::loaded(data@),
    {
        let text = data.as_str();
        let bytes = text.as_bytes();
        let total: usize = bytes.len();
        proof {
            vstd::slice::axiom_spec_len(bytes);
        }
        let mut chars: Vec<char> = Vec::new();
        let mut words: Vec<usize> = Vec::new();
        let mut size: usize = 0;
        for c in it: text.chars()
            invariant
                it.seq() == data@,
                total == encode_utf8(data@).len(),
                chars@ == data@.take(it.index()),
                words@.len() == word_index(data@, it.index()),
                size == encode_utf8(
                    data@.subrange(word_start(data@, it.index()), it.index()),
                ).len(),
                forall|i: int|
                    0 <= i < word_start(data@, it.index()) ==> #[trigger] Self::word_recorded(
                        words@,
                        data@,
                        i,
                    ),
        {
            let ghost k = it.index();
            let ghost start = word_start(data@, k);
            let ghost old_words = words@;
            let ghost old_size = size;
            assert(0 <= k < data@.len());
            assert(c == data@[k]);
            proof {
                lemma_word_start_run(data@, k);
                lemma_encode_utf8_subrange(data@, start, k);
                lemma_encode_utf8_subrange(data@, start, k + 1);
            }
            chars.push(c);
            if is_whitespace(c) {
                words.push(size);
                size = 0;
                proof {
                    assert(word_start(data@, k + 1) == k + 1);
                    assert(data@.subrange(k + 1, k + 1) == Seq::<char>::empty());
                    assert forall|i: int| 0 <= i < k + 1 implies #[trigger] Self::word_recorded(
                        words@,
                        data@,
                        i,
                    ) by {
                        if i < start {
                            assert(Self::word_recorded(old_words, data@, i));
                        } else if i < k {
                            lemma_word_end_run(data@, i, k);
                            assert(word_start(data@, i) == start);
                            assert(word_index(data@, i) == word_index(data@, k));
                            assert(word_at(data@, i) == data@.subrange(start, k));
                        }
                    }
                }
            } else {
                size += utf8_len(c);
                proof {
                    assert(word_start(data@, k + 1) == start);
                    assert forall|i: int| 0 <= i < start implies #[trigger] Self::word_recorded(
                        words@,
                        data@,
                        i,
                    ) by {
                        assert(Self::word_recorded(old_words, data@, i));
                    }
                }
            }
        }
        let ghost old_words = words@;
        words.push(size);
        proof {
            let n = data@.len() as int;
            let start = word_start(data@, n);
            lemma_word_start_run(data@, n);
            assert(chars@ == data@);
            assert forall|i: int| 0 <= i < n implies #[trigger] Self::word_recorded(
                words@,
                data@,
                i,
            ) by {
                if i < start {
                    assert(Self::word_recorded(old_words, data@, i));
                } else {
                    lemma_word_end_run(data@, i, n);
                    assert(word_start(data@, i) == start);
                    assert(word_index(data@, i) == word_index(data@, n));
                    assert(word_at(data@, i) == data@.subrange(start, n));
                }
            }
        }
        self.chars = chars;
        self.words = words;
        self.cursor = 0;
        self.words_cursor = 0;
        self.is_empty = false;
    }

    /// Clears the entire text queue, which is then as a new one.
    pub fn clear(&mut self)
        ensures
            final(self).wf(),
            final(self)@ == TextQueueView::Exhausted,
    {
        self.chars.clear();
        self.words.clear();
        self.is_empty = true;
        self.cursor = 0;
        self.words_cursor = 0;
    }

    /// Hands out the next character and the size of its word, or nothing
    /// where the queue is exhausted or has just run dry.
    pub fn next(&mut self) -> (r: Option<(char, usize)>)
        requires
            old(self).wf(),
        ensures
            final(self).wf(),
            r == old(self)@.item(),
            final(self)@ == old(self)@.advanced(),
    {
        if self.is_empty {
            return None;
        }
        if self.cursor >= self.chars.len() {
            self.clear();
            return None;
        }
        let next_char = self.chars[self.cursor];
        proof {
            lemma_word_index_bounds(self.chars@, self.cursor as int, self.cursor + 1);
            lemma_word_index_bounds(self.chars@, self.cursor + 1, self.chars@.len() as int);
        }
        let word_size: usize = if is_whitespace(next_char) {
            self.words_cursor += 1;
            0
        } else {
            assert(Self::word_recorded(self.words@, self.chars@, self.cursor as int));
            self.words[self.words_cursor]
        };
        self.cursor += 1;
        Some((next_char, word_size))
    }
}

} // verus!

//! Words and their sizes: a word is a longest run of characters without
//! whitespace, and its size is its length in UTF-8 bytes.

use vstd::prelude::*;
use vstd::utf8::{encode_scalar, encode_utf8};

verus! {

/// Whether `c` is whitespace: one of the code points that Unicode gives the
/// property `White_Space`.
pub open spec fn is_whitespace_char(c: char) -> bool {
    let v = c as u32;
    ||| 0x09 <= v <= 0x0D
    ||| v == 0x20
    ||| v == 0x85
    ||| v == 0xA0
    ||| v == 0x1680
    ||| 0x2000 <= v <= 0x200A
    ||| v == 0x2028
    ||| v == 0x2029
    ||| v == 0x202F
    ||| v == 0x205F
    ||| v == 0x3000
}

/// Tells whether `c` is whitespace.
pub fn is_whitespace(c: char) -> (b: bool)
    ensures
        b == is_whitespace_char(c),
{
    let v: u32 = c as u32;
    (0x09 <= v && v <= 0x0D) || v == 0x20 || v == 0x85 || v == 0xA0 || v == 0x1680 || (0x2000 <= v
        && v <= 0x200A) || v == 0x2028 || v == 0x2029 || v == 0x202F || v == 0x205F || v == 0x3000
}

/// Index of the first character of the whitespace-free run around position `i`.
pub open spec fn word_start(text: Seq<char>, i: int) -> int
    decreases i,
{
    if i <= 0 || i > text.len() || is_whitespace_char(text[i - 1]) {
        i
    } else {
        word_start(text, i - 1)
    }
}

/// Index just past the last character of the whitespace-free run around
/// position `i`.
pub open spec fn word_end(text: Seq<char>, i: int) -> int
    decreases text.len() - i,
{
    if i < 0 || i >= text.len() || is_whitespace_char(text[i]) {
        i
    } else {
        word_end(text, i + 1)
    }
}

/// The word that holds position `i`: the longest run of characters around `i`
/// that holds no whitespace.
pub open spec fn word_at(text: Seq<char>, i: int) -> Seq<char> {
    text.subrange(word_start(text, i), word_end(text, i))
}

/// The size that goes with the character at position `i`: zero for
/// whitespace, else the length in UTF-8 bytes of the word that holds it.
pub open spec fn word_size(text: Seq<char>, i: int) -> nat {
    if is_whitespace_char(text[i]) {
        0
    } else {
        encode_utf8(word_at(text, i)).len()
    }
}

/// Number of whitespace characters before position `i`, which is also the
/// index of the word that holds position `i`.
pub open spec fn word_index(text: Seq<char>, i: int) -> nat
    decreases i,
{
    if i <= 0 || i > text.len() {
        0
    } else if is_whitespace_char(text[i - 1]) {
        word_index(text, i - 1) + 1
    } else {
        word_index(text, i - 1)
    }
}

/// No more whitespace lies before a position than characters do, and none
/// of the words up to it comes after a later one.
pub proof fn lemma_word_index_bounds(text: Seq<char>, i: int, j: int)
    requires
        0 <= i <= j <= text.len(),
    ensures
        word_index(text, i) <= i,
        word_index(text, i) <= word_index(text, j),
    decreases j,
{
    if i > 0 {
        lemma_word_index_bounds(text, i - 1, i - 1);
    }
    if i < j {
        lemma_word_index_bounds(text, i, j - 1);
    }
}

/// The characters from the start of a word up to a position in or right
/// after it hold no whitespace, belong to the same word, and follow either
/// the start of the text or a whitespace character.
pub proof fn lemma_word_start_run(text: Seq<char>, k: int)
    requires
        0 <= k <= text.len(),
    ensures
        0 <= word_start(text, k) <= k,
        word_start(text, k) == 0 || is_whitespace_char(text[word_start(text, k) - 1]),
        word_index(text, word_start(text, k)) == word_index(text, k),
        forall|j: int| word_start(text, k) <= j < k ==> !is_whitespace_char(#[trigger] text[j]),
        forall|j: int|
            word_start(text, k) <= j <= k ==> #[trigger] word_start(text, j) == word_start(text, k),
        forall|j: int|
            word_start(text, k) <= j <= k ==> #[trigger] word_index(text, j) == word_index(text, k),
    decreases k,
{
    if k > 0 && !is_whitespace_char(text[k - 1]) {
        lemma_word_start_run(text, k - 1);
    }
}

/// A run without whitespace that ends at the end of the text or before a
/// whitespace character ends the word of each of its positions.
pub proof fn lemma_word_end_run(text: Seq<char>, j: int, b: int)
    requires
        0 <= j <= b <= text.len(),
        forall|m: int| j <= m < b ==> !is_whitespace_char(#[trigger] text[m]),
        b == text.len() || is_whitespace_char(text[b]),
    ensures
        word_end(text, j) == b,
    decreases b - j,
{
    if j < b {
        lemma_word_end_run(text, j + 1, b);
    }
}

/// The UTF-8 encoding of a text is that of its parts, one after the other.
pub proof fn lemma_encode_utf8_concat(a: Seq<char>, b: Seq<char>)
    ensures
        encode_utf8(a + b) == encode_utf8(a) + encode_utf8(b),
    decreases a.len(),
{
    if a.len() == 0 {
        assert(a + b == b);
    } else {
        lemma_encode_utf8_concat(a.drop_first(), b);
        assert((a + b).drop_first() == a.drop_first() + b);
    }
}

/// A part of a text takes no more bytes than the whole, and one character
/// more takes the bytes of that character more.
pub proof fn lemma_encode_utf8_subrange(text: Seq<char>, from: int, to: int)
    requires
        0 <= from <= to <= text.len(),
    ensures
        encode_utf8(text.subrange(from, to)).len() <= encode_utf8(text).len(),
        to < text.len() ==> encode_utf8(text.subrange(from, to + 1)).len() == encode_utf8(
            text.subrange(from, to),
        ).len() + encode_scalar(text[to] as u32).len(),
{
    let head = text.subrange(0, from);
    let mid = text.subrange(from, to);
    let tail = text.subrange(to, text.len() as int);
    assert(text == head + mid + tail);
    lemma_encode_utf8_concat(head + mid, tail);
    lemma_encode_utf8_concat(head, mid);
    if to < text.len() {
        let one = seq![text[to]];
        assert(text.subrange(from, to + 1) == mid + one);
        lemma_encode_utf8_concat(mid, one);
        assert(one.drop_first() == Seq::<char>::empty());
        assert(encode_utf8(one) == encode_scalar(text[to] as u32) + encode_utf8(
            Seq::<char>::empty(),
        ));
    }
}

/// Length in bytes of the UTF-8 encoding of `c`.
pub fn utf8_len(c: char) -> (n: usize)
    ensures
        n == encode_scalar(c as u32).len(),
        1 <= n <= 4,
{
    let v: u32 = c as u32;
    if v <= 0x7F {
        1
    } else if v <= 0x7FF {
        2
    } else if v <= 0xFFFF {
        3
    } else {
        4
    }
}

/// The UTF-8 encoding of a text has at least one byte for each character.
pub proof fn lemma_encode_utf8_len(s: Seq<char>)
    ensures
        encode_utf8(s).len() >= s.len(),
    decreases s.len(),
{
    if s.len() > 0 {
        lemma_encode_utf8_len(s.drop_first());
    }
}

/// A word ends within the text and behind each of its characters, at the
/// end of the text or before a whitespace character, and holds no
/// whitespace up to there.
pub proof fn lemma_word_end_bounds(text: Seq<char>, k: int)
    requires
        0 <= k <= text.len(),
    ensures
        k <= word_end(text, k) <= text.len(),
        k < text.len() && !is_whitespace_char(text[k]) ==> k < word_end(text, k),
        word_end(text, k) == text.len() || is_whitespace_char(text[word_end(text, k)]),
        forall|j: int| k <= j < word_end(text, k) ==> !is_whitespace_char(#[trigger] text[j]),
    decreases text.len() - k,
{
    if k < text.len() && !is_whitespace_char(text[k]) {
        lemma_word_end_bounds(text, k + 1);
    }
}

/// The word of a character that is no whitespace is the longest run without
/// whitespace around it: it holds the character and no whitespace, and on
/// either side it ends at the end of the text or at a whitespace character.
pub proof fn lemma_word_is_longest_run(text: Seq<char>, k: int)
    requires
        0 <= k < text.len(),
        !is_whitespace_char(text[k]),
    ensures
        0 <= word_start(text, k) <= k < word_end(text, k) <= text.len(),
        forall|j: int|
            word_start(text, k) <= j < word_end(text, k) ==> !is_whitespace_char(
                #[trigger] text[j],
            ),
        word_start(text, k) == 0 || is_whitespace_char(text[word_start(text, k) - 1]),
        word_end(text, k) == text.len() || is_whitespace_char(text[word_end(text, k)]),
        forall|j: int|
            word_start(text, k) <= j < word_end(text, k) ==> #[trigger] word_size(text, j)
                == word_size(text, k),
{
    lemma_word_start_run(text, k);
    lemma_word_end_bounds(text, k);
    let start = word_start(text, k);
    let end = word_end(text, k);
    assert forall|j: int| start <= j < end implies #[trigger] word_size(text, j) == word_size(
        text,
        k,
    ) by {
        if j <= k {
            assert(word_start(text, j) == start);
            lemma_word_end_run(text, j, end);
        } else {
            lemma_word_start_run(text, j);
            lemma_word_end_run(text, j, end);
            lemma_word_run_start(text, start, j);
        }
    }
}

/// A run without whitespace that starts at the start of the text or behind
/// a whitespace character starts the word of each position in or right
/// behind it.
pub proof fn lemma_word_run_start(text: Seq<char>, a: int, j: int)
    requires
        0 <= a <= j <= text.len(),
        forall|m: int| a <= m < j ==> !is_whitespace_char(#[trigger] text[m]),
        a == 0 || is_whitespace_char(text[a - 1]),
    ensures
        word_start(text, j) == a,
    decreases j - a,
{
    if a < j {
        lemma_word_run_start(text, a, j - 1);
    }
}

/// The size of a word is at least the number of its characters, and at most
/// the size of the whole text.
pub proof fn lemma_word_size_bounds(text: Seq<char>, k: int)
    requires
        0 <= k < text.len(),
        !is_whitespace_char(text[k]),
    ensures
        0 <= word_start(text, k) <= k < word_end(text, k) <= text.len(),
        word_end(text, k) - word_start(text, k) <= word_size(text, k) <= encode_utf8(text).len(),
{
    lemma_word_start_run(text, k);
    lemma_word_end_bounds(text, k);
    lemma_encode_utf8_subrange(text, word_start(text, k), word_end(text, k));
    lemma_encode_utf8_len(text.subrange(word_start(text, k), word_end(text, k)));
}

} // verus!

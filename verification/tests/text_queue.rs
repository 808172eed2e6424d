use selenial_sector::text_queue::TextQueue;
use selenial_sector::words::{is_whitespace, utf8_len};

fn drain(q: &mut TextQueue) -> Vec<(char, usize)> {
    let mut items = Vec::new();
    while let Some(item) = q.next() {
        items.push(item);
    }
    items
}

#[test]
fn whitespace_is_what_the_standard_library_calls_whitespace() {
    for code in 0..=0x10FFFFu32 {
        if let Some(c) = char::from_u32(code) {
            assert_eq!(is_whitespace(c), c.is_whitespace(), "code point {:#x}", code);
        }
    }
}

#[test]
fn utf8_len_is_the_encoded_length() {
    for code in 0..=0x10FFFFu32 {
        if let Some(c) = char::from_u32(code) {
            assert_eq!(utf8_len(c), c.len_utf8(), "code point {:#x}", code);
        }
    }
    assert_eq!(utf8_len('a'), 1);
    assert_eq!(utf8_len('é'), 2);
    assert_eq!(utf8_len('越'), 3);
    assert_eq!(utf8_len('🦀'), 4);
}

#[test]
fn new_queue_yields_nothing() {
    let mut q = TextQueue::new();
    assert_eq!(q.next(), None);
    assert_eq!(q.next(), None);
}

#[test]
fn each_character_comes_with_the_size_of_its_word() {
    let mut q = TextQueue::new();
    q.load("ab c".to_string());
    assert_eq!(q.next(), Some(('a', 2)));
    assert_eq!(q.next(), Some(('b', 2)));
    assert_eq!(q.next(), Some((' ', 0)));
    assert_eq!(q.next(), Some(('c', 1)));
    assert_eq!(q.next(), None);
}

#[test]
fn exhausted_queue_stays_exhausted_until_loaded() {
    let mut q = TextQueue::new();
    q.load("hi".to_string());
    assert_eq!(drain(&mut q), vec![('h', 2), ('i', 2)]);
    for _ in 0..10 {
        assert_eq!(q.next(), None);
    }
    q.load("yo".to_string());
    assert_eq!(drain(&mut q), vec![('y', 2), ('o', 2)]);
    assert_eq!(q.next(), None);
}

#[test]
fn empty_text_yields_nothing() {
    let mut q = TextQueue::new();
    q.load(String::new());
    assert_eq!(q.next(), None);
    assert_eq!(q.next(), None);
}

#[test]
fn load_starts_again_at_the_first_character() {
    let mut q = TextQueue::new();
    q.load("abc def".to_string());
    assert_eq!(q.next(), Some(('a', 3)));
    assert_eq!(q.next(), Some(('b', 3)));
    q.load("xy".to_string());
    assert_eq!(drain(&mut q), vec![('x', 2), ('y', 2)]);
}

#[test]
fn clear_exhausts_the_queue() {
    let mut q = TextQueue::new();
    q.load("abc".to_string());
    assert_eq!(q.next(), Some(('a', 3)));
    q.clear();
    assert_eq!(q.next(), None);
}

#[test]
fn word_size_counts_utf8_bytes() {
    let mut q = TextQueue::new();
    q.load("héllo 越".to_string());
    assert_eq!(
        drain(&mut q),
        vec![('h', 6), ('é', 6), ('l', 6), ('l', 6), ('o', 6), (' ', 0), ('越', 3)]
    );
}

#[test]
fn every_whitespace_character_ends_a_word() {
    let mut q = TextQueue::new();
    q.load("a\tbc\n d  e".to_string());
    assert_eq!(
        drain(&mut q),
        vec![
            ('a', 1),
            ('\t', 0),
            ('b', 2),
            ('c', 2),
            ('\n', 0),
            (' ', 0),
            ('d', 1),
            (' ', 0),
            (' ', 0),
            ('e', 1)
        ]
    );
}

#[test]
fn text_of_whitespace_only_has_no_word() {
    let mut q = TextQueue::new();
    q.load("  ".to_string());
    assert_eq!(drain(&mut q), vec![(' ', 0), (' ', 0)]);
}

#[test]
fn clone_reads_on_from_the_same_place() {
    let mut q = TextQueue::new();
    q.load("ab".to_string());
    assert_eq!(q.next(), Some(('a', 2)));
    let mut copy = q.clone();
    assert_eq!(copy.next(), Some(('b', 2)));
    assert_eq!(q.next(), Some(('b', 2)));
}

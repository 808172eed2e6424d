use selenial_sector::error::ConfigError;
use selenial_sector::textbox::{TextBox, CHAR_ADVANCE};
use selenial_sector::vector::Point2D;

fn reveal_all(b: &mut TextBox) -> usize {
    let mut steps = 0;
    while b.update().is_some() {
        steps += 1;
    }
    steps
}

fn contents(b: &TextBox) -> Vec<String> {
    b.lines().iter().map(|l| l.1.clone()).collect()
}

#[test]
fn second_word_that_does_not_fit_goes_to_a_new_line() {
    let mut b = TextBox::new(50, 18, "abcde fghij".to_string(), Point2D::new(0, 0)).unwrap();
    assert_eq!(reveal_all(&mut b), 11);
    assert_eq!(contents(&b), vec!["abcde ", "fghij"]);
    assert_eq!(b.lines()[0].0, Point2D::new(0, 0));
    assert_eq!(b.lines()[1].0, Point2D::new(0, 18));
}

#[test]
fn character_advance_is_ten_units() {
    assert_eq!(CHAR_ADVANCE, 10);
}

#[test]
fn zero_width_is_refused() {
    let r = TextBox::new(0, 18, "abc".to_string(), Point2D::new(0, 0));
    assert_eq!(r.err(), Some(ConfigError::ZeroWidth));
}

#[test]
fn new_box_has_one_empty_line_at_its_start() {
    let b = TextBox::new(100, 18, "abc".to_string(), Point2D::new(5, 7)).unwrap();
    assert_eq!(b.lines().len(), 1);
    assert_eq!(b.lines()[0], (Point2D::new(5, 7), String::new()));
    assert_eq!(b.display_cursor(), Point2D::new(5, 7));
    assert_eq!(b.width(), 100);
    assert_eq!(b.font_size(), 18);
}

#[test]
fn update_reveals_one_character_at_a_time() {
    let mut b = TextBox::new(100, 18, "hey".to_string(), Point2D::new(0, 0)).unwrap();
    assert_eq!(b.update(), Some(()));
    assert_eq!(contents(&b), vec!["h"]);
    assert_eq!(b.update(), Some(()));
    assert_eq!(contents(&b), vec!["he"]);
    assert_eq!(b.update(), Some(()));
    assert_eq!(contents(&b), vec!["hey"]);
    assert_eq!(b.update(), None);
    assert_eq!(b.update(), None);
    assert_eq!(contents(&b), vec!["hey"]);
}

#[test]
fn word_longer_than_the_width_still_ends() {
    let mut b = TextBox::new(30, 18, "abcdefgh".to_string(), Point2D::new(0, 0)).unwrap();
    assert_eq!(reveal_all(&mut b), 8);
    assert_eq!(contents(&b), vec!["", "a", "b", "c", "d", "e", "f", "g", "h"]);
    assert_eq!(b.update(), None);
}

#[test]
fn word_that_fits_is_never_split() {
    let text = "aa bbb cccc dd eeeee f";
    for width in [50u32, 60, 70, 80, 100, 130, 1000] {
        let mut b = TextBox::new(width, 18, text.to_string(), Point2D::new(0, 0)).unwrap();
        reveal_all(&mut b);
        let lines = contents(&b);
        assert_eq!(lines.concat(), text);
        for word in text.split(' ') {
            assert!(
                lines.iter().any(|l| l.contains(word)),
                "width {}: {:?} splits {:?}",
                width,
                lines,
                word
            );
        }
    }
}

#[test]
fn wraps_where_the_next_word_would_pass_the_limit() {
    let mut b = TextBox::new(70, 20, "ab cd efg h".to_string(), Point2D::new(3, 4)).unwrap();
    reveal_all(&mut b);
    assert_eq!(contents(&b), vec!["ab cd ", "efg h"]);
    assert_eq!(b.lines()[1].0, Point2D::new(3, 24));
    assert_eq!(b.last_line_anchor(), Point2D::new(3, 24));
    assert_eq!(b.display_cursor(), Point2D::new(3, 24));
}

#[test]
fn line_over_the_limit_wraps_at_the_next_character() {
    let mut b = TextBox::new(50, 18, "ab cd  x".to_string(), Point2D::new(0, 0)).unwrap();
    reveal_all(&mut b);
    assert_eq!(contents(&b), vec!["ab cd ", " x"]);
}

#[test]
fn word_size_in_bytes_decides_the_wrap() {
    let mut b = TextBox::new(30, 18, "éé".to_string(), Point2D::new(0, 0)).unwrap();
    reveal_all(&mut b);
    assert_eq!(contents(&b), vec!["", "é", "é"]);
}

#[test]
fn new_line_moves_down_by_the_line_height() {
    let mut b = TextBox::new(100, 18, "ab".to_string(), Point2D::new(2, 3)).unwrap();
    b.update();
    b.new_line();
    assert_eq!(b.lines().len(), 2);
    assert_eq!(b.lines()[1], (Point2D::new(2, 21), String::new()));
    b.update();
    assert_eq!(contents(&b), vec!["a", "b"]);
}

#[test]
fn blank_line_starts_two_lines() {
    let mut b = TextBox::new(100, 18, "ab".to_string(), Point2D::new(0, 0)).unwrap();
    b._blank_line();
    assert_eq!(b.lines().len(), 3);
    assert_eq!(b.last_line_anchor(), Point2D::new(0, 36));
}

#[test]
fn set_anchor_leaves_one_empty_line_at_the_new_place() {
    let mut b = TextBox::new(50, 18, "abcde fghij".to_string(), Point2D::new(0, 0)).unwrap();
    reveal_all(&mut b);
    b.set_anchor(Point2D::new(9, 9));
    assert_eq!(b.lines().len(), 1);
    assert_eq!(b.lines()[0], (Point2D::new(9, 9), String::new()));
    assert_eq!(b.display_cursor(), Point2D::new(9, 9));
    assert_eq!(b.last_line_anchor(), Point2D::new(9, 9));
    assert_eq!(b.update(), None);
}

#[test]
fn display_cursor_stays_at_the_end_of_the_range() {
    let mut b = TextBox::new(10, 5, "a b".to_string(), Point2D::new(0, i64::MAX - 2)).unwrap();
    b.new_line();
    assert_eq!(b.last_line_anchor(), Point2D::new(0, i64::MAX));
}

#[test]
fn empty_text_reveals_nothing() {
    let mut b = TextBox::new(50, 18, String::new(), Point2D::new(0, 0)).unwrap();
    assert_eq!(b.update(), None);
    assert_eq!(contents(&b), vec![""]);
}

#[test]
fn no_line_is_more_than_one_character_over_the_limit() {
    let text = "a bb ccc dddd eeeee ffffff ggggggg  hh\ti\n\njjjjjjjjjjjj k";
    for width in 1u32..=150 {
        let mut b = TextBox::new(width, 18, text.to_string(), Point2D::new(0, 0)).unwrap();
        assert_eq!(reveal_all(&mut b), text.chars().count());
        for line in contents(&b) {
            let length = line.chars().count() as u32 * CHAR_ADVANCE;
            assert!(length <= width + CHAR_ADVANCE, "width {}: {:?}", width, line);
        }
        assert_eq!(contents(&b).concat(), text);
    }
}

#[test]
fn clone_reveals_on_its_own() {
    let mut b = TextBox::new(100, 18, "ab".to_string(), Point2D::new(0, 0)).unwrap();
    b.update();
    let mut copy = b.clone();
    copy.update();
    assert_eq!(contents(&copy), vec!["ab"]);
    assert_eq!(contents(&b), vec!["a"]);
    b.update();
    assert_eq!(contents(&b), vec!["ab"]);
}

#[test]
fn each_error_has_a_message_of_its_own() {
    assert_eq!(ConfigError::ZeroWidth.message(), "the width limit of a text box is zero");
    assert_eq!(ConfigError::NoDialogue.message(), "the script has no dialogue to start with");
    assert_eq!(
        ConfigError::UnknownDecision.message(),
        "a dialogue names a follower that the script does not hold"
    );
    assert_eq!(
        ConfigError::ZeroRate.message(),
        "the number of characters to reveal at each tick is zero"
    );
}

#[test]
fn lines_stand_one_line_height_apart() {
    let mut b = TextBox::new(20, 7, "a b c d e".to_string(), Point2D::new(3, -10)).unwrap();
    reveal_all(&mut b);
    assert!(b.lines().len() > 2);
    for (i, line) in b.lines().iter().enumerate() {
        assert_eq!(line.0, Point2D::new(3, -10 + 7 * i as i64));
    }
    assert_eq!(b.display_cursor(), b.last_line_anchor());
}

use selenial_sector::dialogue::{Dialogue, Key};
use selenial_sector::edge::Edge;
use selenial_sector::screen::{DialogueState, Screen, Tick};
use selenial_sector::textbox::copy_lines;
use selenial_sector::error::ConfigError;
use selenial_sector::vector::Point2D;

fn node(text: &str, decisions: Option<Vec<usize>>, key: Option<char>) -> Dialogue {
    Dialogue::new(
        text.to_string(),
        decisions,
        key.map(Key::from_char),
        1200,
        18,
        Some(Point2D::new(30, 50)),
    )
    .unwrap()
}

fn screen(script: Vec<Dialogue>) -> Screen {
    Screen::with_script(Box::new(Vec::new()), script, 0).unwrap()
}

fn press(c: char) -> Option<Key> {
    Some(Key::from_char(c))
}

fn tick(state: DialogueState) -> Tick {
    Tick { state, ended: state == DialogueState::Terminal }
}

/// Ticks without input until the current dialogue waits for a key.
fn reveal_fully(s: &mut Screen) -> usize {
    let mut ticks = 0;
    while s.update(None).state == DialogueState::Revealing {
        ticks += 1;
    }
    ticks
}

#[test]
fn key_that_no_follower_asks_for_is_ignored() {
    let mut s = screen(vec![
        node("root", Some(vec![1, 2]), None),
        node("a", None, Some('A')),
        node("b", None, Some('B')),
    ]);
    reveal_fully(&mut s);
    assert_eq!(s.update(press('C')), tick(DialogueState::AwaitingInput));
    assert_eq!(s.current_index(), 0);
    assert!(s.history().is_empty());
    assert_eq!(s.update(press('A')), tick(DialogueState::Advanced));
    assert_eq!(s.current_index(), 1);
    assert_eq!(s.current().required_input(), Key::from_char('A'));
}

#[test]
fn any_key_ends_the_session_at_a_dialogue_without_followers() {
    for key in [Key::from_char('A'), Key::escape(), Key::new(0), Key::new(u32::MAX)] {
        let mut s = screen(vec![node("the end", None, None)]);
        reveal_fully(&mut s);
        assert_eq!(s.update(None), tick(DialogueState::AwaitingInput));
        let t = s.update(Some(key));
        assert_eq!(t.state, DialogueState::Terminal);
        assert!(t.ended);
        assert_eq!(s.current_index(), 0);
        assert!(s.history().is_empty());
    }
}

#[test]
fn empty_list_of_followers_ends_the_session_too() {
    let mut s = screen(vec![node("the end", Some(vec![]), None)]);
    reveal_fully(&mut s);
    assert_eq!(s.update(press('Q')), tick(DialogueState::Terminal));
}

#[test]
fn history_holds_the_dialogues_left_behind_in_order() {
    let mut s = screen(vec![
        node("zero", Some(vec![2]), None),
        node("one", Some(vec![3]), Some('B')),
        node("two", Some(vec![1]), Some('A')),
        node("three", None, Some('C')),
    ]);
    let mut moves = 0;
    for key in ['A', 'X', 'B', 'C'] {
        reveal_fully(&mut s);
        if s.update(press(key)).state == DialogueState::Advanced {
            moves += 1;
        }
        assert_eq!(s.history().len(), moves);
    }
    assert_eq!(moves, 3);
    assert_eq!(s.history(), &vec![0, 2, 1]);
    assert_eq!(s.current_index(), 3);
    reveal_fully(&mut s);
    assert_eq!(s.update(press('A')), tick(DialogueState::Terminal));
    assert_eq!(s.history(), &vec![0, 2, 1]);
}

#[test]
fn tea_or_milk_advances_on_m() {
    let mut s = screen(vec![
        node("Tea or Milk?", Some(vec![1, 2]), None),
        node("Milk it is", None, Some('M')),
        node("Tea it is", None, Some('T')),
    ]);
    assert_eq!(reveal_fully(&mut s), 12);
    let last = s.current().get_last_display_pos();
    assert_eq!(last, Point2D::new(30, 50));
    assert_eq!(s.update(press('M')), tick(DialogueState::Advanced));
    assert_eq!(s.current_index(), 1);
    assert_eq!(s.history(), &vec![0]);
    assert_eq!(s.current().start_position(), Point2D::new(30, 68));
    assert_eq!(s.current_lines(), &vec![(Point2D::new(30, 68), String::new())]);
    let shown = s.history_lines();
    assert_eq!(shown, vec![vec![(Point2D::new(30, 50), "Tea or Milk?".to_string())]]);
    reveal_fully(&mut s);
    assert_eq!(s.current_lines(), &vec![(Point2D::new(30, 68), "Milk it is".to_string())]);
}

#[test]
fn new_anchor_lies_below_the_last_line_of_a_wrapped_dialogue() {
    let root = Dialogue::new(
        "abcde fghij".to_string(),
        Some(vec![1]),
        None,
        50,
        18,
        Some(Point2D::new(4, 6)),
    )
    .unwrap();
    let mut s = screen(vec![root, node("next", None, Some('N'))]);
    reveal_fully(&mut s);
    assert_eq!(s.current_lines().len(), 2);
    assert_eq!(s.update(press('N')).state, DialogueState::Advanced);
    assert_eq!(s.current().start_position(), Point2D::new(4, 6 + 18 + 18));
}

#[test]
fn keys_do_nothing_while_the_text_is_revealed() {
    let mut s = screen(vec![node("ab", Some(vec![1]), None), node("next", None, Some('N'))]);
    assert_eq!(s.update(press('N')), tick(DialogueState::Revealing));
    assert_eq!(s.update(press('N')), tick(DialogueState::Revealing));
    assert_eq!(s.current_lines()[0].1, "ab");
    assert_eq!(s.update(press('N')), tick(DialogueState::AwaitingInput));
    assert_eq!(s.current_index(), 0);
    assert_eq!(s.update(None), tick(DialogueState::AwaitingInput));
    assert_eq!(s.update(press('N')), tick(DialogueState::Advanced));
    assert_eq!(s.current_index(), 1);
}

#[test]
fn dialogue_seen_before_is_not_revealed_again() {
    let mut s = screen(vec![
        node("ping", Some(vec![1]), Some('A')),
        node("pong", Some(vec![0]), Some('B')),
    ]);
    reveal_fully(&mut s);
    assert_eq!(s.update(press('B')).state, DialogueState::Advanced);
    reveal_fully(&mut s);
    assert_eq!(s.update(press('A')).state, DialogueState::Advanced);
    assert_eq!(s.current_index(), 0);
    assert!(s.current().has_text_updated());
    assert_eq!(s.current_lines(), &vec![(Point2D::new(30, 86), String::new())]);
    assert_eq!(s.update(None), tick(DialogueState::AwaitingInput));
    assert_eq!(s.history(), &vec![0, 1]);
    let shown = s.history_lines();
    assert_eq!(shown[0], vec![(Point2D::new(30, 86), String::new())]);
    assert_eq!(shown[1], vec![(Point2D::new(30, 68), "pong".to_string())]);
}

#[test]
fn script_must_hold_its_first_dialogue() {
    let r = Screen::with_script(Box::new(Vec::new()), Vec::new(), 0);
    assert_eq!(r.err(), Some(ConfigError::NoDialogue));
    let r = Screen::with_script(Box::new(Vec::new()), vec![node("a", None, None)], 1);
    assert_eq!(r.err(), Some(ConfigError::NoDialogue));
}

#[test]
fn script_must_hold_every_follower() {
    let r = Screen::with_script(
        Box::new(Vec::new()),
        vec![node("a", Some(vec![1]), None), node("b", Some(vec![2]), None)],
        0,
    );
    assert_eq!(r.err(), Some(ConfigError::UnknownDecision));
}

#[test]
fn script_may_start_at_any_of_its_dialogues() {
    let s = Screen::with_script(
        Box::new(Vec::new()),
        vec![node("a", None, None), node("b", None, None)],
        1,
    )
    .unwrap();
    assert_eq!(s.current_index(), 1);
    assert!(s.history().is_empty());
}

#[test]
fn built_in_script_asks_for_milk_or_tea() {
    let edges = vec![Edge::new(Point2D::new(20, 40), Point2D::new(780, 40))];
    let mut s = Screen::new(Box::new(edges));
    assert_eq!(s.current_index(), 0);
    assert_eq!(s.current().start_position(), Point2D::new(30, 50));
    assert_eq!(s.current().required_input(), Key::escape());
    assert_eq!(reveal_fully(&mut s), 34);
    assert_eq!(
        s.current_lines(),
        &vec![(Point2D::new(30, 50), "What do you choose ? Milk or Tea ?".to_string())]
    );
    assert_eq!(s.update(press('T')), tick(DialogueState::AwaitingInput));
    assert_eq!(s.update(press('M')), tick(DialogueState::Advanced));
    reveal_fully(&mut s);
    assert_eq!(
        s.current_lines(),
        &vec![(Point2D::new(30, 68), "Nice you chose the only one we have".to_string())]
    );
    assert_eq!(s.update(press('M')), tick(DialogueState::Terminal));
}

#[test]
fn copy_lines_copies_each_line() {
    let lines = vec![(Point2D::new(1, 2), "ab".to_string()), (Point2D::new(1, 20), "c".to_string())];
    assert_eq!(copy_lines(&lines), lines);
    assert!(copy_lines(&Vec::new()).is_empty());
}

#[test]
fn new_screen_reveals_one_character_at_each_tick() {
    let mut s = screen(vec![node("abc", None, None)]);
    assert_eq!(s.reveal_rate(), 1);
    assert_eq!(s.update(None), tick(DialogueState::Revealing));
    assert_eq!(s.current_lines()[0].1, "a");
    assert_eq!(s.update(None), tick(DialogueState::Revealing));
    assert_eq!(s.update(None), tick(DialogueState::Revealing));
    assert_eq!(s.current_lines()[0].1, "abc");
    assert_eq!(s.update(None), tick(DialogueState::AwaitingInput));
}

#[test]
fn reveal_rate_sets_the_characters_of_a_tick() {
    let mut s = screen(vec![node("abcde", None, None)]);
    assert_eq!(s.set_reveal_rate(2), Ok(()));
    assert_eq!(s.reveal_rate(), 2);
    assert_eq!(s.update(None), tick(DialogueState::Revealing));
    assert_eq!(s.current_lines()[0].1, "ab");
    assert_eq!(s.update(None), tick(DialogueState::Revealing));
    assert_eq!(s.current_lines()[0].1, "abcd");
    assert_eq!(s.update(None), tick(DialogueState::AwaitingInput));
    assert_eq!(s.current_lines()[0].1, "abcde");
    assert_eq!(s.update(None), tick(DialogueState::AwaitingInput));
}

#[test]
fn tick_that_reveals_the_last_character_still_reveals() {
    let mut s = screen(vec![node("abcd", None, None)]);
    assert_eq!(s.set_reveal_rate(4), Ok(()));
    assert_eq!(s.update(None), tick(DialogueState::Revealing));
    assert_eq!(s.current_lines()[0].1, "abcd");
    assert_eq!(s.update(None), tick(DialogueState::AwaitingInput));
}

#[test]
fn reveal_rate_of_zero_is_refused() {
    let mut s = screen(vec![node("abc", None, None)]);
    assert_eq!(s.set_reveal_rate(3), Ok(()));
    assert_eq!(s.set_reveal_rate(0), Err(ConfigError::ZeroRate));
    assert_eq!(s.reveal_rate(), 3);
}

#[test]
fn display_lists_the_history_before_the_current_dialogue() {
    let mut s = screen(vec![
        node("one", Some(vec![1]), None),
        node("two", Some(vec![2]), Some('A')),
        node("three", None, Some('B')),
    ]);
    assert_eq!(s.display(), vec![(Point2D::new(30, 50), String::new())]);
    reveal_fully(&mut s);
    s.update(press('A'));
    reveal_fully(&mut s);
    s.update(press('B'));
    s.update(None);
    s.update(None);
    assert_eq!(
        s.display(),
        vec![
            (Point2D::new(30, 50), "one".to_string()),
            (Point2D::new(30, 68), "two".to_string()),
            (Point2D::new(30, 86), "th".to_string()),
        ]
    );
}

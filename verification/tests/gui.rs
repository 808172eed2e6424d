use selenial_sector::dialogue::Key;
use selenial_sector::edge::{Edge, Vector};
use selenial_sector::gui::{DEFAULT_MARGIN, GUI, LOWER_MARGIN};
use selenial_sector::screen::DialogueState;
use selenial_sector::stats::{GUIStats, PlayerName, Stat, TerminalName};
use selenial_sector::error::ConfigError;
use selenial_sector::vector::Point2D;

fn ends(e: &Edge) -> (Point2D, Point2D) {
    (*e.get_start(), *e.get_end())
}

fn stats() -> GUIStats {
    let stats: Vec<Box<dyn Stat>> =
        vec![PlayerName::new("Vlad".to_string()), TerminalName::new("0001-0001".to_string())];
    GUIStats::new(stats)
}

#[test]
fn edge_runs_from_its_start_to_its_end() {
    let e = Edge::new(Point2D::new(1, 2), Point2D::new(3, 4));
    assert_eq!(*e.get_start(), Point2D::new(1, 2));
    assert_eq!(*e.get_end(), Point2D::new(3, 4));
}

#[test]
fn margins_are_twenty_and_a_hundred() {
    assert_eq!(DEFAULT_MARGIN, 20);
    assert_eq!(LOWER_MARGIN, 100);
}

#[test]
fn edges_frame_the_window() {
    let edges = GUI::build_edges(800, 600);
    assert_eq!(edges.len(), 4);
    assert_eq!(ends(&edges[0]), (Point2D::new(20, 40), Point2D::new(780, 40)));
    assert_eq!(ends(&edges[1]), (Point2D::new(20, 500), Point2D::new(780, 500)));
    assert_eq!(ends(&edges[2]), (Point2D::new(20, 40), Point2D::new(20, 500)));
    assert_eq!(ends(&edges[3]), (Point2D::new(780, 40), Point2D::new(780, 500)));
}

#[test]
fn edges_of_a_window_at_the_end_of_the_range() {
    let edges = GUI::build_edges(i64::MIN, i64::MIN + 50);
    assert_eq!(ends(&edges[0]), (Point2D::new(20, 40), Point2D::new(i64::MIN, 40)));
    assert_eq!(ends(&edges[1]), (Point2D::new(20, i64::MIN), Point2D::new(i64::MIN, i64::MIN)));
}

#[test]
fn build_edge_takes_the_first_two_of_each() {
    let e = GUI::build_edge(vec![1, 2, 9], vec![3, 4]);
    assert_eq!(ends(&e), (Point2D::new(3, 1), Point2D::new(4, 2)));
}

#[test]
fn window_starts_with_the_built_in_script() {
    let gui = GUI::new(800, 600, stats());
    assert_eq!(gui.edges().len(), 4);
    assert_eq!(ends(&gui.edges()[0]), (Point2D::new(20, 40), Point2D::new(780, 40)));
    assert_eq!(gui.stats().build_stats_text_body(), "Username: Vlad  |  Terminal: 0001-0001");
    assert_eq!(gui.term_input().build().1, "_");
    assert_eq!(gui.screen().current_index(), 0);
    assert_eq!(gui.screen().current().start_position(), Point2D::new(30, 50));
}

#[test]
fn window_tick_is_the_tick_of_its_screen() {
    let mut gui = GUI::new(800, 600, stats());
    let mut ticks = 0;
    while gui.update(None).state == DialogueState::Revealing {
        ticks += 1;
    }
    assert_eq!(ticks, 34);
    assert_eq!(gui.update(Some(Key::from_char('M'))).state, DialogueState::Advanced);
    assert_eq!(gui.screen().history(), &vec![0]);
    while gui.update(None).state == DialogueState::Revealing {}
    let t = gui.update(Some(Key::escape()));
    assert_eq!(t.state, DialogueState::Terminal);
    assert!(t.ended);
}

#[test]
fn window_passes_the_reveal_rate_to_its_screen() {
    let mut gui = GUI::new(800, 600, stats());
    assert_eq!(gui.set_reveal_rate(0), Err(ConfigError::ZeroRate));
    assert_eq!(gui.set_reveal_rate(17), Ok(()));
    assert_eq!(gui.screen().reveal_rate(), 17);
    assert_eq!(gui.update(None).state, DialogueState::Revealing);
    assert_eq!(gui.update(None).state, DialogueState::Revealing);
    assert_eq!(gui.update(None).state, DialogueState::AwaitingInput);
}

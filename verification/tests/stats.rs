use selenial_sector::stats::{GUIStats, PlayerName, Stat, TerminalName, STATS_SEPARATOR};

#[test]
fn player_name_is_shown_as_username() {
    let p = PlayerName::new("Vlad".to_string());
    assert_eq!(p.get_name(), "Username");
    assert_eq!(p.get_value(), "Vlad");
    assert_eq!(p.build(), "Username: Vlad");
}

#[test]
fn terminal_name_is_shown_as_terminal() {
    let t = TerminalName::new("0001-0001".to_string());
    assert_eq!(t.get_name(), "Terminal");
    assert_eq!(t.get_value(), "0001-0001");
    assert_eq!(t.build(), "Terminal: 0001-0001");
}

#[test]
fn stats_line_joins_the_stats_with_the_separator() {
    assert_eq!(STATS_SEPARATOR, "  |  ");
    let stats: Vec<Box<dyn Stat>> =
        vec![PlayerName::new("Vlad".to_string()), TerminalName::new("0001-0001".to_string())];
    let line = GUIStats::new(stats).build_stats_text_body();
    assert_eq!(line, "Username: Vlad  |  Terminal: 0001-0001");
}

#[test]
fn stats_line_of_one_stat_has_no_separator() {
    let stats: Vec<Box<dyn Stat>> = vec![PlayerName::new(String::new())];
    assert_eq!(GUIStats::new(stats).build_stats_text_body(), "Username: ");
}

#[test]
fn stats_line_without_stats_is_empty() {
    assert_eq!(GUIStats::new(Vec::new()).build_stats_text_body(), "");
}

#[test]
fn stats_line_stands_in_the_upper_left_corner() {
    let stats: Vec<Box<dyn Stat>> = vec![TerminalName::new("T".to_string())];
    let (pos, text) = GUIStats::new(stats).display();
    assert_eq!(pos, selenial_sector::vector::Point2D::new(20, 15));
    assert_eq!(text, "Terminal: T");
}

//! The stats shown above the screen, each as `name: value`.

use vstd::prelude::*;
use vstd::string::*;
use crate::vector::Point2D;

verus! {

/// Horizontal position of the stats line.
pub const STATS_X: i64 = 20;

/// Vertical position of the stats line.
pub const STATS_Y: i64 = 15;

/// What stands between two stats on the stats line.
pub const STATS_SEPARATOR: &'static str = "  |  ";

/// The text of one stat: its name, a colon and a space, and its value.
pub open spec fn stat_text(name: Seq<char>, value: Seq<char>) -> Seq<char> {
    name + ": "@ + value
}

/// The given texts in a row, with `separator` between each two of them.
pub open spec fn joined(parts: Seq<Seq<char>>, separator: Seq<char>) -> Seq<char>
    decreases parts.len(),
{
    if parts.len() == 0 {
        Seq::empty()
    } else if parts.len() == 1 {
        parts[0]
    } else {
        joined(parts.drop_last(), separator) + separator + parts.last()
    }
}

/// A named value to show on the stats line.
pub trait Stat {
    /// The name of the stat.
    spec fn name(&self) -> Seq<char>;

    /// The value of the stat.
    spec fn value(&self) -> Seq<char>;

    fn get_name(&self) -> (r: String)
        ensures
            r@ == self.name(),
    ;

    fn get_value(&self) -> (r: String)
        ensures
            r@ == self.value(),
    ;

    /// The text of the stat.
    fn build(&self) -> (r: String)
        ensures
            r@ == stat_text(self.name(), self.value()),
    {
        let value = self.get_value();
        self.get_name().concat(": ").concat(value.as_str())
    }
}

/// Player chosen username
pub struct PlayerName {
    display_name: String,
    display_value: String,
}

impl PlayerName {
    pub fn new(value: String) -> (r: Box<Self>)
        ensures
            r.name() == "Username"@,
            r.value() == value@,
    {
        Box::new(Self { display_name: String::from_str("Username"), display_value: value })
    }
}

impl Stat for PlayerName {
    closed spec fn name(&self) -> Seq<char> {
        self.display_name@
    }

    closed spec fn value(&self) -> Seq<char> {
        self.display_value@
    }

    fn get_name(&self) -> (r: String) {
        self.display_name.clone()
    }

    fn get_value(&self) -> (r: String) {
        self.display_value.clone()
    }
}

/// Terminal Name used as the game terminal change
pub struct TerminalName {
    display_name: String,
    display_value: String,
}

impl TerminalName {
    pub fn new(value: String) -> (r: Box<Self>)
        ensures
            r.name() == "Terminal"@,
            r.value() == value@,
    {
        Box::new(Self { display_name: String::from_str("Terminal"), display_value: value })
    }
}

impl Stat for TerminalName {
    closed spec fn name(&self) -> Seq<char> {
        self.display_name@
    }

    closed spec fn value(&self) -> Seq<char> {
        self.display_value@
    }

    fn get_name(&self) -> (r: String) {
        self.display_name.clone()
    }

    fn get_value(&self) -> (r: String) {
        self.display_value.clone()
    }
}

/// Factory to build all stats
///
/// Stats should implement the `Stat` trait
pub struct GUIStats {
    stats: Vec<Box<dyn Stat>>,
}

impl GUIStats {
    /// The texts of the stats, in order.
    pub closed spec fn texts(&self) -> Seq<Seq<char>> {
        self.stats@.map_values(|s: Box<dyn Stat>| stat_text(s.name(), s.value()))
    }

    pub fn new(stats: Vec<Box<dyn Stat>>) -> (r: Self)
        ensures
            r.texts().len() == stats.len(),
            forall|i: int|
                0 <= i < stats.len() ==> #[trigger] r.texts()[i] == stat_text(
                    stats[i].name(),
                    stats[i].value(),
                ),
    {
        Self { stats }
    }

    /// What is to be drawn: the stats line, and where it stands.
    pub fn display(&self) -> (r: (Point2D, String))
        ensures
            r.0 == (Point2D { x: STATS_X, y: STATS_Y }),
            r.1@ == joined(self.texts(), STATS_SEPARATOR@),
    {
        let dest_point = Point2D::new(STATS_X, STATS_Y);
        (dest_point, self.build_stats_text_body())
    }

    /// The stats line: the text of each stat, with the separator between
    /// them.
    pub fn build_stats_text_body(&self) -> (r: String)
        ensures
            r@ == joined(self.texts(), STATS_SEPARATOR@),
    {
        let mut body = String::new();
        let mut pos: usize = 0;
        while pos < self.stats.len()
            invariant
                0 <= pos <= self.stats.len(),
                body@ == joined(self.texts().take(pos as int), STATS_SEPARATOR@),
            decreases self.stats.len() - pos,
        {
            let text = self.stats[pos].build();
            proof {
                let now = self.texts().take(pos + 1);
                assert(now.drop_last() == self.texts().take(pos as int));
                assert(now.last() == text@);
            }
            if pos > 0 {
                body.append(STATS_SEPARATOR);
            }
            body.append(text.as_str());
            pos += 1;
        }
        assert(self.texts().take(pos as int) == self.texts());
        body
    }
}

} // verus!

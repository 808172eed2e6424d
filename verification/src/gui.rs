//! The parts of the terminal window: the edges that frame the screen, the
//! stats line, the input line, and the screen itself.

use vstd::prelude::*;
use crate::command::{TerminalInput, TerminalInputView};
use crate::dialogue::Key;
use crate::edge::{Edge, Vector};
use crate::matrix::{matrix_cells, matrix_len, matrix_of, matrix_row, nested, EdgesMatrix};
use crate::screen::{Screen, ScreenView, Tick, INNER_SCREEN_MARGIN};
use crate::stats::GUIStats;
use crate::error::ConfigError;
use crate::vector::{clamped_add, clamped_sum, Point2D};

verus! {

/// Distance of the left, upper and right edges from the border of the window.
pub const DEFAULT_MARGIN: i64 = 20;

/// Distance of the lower edge from the lower border of the window.
pub const LOWER_MARGIN: i64 = 100;

/// The coordinates of the four edges of a window of the given size: the
/// upper, the lower, the left and the right edge, each as its two heights
/// and its two widths.
pub open spec fn edges_cells(max_width: int, max_height: int) -> Seq<Seq<Seq<i64>>> {
    let top = (DEFAULT_MARGIN * 2) as i64;
    let left = DEFAULT_MARGIN;
    let right = clamped_sum(max_width, -DEFAULT_MARGIN) as i64;
    let bottom = clamped_sum(max_height, -LOWER_MARGIN) as i64;
    seq![
        seq![seq![top, top], seq![left, right]],
        seq![seq![bottom, bottom], seq![left, right]],
        seq![seq![top, bottom], seq![left, left]],
        seq![seq![top, bottom], seq![right, right]],
    ]
}

/// The four edges that frame the screen in a window of the given size, each
/// as its two ends: the upper and the lower edge from left to right, then
/// the left and the right edge from top to bottom. The edges keep the
/// default margin from the border of the window, twice the margin from its
/// upper border, and the lower margin from its lower border.
pub open spec fn window_edges(max_width: int, max_height: int) -> Seq<(Point2D, Point2D)> {
    let top = (DEFAULT_MARGIN * 2) as i64;
    let left = DEFAULT_MARGIN;
    let right = clamped_sum(max_width, -DEFAULT_MARGIN) as i64;
    let bottom = clamped_sum(max_height, -LOWER_MARGIN) as i64;
    seq![
        (Point2D { x: left, y: top }, Point2D { x: right, y: top }),
        (Point2D { x: left, y: bottom }, Point2D { x: right, y: bottom }),
        (Point2D { x: left, y: top }, Point2D { x: left, y: bottom }),
        (Point2D { x: right, y: top }, Point2D { x: right, y: bottom }),
    ]
}

/// The edge that a block of the matrix describes: from its first width and
/// height to its second width and height.
pub open spec fn edge_ends(block: Seq<Seq<i64>>) -> (Point2D, Point2D) {
    (Point2D { x: block[1][0], y: block[0][0] }, Point2D { x: block[1][1], y: block[0][1] })
}

/// The two ends of an edge.
pub open spec fn ends_of(edge: Edge) -> (Point2D, Point2D) {
    (edge.start(), edge.end())
}

/// The state of a [`GUI`] as contracts see it.
pub struct GUIView {
    /// The two ends of each edge.
    pub edges: Seq<(Point2D, Point2D)>,
    /// The texts of the stats.
    pub stats: Seq<Seq<char>>,
    /// The input line.
    pub term_input: TerminalInputView,
    /// The screen.
    pub screen: ScreenView,
}

/// The terminal window.
pub struct GUI {
    edges: Box<Vec<Edge>>,
    stats: GUIStats,
    term_input: TerminalInput,
    screen: Screen,
}

impl View for GUI {
    type V = GUIView;

    closed spec fn view(&self) -> GUIView {
        GUIView {
            edges: self.edges@.map_values(|e: Edge| ends_of(e)),
            stats: self.stats.texts(),
            term_input: self.term_input@,
            screen: self.screen@,
        }
    }
}

impl GUI {
    /// The invariant of the window: that of its screen.
    pub closed spec fn wf(&self) -> bool {
        self.screen.wf()
    }

    /// The window for a drawable area of the given size: its four edges, the
    /// given stats, an empty input line, and the screen with the built-in
    /// script.
    pub fn new(max_width: i64, max_height: i64, stats: GUIStats) -> (r: Self)
        ensures
            r.wf(),
            r@.edges == window_edges(max_width as int, max_height as int),
            r@.stats == stats.texts(),
            r@.term_input == (TerminalInputView { text: Seq::empty(), current_command: None }),
            r@.screen == ScreenView::starting(
                ScreenView::builtin_script(
                    r@.edges[0].0.translated(
                        Point2D { x: INNER_SCREEN_MARGIN, y: INNER_SCREEN_MARGIN },
                    ),
                ),
                0,
            ),
    {
        let term_input = TerminalInput::new();
        let edges = Box::new(Self::build_edges(max_width, max_height));
        let screen = Screen::new(edges.clone());
        Self { edges, stats, term_input, screen }
    }

    /// Advances the window by one tick, with the key pressed since the last
    /// tick, if any: the screen takes the tick.
    pub fn update(&mut self, new_input: Option<Key>) -> (r: Tick)
        requires
            old(self).wf(),
        ensures
            final(self).wf(),
            final(self)@ == (GUIView { screen: old(self)@.screen.ticked(new_input), ..old(self)@ }),
            r.state == old(self)@.screen.tick_state(new_input),
            r.ended == (r.state == crate::screen::DialogueState::Terminal),
    {
        // Update terminal input
        self.term_input.update();

        // Update terminal screen
        self.screen.update(new_input)
    }

    /// Sets the number of characters that the screen reveals at each tick. A
    /// rate of zero is refused and changes nothing.
    pub fn set_reveal_rate(&mut self, rate: usize) -> (r: Result<(), ConfigError>)
        requires
            old(self).wf(),
        ensures
            final(self).wf(),
            rate == 0 <==> r == Err::<(), ConfigError>(ConfigError::ZeroRate),
            rate > 0 <==> r is Ok,
            final(self)@ == if rate == 0 {
                old(self)@
            } else {
                GUIView {
                    screen: ScreenView { reveal_rate: rate as nat, ..old(self)@.screen },
                    ..old(self)@
                }
            },
    {
        self.screen.set_reveal_rate(rate)
    }

    /// The edges, in the order in which they are drawn.
    pub fn edges(&self) -> (r: &Vec<Edge>)
        ensures
            r@.map_values(|e: Edge| ends_of(e)) == self@.edges,
    {
        &self.edges
    }

    /// The stats.
    pub fn stats(&self) -> (r: &GUIStats)
        ensures
            r.texts() == self@.stats,
    {
        &self.stats
    }

    /// The input line.
    pub fn term_input(&self) -> (r: &TerminalInput)
        ensures
            r@ == self@.term_input,
    {
        &self.term_input
    }

    /// The screen.
    pub fn screen(&self) -> (r: &Screen)
        ensures
            r@ == self@.screen,
            self.wf() ==> r.wf(),
    {
        &self.screen
    }

    /// The four edges of a window of the given size.
    pub fn build_edges(max_width: i64, max_height: i64) -> (edges: Vec<Edge>)
        ensures
            edges.len() == 4,
            edges@.map_values(|e: Edge| ends_of(e)) == window_edges(
                max_width as int,
                max_height as int,
            ),
    {
        let mut edges: Vec<Edge> = Vec::new();

        let edges_matrix = Self::compute_edges_matrix(max_width, max_height);
        let ghost cells = edges_cells(max_width as int, max_height as int);
        let count = matrix_len(&edges_matrix);
        let mut block: usize = 0;
        while block < count
            invariant
                matrix_cells(edges_matrix) == cells,
                cells == edges_cells(max_width as int, max_height as int),
                count == cells.len(),
                0 <= block <= count,
                edges.len() == block,
                forall|i: int| 0 <= i < block ==> ends_of(#[trigger] edges[i]) == edge_ends(cells[i]),
            decreases count - block,
        {
            let heights = matrix_row(&edges_matrix, block, 0);
            let widths = matrix_row(&edges_matrix, block, 1);
            let edge = Self::build_edge(heights, widths);
            edges.push(edge);
            block += 1;
        }
        assert(edges@.map_values(|e: Edge| ends_of(e)) =~= window_edges(
            max_width as int,
            max_height as int,
        ));
        edges
    }

    /// The edge from the first of the widths and heights to the second.
    pub fn build_edge(heights: Vec<i64>, widths: Vec<i64>) -> (edge: Edge)
        requires
            heights.len() >= 2,
            widths.len() >= 2,
        ensures
            edge.start() == (Point2D { x: widths[0], y: heights[0] }),
            edge.end() == (Point2D { x: widths[1], y: heights[1] }),
    {
        let start = Point2D::new(widths[0], heights[0]);
        let end = Point2D::new(widths[1], heights[1]);

        Edge::new(start, end)
    }

    /// The matrix of the coordinates of the four edges of a window of the
    /// given size.
    pub fn compute_edges_matrix(max_width: i64, max_height: i64) -> (m: EdgesMatrix)
        ensures
            matrix_cells(m) == edges_cells(max_width as int, max_height as int),
    {
        let top = DEFAULT_MARGIN * 2;
        let left = DEFAULT_MARGIN;
        let right = clamped_add(max_width, -DEFAULT_MARGIN);
        let bottom = clamped_add(max_height, -LOWER_MARGIN);
        let values: [[[i64; 2]; 2]; 4] = [
            // Upper [heights, widths]
            [[top, top], [left, right]],
            // Lower [heights, widths]
            [[bottom, bottom], [left, right]],
            // Left [heights, widths]
            [[top, bottom], [left, left]],
            // Right [heights, widths]
            [[top, bottom], [right, right]],
        ];
        let m = matrix_of(&values);
        assert(nested(values) =~~= edges_cells(max_width as int, max_height as int));
        m
    }
}

} // verus!

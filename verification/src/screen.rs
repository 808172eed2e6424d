//! The screen on which the conversation runs: it holds the script, shows one
//! dialogue at a time, and moves on to the next as keys are pressed.

use vstd::prelude::*;
use vstd::string::*;
use crate::dialogue::{decide, script_view, Decision, Dialogue, DialogueView, Key};
use crate::edge::{Edge, Vector};
use crate::navigation::lemma_ticked_valid;
use crate::error::ConfigError;
use crate::textbox::{copy_lines, lines_view, Line};
use crate::vector::Point2D;

verus! {

/// Width of the lines of the built-in script.
pub const SCREEN_WIDTH: u32 = 1200;

/// Line height of the built-in script.
pub const SCREEN_FONT_SIZE: u32 = 18;

/// Distance, along each axis, between the first edge and the first dialogue.
pub const INNER_SCREEN_MARGIN: i64 = 10;

/// Number of characters that a new screen reveals at each tick.
pub const DEFAULT_REVEAL_RATE: usize = 1;

/// Where the conversation stands after a tick.
#[derive(Debug, Clone, Copy, PartialEq, Eq, Structural)]
pub enum DialogueState {
    /// The current dialogue revealed one more character.
    Revealing,
    /// The current dialogue is fully revealed and waits for a key.
    AwaitingInput,
    /// A key selected a following dialogue, which is now the current one.
    Advanced,
    /// A key was pressed at a dialogue that nothing follows.
    Terminal,
}

/// What a tick reports.
#[derive(Debug, Clone, Copy, PartialEq, Eq, Structural)]
pub struct Tick {
    /// Where the conversation stands.
    pub state: DialogueState,
    /// Whether the conversation is over and the session has to end.
    pub ended: bool,
}

/// The state of a [`Screen`] as contracts see it.
pub struct ScreenView {
    /// The dialogues of the script.
    pub script: Seq<DialogueView>,
    /// The dialogues shown before the current one, oldest first, as indices
    /// into the script.
    pub history: Seq<usize>,
    /// Index of the current dialogue.
    pub current: usize,
    /// Number of characters revealed at each tick.
    pub reveal_rate: nat,
}

impl ScreenView {
    /// The state of a screen that starts the given script at `first`.
    pub open spec fn starting(script: Seq<DialogueView>, first: usize) -> ScreenView {
        ScreenView {
            script,
            history: Seq::empty(),
            current: first,
            reveal_rate: DEFAULT_REVEAL_RATE as nat,
        }
    }

    /// Every follower named in the script lies within the script.
    pub open spec fn decisions_known(script: Seq<DialogueView>) -> bool {
        forall|i: int, j: int|
            0 <= i < script.len() && 0 <= j < script[i].decisions.len()
                ==> #[trigger] script[i].decisions[j] < script.len()
    }

    /// The built-in script: a question, and the answer that the key `M`
    /// selects.
    pub open spec fn builtin_script(anchor: Point2D) -> Seq<DialogueView> {
        seq![
            DialogueView::fresh(
                "What do you choose ? Milk or Tea ?"@,
                seq![1usize],
                Key { code: crate::dialogue::ESCAPE_CODE },
                SCREEN_WIDTH as nat,
                SCREEN_FONT_SIZE as nat,
                anchor,
            ),
            DialogueView::fresh(
                "Nice you chose the only one we have"@,
                Seq::empty(),
                Key { code: 'M' as u32 },
                SCREEN_WIDTH as nat,
                SCREEN_FONT_SIZE as nat,
                anchor,
            ),
        ]
    }

    /// The current dialogue.
    pub open spec fn current_dialogue(self) -> DialogueView {
        self.script[self.current as int]
    }

    /// The current dialogue and every dialogue named in the script or in the
    /// history exist, each text box is valid, and a tick reveals at least
    /// one character.
    pub open spec fn valid(self) -> bool {
        &&& self.current < self.script.len()
        &&& 1 <= self.reveal_rate <= usize::MAX
        &&& forall|i: int| 0 <= i < self.history.len() ==> self.history[i] < self.script.len()
        &&& forall|i: int|
            0 <= i < self.script.len() ==> (#[trigger] self.script[i]).textbox.valid()
        &&& Self::decisions_known(self.script)
    }

    /// The lines of the dialogues at the given indices, one dialogue after
    /// the other.
    pub open spec fn lines_of(self, indices: Seq<usize>) -> Seq<(Point2D, Seq<char>)>
        decreases indices.len(),
    {
        if indices.len() == 0 {
            Seq::empty()
        } else {
            self.lines_of(indices.drop_last()) + self.script[indices.last() as int].textbox.lines
        }
    }

    /// Everything that the screen shows, in the order in which it is drawn:
    /// the lines of the dialogues of the history, oldest first, then the
    /// lines of the current dialogue.
    pub open spec fn shown(self) -> Seq<(Point2D, Seq<char>)> {
        self.lines_of(self.history) + self.current_dialogue().textbox.lines
    }

    /// What a tick with the given input reports.
    pub open spec fn tick_state(self, input: Option<Key>) -> DialogueState {
        let current = self.current_dialogue();
        if !current.has_text_updated {
            if current.updated_by(self.reveal_rate).has_text_updated {
                DialogueState::AwaitingInput
            } else {
                DialogueState::Revealing
            }
        } else {
            match input {
                None => DialogueState::AwaitingInput,
                Some(key) => match decide(current.decisions, self.script, key) {
                    Decision::Advance(_) => DialogueState::Advanced,
                    Decision::NoMatch => DialogueState::AwaitingInput,
                    Decision::EndSession => DialogueState::Terminal,
                },
            }
        }
    }

    /// The state after a tick with the given input.
    ///
    /// A dialogue that is not fully revealed takes as many reveal steps as the
    /// reveal rate says, whatever the input, and is fully revealed once one
    /// of them finds nothing left to reveal. A fully revealed one waits: without input, or with a key
    /// that no follower asks for, nothing changes, nor where nothing follows.
    /// Where a follower asks for the key, the current dialogue goes to the
    /// history, and the follower, moved to one line below the last line shown,
    /// becomes the current one.
    pub open spec fn ticked(self, input: Option<Key>) -> ScreenView {
        let current = self.current_dialogue();
        if !current.has_text_updated {
            ScreenView {
                script: self.script.update(
                    self.current as int,
                    current.updated_by(self.reveal_rate),
                ),
                ..self
            }
        } else {
            match input {
                None => self,
                Some(key) => match decide(current.decisions, self.script, key) {
                    Decision::Advance(next) => ScreenView {
                        script: self.script.update(
                            next as int,
                            self.script[next as int].positioned(current.next_anchor()),
                        ),
                        history: self.history.push(self.current),
                        current: next,
                        ..self
                    },
                    Decision::NoMatch => self,
                    Decision::EndSession => self,
                },
            }
        }
    }
}

/// The screen: the script, the dialogue that is shown, and those shown before.
pub struct Screen {
    _edges: Box<Vec<Edge>>,
    script: Vec<Dialogue>,
    dialogue_history: Vec<usize>,
    current_dialogue: usize,
    reveal_rate: usize,
}

impl View for Screen {
    type V = ScreenView;

    closed spec fn view(&self) -> ScreenView {
        ScreenView {
            script: script_view(self.script@),
            history: self.dialogue_history@,
            current: self.current_dialogue,
            reveal_rate: self.reveal_rate as nat,
        }
    }
}

impl Screen {
    /// The invariant of the screen.
    pub closed spec fn wf(&self) -> bool {
        &&& self@.valid()
        &&& forall|i: int| 0 <= i < self.script.len() ==> (#[trigger] self.script[i]).wf()
    }

    /// A well-formed screen has a valid state.
    pub proof fn lemma_wf_valid(&self)
        requires
            self.wf(),
        ensures
            self@.valid(),
    {
    }

    /// The screen with the built-in script, which starts at the inner margin
    /// from the start of the first edge.
    pub fn new(edges: Box<Vec<Edge>>) -> (s: Screen)
        requires
            edges.len() > 0,
        ensures
            s.wf(),
            s@ == ScreenView::starting(
                ScreenView::builtin_script(
                    edges[0].start().translated(
                        Point2D { x: INNER_SCREEN_MARGIN, y: INNER_SCREEN_MARGIN },
                    ),
                ),
                0,
            ),
    {
        let screen_anchor = *edges[0].get_start() + Point2D::new(
            INNER_SCREEN_MARGIN,
            INNER_SCREEN_MARGIN,
        );
        let action2 = Dialogue::new(
            String::from_str("Nice you chose the only one we have"),
            None,
            Some(Key::from_char('M')),
            SCREEN_WIDTH,
            SCREEN_FONT_SIZE,
            Some(screen_anchor),
        ).unwrap();

        let mut decisions: Vec<usize> = Vec::new();
        decisions.push(1);
        let action1 = Dialogue::new(
            String::from_str("What do you choose ? Milk or Tea ?"),
            Some(decisions),
            None,
            SCREEN_WIDTH,
            SCREEN_FONT_SIZE,
            Some(screen_anchor),
        ).unwrap();

        let mut script: Vec<Dialogue> = Vec::new();
        script.push(action1);
        script.push(action2);
        let s = Self {
            _edges: edges,
            script,
            current_dialogue: 0,
            dialogue_history: Vec::new(),
            reveal_rate: DEFAULT_REVEAL_RATE,
        };
        proof {
            assert(s@.script =~= ScreenView::builtin_script(screen_anchor));
            s.script[0].lemma_wf_valid();
            s.script[1].lemma_wf_valid();
        }
        s
    }

    /// The screen that runs `script`, starting at the dialogue at index
    /// `first`. The script is refused where it has no such dialogue, or where
    /// one of its dialogues names a follower that it does not hold.
    pub fn with_script(edges: Box<Vec<Edge>>, script: Vec<Dialogue>, first: usize) -> (r: Result<
        Screen,
        ConfigError,
    >)
        requires
            forall|i: int| 0 <= i < script.len() ==> (#[trigger] script[i]).wf(),
        ensures
            r matches Ok(s) ==> s.wf() && s@ == ScreenView::starting(script_view(script@), first),
            r matches Err(e) ==> e == if first >= script.len() {
                ConfigError::NoDialogue
            } else {
                ConfigError::UnknownDecision
            },
            r is Ok <==> first < script.len() && ScreenView::decisions_known(script_view(script@)),
    {
        if first >= script.len() {
            return Err(ConfigError::NoDialogue);
        }
        let mut pos: usize = 0;
        while pos < script.len()
            invariant
                first < script.len(),
                0 <= pos <= script.len(),
                forall|i: int, j: int|
                    0 <= i < pos && 0 <= j < script_view(script@)[i].decisions.len()
                        ==> #[trigger] script_view(script@)[i].decisions[j] < script.len(),
            decreases script.len() - pos,
        {
            if !script[pos].decisions_within(script.len()) {
                proof {
                    let j = choose|j: int|
                        0 <= j < script[pos as int]@.decisions.len() && !(
                        script[pos as int]@.decisions[j] < script.len());
                    assert(!(script_view(script@)[pos as int].decisions[j] < script_view(
                        script@,
                    ).len()));
                }
                return Err(ConfigError::UnknownDecision);
            }
            pos += 1;
        }
        let s = Self {
            _edges: edges,
            script,
            current_dialogue: first,
            dialogue_history: Vec::new(),
            reveal_rate: DEFAULT_REVEAL_RATE,
        };
        proof {
            assert forall|i: int| 0 <= i < s@.script.len() implies (
            #[trigger] s@.script[i]).textbox.valid() by {
                s.script[i].lemma_wf_valid();
            }
        }
        Ok(s)
    }

    /// Number of characters revealed at each tick.
    pub fn reveal_rate(&self) -> (r: usize)
        ensures
            r == self@.reveal_rate,
    {
        self.reveal_rate
    }

    /// Sets the number of characters to reveal at each tick. A rate of zero,
    /// with which no text would ever come out, is refused and changes
    /// nothing.
    pub fn set_reveal_rate(&mut self, rate: usize) -> (r: Result<(), ConfigError>)
        requires
            old(self).wf(),
        ensures
            final(self).wf(),
            rate == 0 <==> r == Err::<(), ConfigError>(ConfigError::ZeroRate),
            rate > 0 <==> r is Ok,
            final(self)@ == if rate == 0 {
                old(self)@
            } else {
                ScreenView { reveal_rate: rate as nat, ..old(self)@ }
            },
    {
        if rate == 0 {
            return Err(ConfigError::ZeroRate);
        }
        self.reveal_rate = rate;
        Ok(())
    }

    /// Index in the script of the dialogue that is shown.
    pub fn current_index(&self) -> (r: usize)
        ensures
            r == self@.current,
    {
        self.current_dialogue
    }

    /// The dialogue that is shown.
    pub fn current(&self) -> (r: &Dialogue)
        requires
            self.wf(),
        ensures
            r@ == self@.current_dialogue(),
            r.wf(),
    {
        &self.script[self.current_dialogue]
    }

    /// The dialogues shown before the current one, oldest first, as indices
    /// into the script.
    pub fn history(&self) -> (r: &Vec<usize>)
        ensures
            r@ == self@.history,
    {
        &self.dialogue_history
    }

    /// The lines of the current dialogue, top to bottom.
    pub fn current_lines(&self) -> (r: &Vec<Line>)
        requires
            self.wf(),
        ensures
            lines_view(r@) == self@.current_dialogue().textbox.lines,
    {
        self.script[self.current_dialogue].lines()
    }

    /// The lines of each dialogue of the history, oldest first, as that
    /// dialogue holds them now.
    pub fn history_lines(&self) -> (r: Vec<Vec<Line>>)
        requires
            self.wf(),
        ensures
            r.len() == self@.history.len(),
            forall|i: int|
                0 <= i < r.len() ==> lines_view(#[trigger] r[i]@)
                    == self@.script[self@.history[i] as int].textbox.lines,
    {
        let mut all: Vec<Vec<Line>> = Vec::new();
        let mut pos: usize = 0;
        while pos < self.dialogue_history.len()
            invariant
                self.wf(),
                0 <= pos <= self.dialogue_history.len(),
                all.len() == pos,
                forall|i: int|
                    0 <= i < pos ==> lines_view(#[trigger] all[i]@)
                        == self@.script[self@.history[i] as int].textbox.lines,
            decreases self.dialogue_history.len() - pos,
        {
            assert(self@.history[pos as int] < self@.script.len());
            let lines = self.script[self.dialogue_history[pos]].lines();
            all.push(copy_lines(lines));
            pos += 1;
        }
        all
    }

    /// What is to be drawn, in drawing order: the lines of the history, then
    /// those of the current dialogue.
    pub fn display(&self) -> (r: Vec<Line>)
        requires
            self.wf(),
        ensures
            lines_view(r@) == self@.shown(),
    {
        let mut all: Vec<Line> = Vec::new();
        let mut pos: usize = 0;
        assert(lines_view(all@) =~= self@.lines_of(self@.history.take(0)));
        while pos < self.dialogue_history.len()
            invariant
                self.wf(),
                0 <= pos <= self.dialogue_history.len(),
                lines_view(all@) == self@.lines_of(self@.history.take(pos as int)),
            decreases self.dialogue_history.len() - pos,
        {
            assert(self@.history[pos as int] < self@.script.len());
            let mut lines = copy_lines(self.script[self.dialogue_history[pos]].lines());
            proof {
                let seen = self@.history.take(pos + 1);
                assert(seen.drop_last() == self@.history.take(pos as int));
                assert(lines_view(all@ + lines@) =~= lines_view(all@) + lines_view(lines@));
            }
            all.append(&mut lines);
            pos += 1;
        }
        let mut lines = copy_lines(self.script[self.current_dialogue].lines());
        proof {
            assert(self@.history.take(pos as int) == self@.history);
            assert(lines_view(all@ + lines@) =~= lines_view(all@) + lines_view(lines@));
        }
        all.append(&mut lines);
        all
    }

    /// Advances the conversation by one tick, with the key pressed since the
    /// last tick, if any.
    pub fn update(&mut self, user_input: Option<Key>) -> (r: Tick)
        requires
            old(self).wf(),
        ensures
            final(self).wf(),
            final(self)@ == old(self)@.ticked(user_input),
            r.state == old(self)@.tick_state(user_input),
            r.ended == (r.state == DialogueState::Terminal),
    {
        let current = self.current_dialogue;
        let ghost before = self.script@;
        proof {
            lemma_ticked_valid(self@, user_input);
        }
        // Check if the whole text was parsed and displayed
        if !self.script[current].has_text_updated() {
            self.script[current].update_by(self.reveal_rate);
            let state = if self.script[current].has_text_updated() {
                DialogueState::AwaitingInput
            } else {
                DialogueState::Revealing
            };
            proof {
                assert(script_view(self.script@) =~= script_view(before).update(
                    current as int,
                    before[current as int]@.updated_by(self.reveal_rate as nat),
                ));
                assert forall|i: int| 0 <= i < self.script.len() implies (
                #[trigger] self.script[i]).wf() by {
                    if i != current {
                        assert(self.script[i] == before[i]);
                    }
                }
            }
            return Tick { state, ended: false };
        }
        let user_input_event = match user_input {
            Some(i) => i,
            None => return Tick { state: DialogueState::AwaitingInput, ended: false },
        };

        // Check user input to advance the dialogue
        match self.script[current].advance(&self.script, user_input_event) {
            Decision::Advance(new_dialogue) => {
                let last_display_cursor = self.script[current].next_anchor();
                self.dialogue_history.push(current);
                self.current_dialogue = new_dialogue;
                self.script[new_dialogue].set_position(last_display_cursor);
                proof {
                    assert(script_view(self.script@) =~= script_view(before).update(
                        new_dialogue as int,
                        before[new_dialogue as int]@.positioned(last_display_cursor),
                    ));
                    assert forall|i: int| 0 <= i < self.script.len() implies (
                    #[trigger] self.script[i]).wf() by {
                        if i != new_dialogue {
                            assert(self.script[i] == before[i]);
                        }
                    }
                }
                Tick { state: DialogueState::Advanced, ended: false }
            },
            Decision::NoMatch => Tick { state: DialogueState::AwaitingInput, ended: false },
            Decision::EndSession => Tick { state: DialogueState::Terminal, ended: true },
        }
    }
}

} // verus!

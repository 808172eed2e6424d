//! A node of the dialogue graph: a text that reveals itself, the key that
//! selects the node, and the nodes that may follow it.

use vstd::prelude::*;
use vstd::string::*;
use crate::error::ConfigError;
use crate::textbox::{Line, TextBox, TextBoxView};
use crate::vector::Point2D;
use crate::wrapping::lemma_updated_valid;

verus! {

/// Code of the Escape key.
pub const ESCAPE_CODE: u32 = 0x1B;

/// A key symbol. A character key has the code of its character; other keys
/// have codes of their own.
#[derive(Debug, Clone, Copy, PartialEq, Eq, Structural, Hash)]
pub struct Key {
    pub code: u32,
}

impl Key {
    pub fn new(code: u32) -> (k: Key)
        ensures
            k.code == code,
    {
        Key { code }
    }

    /// The key of the character `c`.
    pub fn from_char(c: char) -> (k: Key)
        ensures
            k.code == c as u32,
    {
        Key { code: c as u32 }
    }

    /// The Escape key, which selects a dialogue that names no key of its own.
    pub fn escape() -> (k: Key)
        ensures
            k.code == ESCAPE_CODE,
    {
        Key { code: ESCAPE_CODE }
    }
}

/// What a key press decides at a dialogue that is fully revealed.
#[derive(Debug, Clone, Copy, PartialEq, Eq, Structural)]
pub enum Decision {
    /// The dialogue at this index of the script comes next.
    Advance(usize),
    /// No following dialogue asks for the key; the press is ignored.
    NoMatch,
    /// Nothing follows this dialogue: the conversation is over.
    EndSession,
}

/// The state of a [`Dialogue`] as contracts see it.
pub struct DialogueView {
    /// Whether the whole text has been revealed.
    pub has_text_updated: bool,
    /// The text box that reveals the text.
    pub textbox: TextBoxView,
    /// Where the dialogue starts on the display.
    pub start_position: Point2D,
    /// The key that selects this dialogue.
    pub required_input: Key,
    /// The dialogues that may follow, as indices into the script, in the
    /// order in which they were written.
    pub decisions: Seq<usize>,
}

impl DialogueView {
    /// The state right after construction.
    pub open spec fn fresh(
        text: Seq<char>,
        decisions: Seq<usize>,
        required_input: Key,
        width: nat,
        line_height: nat,
        start: Point2D,
    ) -> Self {
        DialogueView {
            has_text_updated: false,
            textbox: TextBoxView::fresh(width, line_height, text, start),
            start_position: start,
            required_input,
            decisions,
        }
    }

    /// The state after the dialogue was moved to `pos`: it starts there with
    /// one empty line. What was revealed before is not revealed again.
    pub open spec fn positioned(self, pos: Point2D) -> Self {
        DialogueView {
            textbox: TextBoxView {
                display_cursor: pos,
                lines: seq![(pos, Seq::<char>::empty())],
                ..self.textbox
            },
            start_position: pos,
            ..self
        }
    }

    /// The state after one reveal step. The dialogue is fully revealed once a
    /// step finds nothing left to reveal.
    pub open spec fn updated(self) -> Self {
        DialogueView {
            textbox: self.textbox.updated(),
            has_text_updated: !self.textbox.queue.has_next(),
            ..self
        }
    }

    /// The state after up to `steps` reveal steps: no step is taken once the
    /// dialogue is fully revealed.
    pub open spec fn updated_by(self, steps: nat) -> Self
        decreases steps,
    {
        if steps == 0 {
            self
        } else {
            let before = self.updated_by((steps - 1) as nat);
            if before.has_text_updated {
                before
            } else {
                before.updated()
            }
        }
    }

    /// Anchor of the last line shown.
    pub open spec fn last_display_pos(self) -> Point2D {
        self.textbox.lines.last().0
    }

    /// Where a dialogue that follows this one starts: one line height below
    /// the last line.
    pub open spec fn next_anchor(self) -> Point2D {
        self.last_display_pos().translated(self.textbox.line_step())
    }
}

/// Whether the script holds a dialogue at `index` that asks for `input`.
pub open spec fn asks_for(script: Seq<DialogueView>, index: usize, input: Key) -> bool {
    index < script.len() && script[index as int].required_input == input
}

/// Position in `decisions`, at or after `from`, of the first dialogue of
/// `script` that asks for `input`.
pub open spec fn first_match(
    decisions: Seq<usize>,
    script: Seq<DialogueView>,
    input: Key,
    from: int,
) -> Option<int>
    decreases decisions.len() - from,
{
    if from < 0 || from >= decisions.len() {
        None
    } else if asks_for(script, decisions[from], input) {
        Some(from)
    } else {
        first_match(decisions, script, input, from + 1)
    }
}

/// What the key `input` decides at a dialogue with the given followers: the
/// end of the conversation where there is none, else the first of them, in
/// written order, that asks for the key.
pub open spec fn decide(decisions: Seq<usize>, script: Seq<DialogueView>, input: Key) -> Decision {
    if decisions.len() == 0 {
        Decision::EndSession
    } else {
        match first_match(decisions, script, input, 0) {
            Some(i) => Decision::Advance(decisions[i]),
            None => Decision::NoMatch,
        }
    }
}

/// `first_match` finds a position whose dialogue asks for the key and before
/// which, from `from` on, none does; it finds none only where none asks.
pub proof fn lemma_first_match(
    decisions: Seq<usize>,
    script: Seq<DialogueView>,
    input: Key,
    from: int,
)
    requires
        0 <= from <= decisions.len(),
    ensures
        match first_match(decisions, script, input, from) {
            Some(i) => {
                &&& from <= i < decisions.len()
                &&& asks_for(script, decisions[i], input)
                &&& forall|j: int| from <= j < i ==> !asks_for(script, #[trigger] decisions[j], input)
            },
            None => forall|j: int|
                from <= j < decisions.len() ==> !asks_for(script, #[trigger] decisions[j], input),
        },
    decreases decisions.len() - from,
{
    if from < decisions.len() && !asks_for(script, decisions[from], input) {
        lemma_first_match(decisions, script, input, from + 1);
    }
}

/// Once a dialogue is fully revealed, further reveal steps change nothing.
pub proof fn lemma_updated_by_settles(d: DialogueView, done: nat, steps: nat)
    requires
        done <= steps,
        d.updated_by(done).has_text_updated,
    ensures
        d.updated_by(steps) == d.updated_by(done),
    decreases steps,
{
    if done < steps {
        lemma_updated_by_settles(d, done, (steps - 1) as nat);
    }
}

/// Reveal steps keep the text box of a dialogue valid, and change neither
/// the key that selects the dialogue nor the dialogues that follow it.
pub proof fn lemma_updated_by_valid(d: DialogueView, steps: nat)
    requires
        d.textbox.valid(),
    ensures
        d.updated_by(steps).textbox.valid(),
        d.updated_by(steps).decisions == d.decisions,
        d.updated_by(steps).required_input == d.required_input,
        d.updated_by(steps).start_position == d.start_position,
    decreases steps,
{
    if steps > 0 {
        lemma_updated_by_valid(d, (steps - 1) as nat);
        lemma_updated_valid(d.updated_by((steps - 1) as nat).textbox);
    }
}

/// A dialogue of the script.
#[derive(Debug)]
pub struct Dialogue {
    has_text_updated: bool,
    textbox: TextBox,
    start_position: Point2D,
    required_input: Key,
    decisions: Option<Vec<usize>>,
}

impl View for Dialogue {
    type V = DialogueView;

    closed spec fn view(&self) -> DialogueView {
        DialogueView {
            has_text_updated: self.has_text_updated,
            textbox: self.textbox@,
            start_position: self.start_position,
            required_input: self.required_input,
            decisions: match self.decisions {
                Some(d) => d@,
                None => Seq::empty(),
            },
        }
    }
}

/// The views of the dialogues of a script.
pub open spec fn script_view(script: Seq<Dialogue>) -> Seq<DialogueView> {
    script.map_values(|d: Dialogue| d@)
}

impl Dialogue {
    /// The invariant of the dialogue: that of its text box.
    pub closed spec fn wf(&self) -> bool {
        self.textbox.wf()
    }

    /// A well-formed dialogue has a valid text box.
    pub proof fn lemma_wf_valid(&self)
        requires
            self.wf(),
        ensures
            self@.textbox.valid(),
    {
        self.textbox.lemma_wf_valid();
    }

    /// A dialogue that will reveal `dialogue_text` in lines of the given
    /// width. Without `req_input` the Escape key selects it; without
    /// `start_position` it starts at the origin. A width of zero is refused.
    pub fn new(
        dialogue_text: String,
        decisions: Option<Vec<usize>>,
        req_input: Option<Key>,
        width: u32,
        font_size: u32,
        start_position: Option<Point2D>,
    ) -> (r: Result<Dialogue, ConfigError>)
        ensures
            width == 0 <==> r is Err,
            r matches Err(e) ==> e == ConfigError::ZeroWidth,
            r matches Ok(d) ==> d.wf() && d@ == DialogueView::fresh(
                dialogue_text@,
                match decisions {
                    Some(v) => v@,
                    None => Seq::empty(),
                },
                match req_input {
                    Some(key) => key,
                    None => (Key { code: ESCAPE_CODE }),
                },
                width as nat,
                font_size as nat,
                match start_position {
                    Some(p) => p,
                    None => (Point2D { x: 0, y: 0 }),
                },
            ),
    {
        let required_input = match req_input {
            Some(key) => key,
            None => Key::escape(),
        };

        let start_vector = match start_position {
            Some(p) => p,
            None => Point2D::new(0, 0),
        };

        match TextBox::new(width, font_size, dialogue_text, start_vector) {
            Ok(textbox) => Ok(
                Dialogue {
                    textbox,
                    required_input,
                    decisions,
                    start_position: start_vector,
                    has_text_updated: false,
                },
            ),
            Err(e) => Err(e),
        }
    }

    /// Whether the whole text has been revealed.
    pub fn has_text_updated(&self) -> (r: bool)
        ensures
            r == self@.has_text_updated,
    {
        self.has_text_updated
    }

    /// Where the dialogue starts on the display.
    pub fn start_position(&self) -> (r: Point2D)
        ensures
            r == self@.start_position,
    {
        self.start_position
    }

    /// The key that selects this dialogue.
    pub fn required_input(&self) -> (r: Key)
        ensures
            r == self@.required_input,
    {
        self.required_input
    }

    /// The lines revealed so far, top to bottom.
    pub fn lines(&self) -> (r: &Vec<Line>)
        ensures
            crate::textbox::lines_view(r@) == self@.textbox.lines,
    {
        self.textbox.lines()
    }

    /// Whether every follower that the dialogue names lies within a script of
    /// `len` dialogues.
    pub fn decisions_within(&self, len: usize) -> (r: bool)
        ensures
            r <==> forall|j: int| 0 <= j < self@.decisions.len() ==> self@.decisions[j] < len,
    {
        match &self.decisions {
            Some(decisions) => {
                let mut pos: usize = 0;
                while pos < decisions.len()
                    invariant
                        decisions@ == self@.decisions,
                        0 <= pos <= decisions.len(),
                        forall|j: int| 0 <= j < pos ==> decisions[j] < len,
                    decreases decisions.len() - pos,
                {
                    if decisions[pos] >= len {
                        return false;
                    }
                    pos += 1;
                }
                true
            },
            None => true,
        }
    }

    /// Moves the dialogue to `new_pos`, where it starts again with one empty
    /// line.
    pub fn set_position(&mut self, new_pos: Point2D)
        requires
            old(self).wf(),
        ensures
            final(self).wf(),
            final(self)@ == old(self)@.positioned(new_pos),
    {
        self.textbox.set_anchor(new_pos);
        self.start_position = new_pos;
    }

    /// Reveals one more character, and notes whether the text is now fully
    /// revealed.
    pub fn update(&mut self)
        requires
            old(self).wf(),
        ensures
            final(self).wf(),
            final(self)@ == old(self)@.updated(),
    {
        match self.textbox.update() {
            Some(_) => { self.has_text_updated = false },
            None => { self.has_text_updated = true },
        }
    }

    /// Reveals up to `steps` more characters, and stops once the text is fully
    /// revealed.
    pub fn update_by(&mut self, steps: usize)
        requires
            old(self).wf(),
        ensures
            final(self).wf(),
            final(self)@ == old(self)@.updated_by(steps as nat),
    {
        let mut done: usize = 0;
        while done < steps && !self.has_text_updated
            invariant
                self.wf(),
                done <= steps,
                self@ == old(self)@.updated_by(done as nat),
            decreases steps - done,
        {
            self.update();
            done += 1;
        }
        proof {
            if done < steps {
                lemma_updated_by_settles(old(self)@, done as nat, steps as nat);
            }
        }
    }

    /// Based on the user input advances the dialogue to the next dialogue
    /// part of the conversation: the first of the following dialogues, looked
    /// up in `script`, that asks for `user_input`. A follower that the script
    /// does not hold asks for no key.
    pub fn advance(&self, script: &Vec<Dialogue>, user_input: Key) -> (r: Decision)
        ensures
            r == decide(self@.decisions, script_view(script@), user_input),
    {
        let decisions = match &self.decisions {
            Some(d) => d,
            None => return Decision::EndSession,
        };
        if decisions.len() == 0 {
            return Decision::EndSession;
        }
        let ghost views = script_view(script@);
        let mut pos: usize = 0;
        while pos < decisions.len()
            invariant
                decisions@ == self@.decisions,
                views == script_view(script@),
                0 <= pos <= decisions.len(),
                first_match(decisions@, views, user_input, 0) == first_match(
                    decisions@,
                    views,
                    user_input,
                    pos as int,
                ),
            decreases decisions.len() - pos,
        {
            let next = decisions[pos];
            if next < script.len() && script[next].required_input == user_input {
                return Decision::Advance(next);
            }
            pos += 1;
        }
        Decision::NoMatch
    }

    /// Anchor of the last line shown.
    pub fn get_last_display_pos(&self) -> (r: Point2D)
        requires
            self.wf(),
        ensures
            r == self@.last_display_pos(),
    {
        self.textbox.last_line_anchor()
    }

    /// Where a dialogue that follows this one starts.
    pub fn next_anchor(&self) -> (r: Point2D)
        requires
            self.wf(),
        ensures
            r == self@.next_anchor(),
    {
        self.textbox.last_line_anchor() + Point2D::new(0, self.textbox.font_size() as i64)
    }
}

} // verus!

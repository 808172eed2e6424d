//! What holds of every conversation: which key presses move it on, where it
//! ends, and what the history records.

use vstd::prelude::*;
use crate::dialogue::{
    asks_for,
    decide,
    first_match,
    lemma_first_match,
    lemma_updated_by_valid,
    Decision,
    Key,
};
use crate::screen::{DialogueState, ScreenView};

verus! {

/// The state after a run of ticks, one for each entry of `inputs`, in order.
pub open spec fn run(v: ScreenView, inputs: Seq<Option<Key>>) -> ScreenView
    decreases inputs.len(),
{
    if inputs.len() == 0 {
        v
    } else {
        run(v, inputs.drop_last()).ticked(inputs.last())
    }
}

/// The dialogues that a run of ticks leaves behind: for each tick of the run
/// that moved on to a following dialogue, in order, the dialogue that was
/// current before it.
pub open spec fn departures(v: ScreenView, inputs: Seq<Option<Key>>) -> Seq<usize>
    decreases inputs.len(),
{
    if inputs.len() == 0 {
        Seq::empty()
    } else {
        let before = run(v, inputs.drop_last());
        let earlier = departures(v, inputs.drop_last());
        if before.tick_state(inputs.last()) == DialogueState::Advanced {
            earlier.push(before.current)
        } else {
            earlier
        }
    }
}

/// A tick keeps the state valid, and changes neither the number of
/// dialogues of the script nor the reveal rate.
pub proof fn lemma_ticked_valid(v: ScreenView, input: Option<Key>)
    requires
        v.valid(),
    ensures
        v.ticked(input).valid(),
        v.ticked(input).script.len() == v.script.len(),
        v.ticked(input).reveal_rate == v.reveal_rate,
{
    let current = v.current_dialogue();
    let after = v.ticked(input);
    if !current.has_text_updated {
        lemma_updated_by_valid(current, v.reveal_rate);
        assert forall|i: int, j: int|
            0 <= i < after.script.len() && 0 <= j < after.script[i].decisions.len()
                implies #[trigger] after.script[i].decisions[j] < after.script.len() by {
            assert(after.script[i].decisions == v.script[i].decisions);
            assert(v.script[i].decisions[j] < v.script.len());
        }
    } else if let Some(key) = input {
        if let Decision::Advance(next) = decide(current.decisions, v.script, key) {
            lemma_first_match(current.decisions, v.script, key, 0);
            let at = first_match(current.decisions, v.script, key, 0)->0;
            assert(v.script[v.current as int].decisions[at] < v.script.len());
            assert forall|i: int, j: int|
                0 <= i < after.script.len() && 0 <= j < after.script[i].decisions.len()
                    implies #[trigger] after.script[i].decisions[j] < after.script.len() by {
                assert(after.script[i].decisions == v.script[i].decisions);
                assert(v.script[i].decisions[j] < v.script.len());
            }
        }
    }
}

/// A dialogue that is not yet fully revealed takes its reveal steps at each
/// tick, one at the default rate, whatever the input: no key moves the
/// conversation on before the text is out.
pub proof fn lemma_reveal_comes_first(v: ScreenView, input: Option<Key>)
    requires
        v.valid(),
        !v.current_dialogue().has_text_updated,
    ensures
        v.ticked(input).current == v.current,
        v.ticked(input).history == v.history,
        v.ticked(input).current_dialogue() == v.current_dialogue().updated_by(v.reveal_rate),
        v.tick_state(input) != DialogueState::Advanced,
        v.tick_state(input) != DialogueState::Terminal,
        v.reveal_rate == 1 ==> {
            &&& v.ticked(input).current_dialogue() == v.current_dialogue().updated()
            &&& v.tick_state(input) == if v.current_dialogue().textbox.queue.has_next() {
                DialogueState::Revealing
            } else {
                DialogueState::AwaitingInput
            }
        },
{
    let d = v.current_dialogue();
    assert(d.updated_by(0) == d);
    assert(d.updated_by(1) == d.updated_by(0).updated());
}

/// A tick without input leaves a fully revealed dialogue waiting, and so
/// does a key that none of the following dialogues asks for: the state does
/// not change.
pub proof fn lemma_unmatched_input_is_ignored(v: ScreenView, input: Option<Key>)
    requires
        v.valid(),
        v.current_dialogue().has_text_updated,
        input matches Some(key) ==> {
            &&& v.current_dialogue().decisions.len() > 0
            &&& forall|j: int|
                0 <= j < v.current_dialogue().decisions.len() ==> !asks_for(
                    v.script,
                    #[trigger] v.current_dialogue().decisions[j],
                    key,
                )
        },
    ensures
        v.ticked(input) == v,
        v.tick_state(input) == DialogueState::AwaitingInput,
{
    if let Some(key) = input {
        lemma_first_match(v.current_dialogue().decisions, v.script, key, 0);
    }
}

/// A key that a following dialogue asks for moves the conversation on to
/// the first such dialogue, in written order. The dialogue left behind goes
/// to the end of the history, and the new one starts, with one empty line,
/// one line height below the last line of the dialogue left behind.
pub proof fn lemma_matching_key_advances(v: ScreenView, key: Key, at: int)
    requires
        v.valid(),
        v.current_dialogue().has_text_updated,
        0 <= at < v.current_dialogue().decisions.len(),
        asks_for(v.script, v.current_dialogue().decisions[at], key),
        forall|j: int|
            0 <= j < at ==> !asks_for(v.script, #[trigger] v.current_dialogue().decisions[j], key),
    ensures
        v.tick_state(Some(key)) == DialogueState::Advanced,
        v.ticked(Some(key)).current == v.current_dialogue().decisions[at],
        v.ticked(Some(key)).history == v.history.push(v.current),
        v.ticked(Some(key)).current_dialogue().start_position == v.current_dialogue().next_anchor(),
        v.ticked(Some(key)).current_dialogue().textbox.lines == seq![
            (v.current_dialogue().next_anchor(), Seq::<char>::empty()),
        ],
{
    let decisions = v.current_dialogue().decisions;
    lemma_first_match(decisions, v.script, key, 0);
    match first_match(decisions, v.script, key, 0) {
        Some(found) => {
            if found < at {
                assert(!asks_for(v.script, decisions[found], key));
            } else if at < found {
                assert(!asks_for(v.script, decisions[at], key));
            }
        },
        None => {
            assert(!asks_for(v.script, decisions[at], key));
        },
    }
}

/// At a fully revealed dialogue that nothing follows, every key ends the
/// conversation, whichever key it is; the state does not change.
pub proof fn lemma_any_key_ends_at_last_dialogue(v: ScreenView, key: Key)
    requires
        v.valid(),
        v.current_dialogue().has_text_updated,
        v.current_dialogue().decisions.len() == 0,
    ensures
        v.tick_state(Some(key)) == DialogueState::Terminal,
        v.ticked(Some(key)) == v,
{
}

/// The history records the moves of the conversation, and nothing else: a
/// run of ticks appends to it the dialogues that the run left behind, in
/// the order in which it left them. A screen that starts with an empty
/// history thus holds, after a run with `n` moves, a history of length `n`,
/// oldest first.
pub proof fn lemma_history_records_moves(v: ScreenView, inputs: Seq<Option<Key>>)
    requires
        v.valid(),
    ensures
        run(v, inputs).valid(),
        run(v, inputs).history == v.history + departures(v, inputs),
        run(v, inputs).history.len() == v.history.len() + departures(v, inputs).len(),
    decreases inputs.len(),
{
    if inputs.len() > 0 {
        let before = run(v, inputs.drop_last());
        lemma_history_records_moves(v, inputs.drop_last());
        lemma_ticked_valid(before, inputs.last());
        let earlier = departures(v, inputs.drop_last());
        if before.tick_state(inputs.last()) == DialogueState::Advanced {
            assert(before.ticked(inputs.last()).history == before.history.push(before.current));
            assert((v.history + earlier).push(before.current) =~= v.history + earlier.push(
                before.current,
            ));
        } else {
            assert(before.ticked(inputs.last()).history == before.history);
        }
    } else {
        assert(v.history + Seq::<usize>::empty() =~= v.history);
    }
}

/// The history never shrinks, and what it holds never changes: after any
/// run of ticks the earlier history is a prefix of the later one.
pub proof fn lemma_history_only_grows(v: ScreenView, inputs: Seq<Option<Key>>)
    requires
        v.valid(),
    ensures
        v.history.len() <= run(v, inputs).history.len(),
        run(v, inputs).history.take(v.history.len() as int) == v.history,
{
    lemma_history_records_moves(v, inputs);
    assert((v.history + departures(v, inputs)).take(v.history.len() as int) =~= v.history);
}

} // verus!

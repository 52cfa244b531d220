//! Answer blocks, the condition for submission, scoring, and the highlight
//! that ends a round.

use vstd::prelude::*;

use crate::color::{palette, palette_color, AnswerColor, Color};
use crate::geometry::{inside, to_world, world_of, NodeSize, Point, SideLength, UiPoint};
use crate::timer::{Timer, HALF_SECOND};
use crate::token::{On, Token};
use crate::trivia::{Question, Rounds};
use crate::ui::{
    question_label, question_label_text, score_label, score_label_text, QuestionCount,
    ScoreCount,
};
use crate::{ButtonMaterials, Interaction};

verus! {

/// Whether an answer block stands for the true answer.
#[derive(Clone, Copy, Debug, PartialEq, Eq, Structural)]
pub struct Truth(pub bool);

/// The blinking of a block's border after a submission.
#[derive(Clone, Copy, Debug, PartialEq, Eq, Structural)]
pub struct Highlight {
    /// Paces the blinking.
    pub timer: Timer,
    /// Full blinks still to come.
    pub remain: u8,
}

/// A place of the interface where an answer block is put.
#[derive(Clone, Copy, Debug, PartialEq, Eq, Structural)]
pub struct AnswerSlot {
    /// Where the slot was laid out, in window coordinates.
    pub position: UiPoint,
    /// The size it was given.
    pub size: NodeSize,
}

/// The droppable region of one candidate answer.
#[derive(Clone, Copy, Debug, PartialEq, Eq, Structural)]
pub struct AnswerBlock {
    /// Centre of the block in world coordinates.
    pub position: Point,
    /// Extent of the region on which a token can be dropped.
    pub side_length: SideLength,
    /// The colour of the block, which tokens placed on it take.
    pub color: AnswerColor,
    /// Whether this is the true answer.
    pub truth: Truth,
    /// The colour of the border, which the highlight toggles.
    pub border: Color,
    /// The highlight, while it runs.
    pub highlight: Option<Highlight>,
}

impl AnswerBlock {
    /// Whether a token centred at `at` rests on the block.
    pub open spec fn contains(self, at: Point) -> bool {
        inside(at, self.side_length, self.position)
    }
}

/// Width of the border around an answer block: five pixels. The droppable
/// region is smaller than its slot by this much in either direction.
pub const BORDER: i64 = 320;

/// Full blinks of a highlight.
pub const BLINKS: u8 = 3;

/// The submit button.
#[derive(Clone, Copy, Debug, PartialEq, Eq, Structural)]
pub struct SubmitButton {
    /// Whether the button is shown. Only a shown button can be clicked.
    pub visible: bool,
    /// The colour the button is drawn in.
    pub color: Color,
}

/// The place of the interface where the question is shown.
#[derive(Clone, Copy, Debug, PartialEq, Eq, Structural)]
pub struct QuestionSlot {
    /// Where the slot was laid out, in window coordinates.
    pub position: UiPoint,
    /// The size it was given.
    pub size: NodeSize,
}

/// The question as it is shown.
#[derive(Clone, Debug, PartialEq, Eq)]
pub struct QuestionText {
    /// Centre of the text in world coordinates.
    pub position: Point,
    /// The box the text is wrapped in.
    pub bounds: NodeSize,
    /// The text.
    pub text: String,
}

/// Whether the layout has assigned a position: a node that was not laid out
/// yet sits at the origin.
pub open spec fn laid_out(position: UiPoint) -> bool {
    position.x != 0 || position.y != 0
}

/// Whether the layout has assigned a position.
pub fn is_laid_out(position: &UiPoint) -> (ready: bool)
    ensures
        ready == laid_out(*position),
{
    position.x != 0 || position.y != 0
}

/// Whether every answer slot has been laid out.
pub open spec fn all_laid_out(slots: Seq<AnswerSlot>) -> bool {
    forall|i: int| 0 <= i < slots.len() ==> laid_out((#[trigger] slots[i]).position)
}

/// The block that belongs in answer slot number `i` while `question` is
/// asked: at the slot, smaller by the border, in the slot's colour, true if
/// answer `i` is, and not highlighted.
pub open spec fn block_for(slot: AnswerSlot, i: int, question: Question) -> AnswerBlock {
    AnswerBlock {
        position: world_of(slot.position),
        side_length: SideLength {
            x_len: (slot.size.x - BORDER) as i64,
            y_len: (slot.size.y - BORDER) as i64,
        },
        color: AnswerColor(palette_color(i)),
        truth: Truth(question.answers[i].truth),
        border: Color::White,
        highlight: None,
    }
}

/// Spawns the question in its slot, once the slot has been laid out.
///
/// A complete game has no question to show: asking for one then is a fault of
/// the caller, and callers check [`Rounds::is_complete`] first. `None` means
/// that the layout has not reached the slot yet, and nothing else.
pub fn spawn_questionblock(slot: &QuestionSlot, rounds: &Rounds) -> (shown: Option<QuestionText>)
    requires
        rounds.wf(),
        !rounds.complete(),
    ensures
        shown is Some <==> laid_out(slot.position),
        shown matches Some(q) ==> q.position == world_of(slot.position) && q.bounds == slot.size
            && q.text@ == rounds.questions[rounds.round_number as int].text@,
{
    if is_laid_out(&slot.position) {
        Some(
            QuestionText {
                position: to_world(slot.position),
                bounds: slot.size,
                text: rounds.current().text.clone(),
            },
        )
    } else {
        None
    }
}

/// Spawns an answer block in every answer slot, once all of them have been
/// laid out. Block `i` shows answer `i` of the question.
pub fn spawn_answerblock(slots: &Vec<AnswerSlot>, question: &Question) -> (spawned: Option<
    Vec<AnswerBlock>,
>)
    requires
        slots.len() <= 4,
    ensures
        spawned is Some <==> all_laid_out(slots@),
        spawned matches Some(blocks) ==> blocks.len() == slots.len() && forall|i: int|
            0 <= i < slots.len() ==> #[trigger] blocks[i] == block_for(slots[i], i, *question),
{
    let mut blocks: Vec<AnswerBlock> = Vec::new();
    let mut i: usize = 0;
    while i < slots.len()
        invariant
            i <= slots.len(),
            slots.len() <= 4,
            blocks.len() == i,
            forall|k: int| 0 <= k < i ==> laid_out((#[trigger] slots[k]).position),
            forall|k: int| 0 <= k < i ==> #[trigger] blocks[k] == block_for(slots[k], k, *question),
        decreases slots.len() - i,
    {
        let slot = slots[i];
        if !is_laid_out(&slot.position) {
            return None;
        }
        let width: i64 = slot.size.x as i64;
        let height: i64 = slot.size.y as i64;
        blocks.push(
            AnswerBlock {
                position: to_world(slot.position),
                side_length: SideLength { x_len: width - BORDER, y_len: height - BORDER },
                color: palette(i),
                truth: Truth(question.answers[i].truth),
                border: Color::White,
                highlight: None,
            },
        );
        i = i + 1;
    }
    Some(blocks)
}

/// Whether every token rests on an answer block.
pub open spec fn all_placed(tokens: Seq<Token>) -> bool {
    forall|i: int| 0 <= i < tokens.len() ==> (#[trigger] tokens[i]).on is Some
}

/// Whether the submit button is to be shown, given whether it is shown now:
/// a shown button is hidden as soon as a token is unplaced, a hidden one is
/// shown as soon as none is.
pub open spec fn submit_gate(tokens: Seq<Token>, visible: bool) -> bool {
    if visible {
        if !all_placed(tokens) {
            false
        } else {
            visible
        }
    } else {
        if all_placed(tokens) {
            true
        } else {
            visible
        }
    }
}

/// Whether the button is shown depends on the tokens alone: it is shown
/// exactly when every token is placed, whatever it was before. So asking
/// twice with nothing moved in between gives the same answer.
pub proof fn submit_gate_is_stateless(tokens: Seq<Token>, visible: bool, other: bool)
    ensures
        submit_gate(tokens, visible) == all_placed(tokens),
        submit_gate(tokens, visible) == submit_gate(tokens, other),
        submit_gate(tokens, submit_gate(tokens, visible)) == submit_gate(tokens, visible),
{
}

/// A single unplaced token keeps the submit button hidden.
pub proof fn unplaced_token_hides_submit(tokens: Seq<Token>, visible: bool, i: int)
    requires
        0 <= i < tokens.len(),
        tokens[i].on is None,
    ensures
        !submit_gate(tokens, visible),
{
}

/// Checks whether the submit button should be shown.
pub fn submit_visible(tokens: &Vec<Token>, visible: bool) -> (shown: bool)
    ensures
        shown == submit_gate(tokens@, visible),
        shown == all_placed(tokens@),
{
    let mut i: usize = 0;
    while i < tokens.len()
        invariant
            i <= tokens.len(),
            forall|k: int| 0 <= k < i ==> (#[trigger] tokens[k]).on is Some,
        decreases tokens.len() - i,
    {
        if tokens[i].on.is_none() {
            return false;
        }
        i = i + 1;
    }
    true
}

/// What a change of the cursor over the submit button leads to.
#[derive(Clone, Copy, Debug, PartialEq, Eq, Structural)]
pub struct SubmitClick {
    /// The colour the button takes; `None` leaves it as it is.
    pub color: Option<Color>,
    /// Whether the round was submitted. A submission hides and locks the
    /// cursor until the highlight has run.
    pub pressed: bool,
}

/// The effect of the cursor on the submit button.
pub open spec fn submit_click(
    visible: bool,
    interaction: Interaction,
    colors: ButtonMaterials,
) -> SubmitClick {
    if visible {
        match interaction {
            Interaction::Clicked => SubmitClick { color: Some(colors.clicked), pressed: true },
            Interaction::Hovered => SubmitClick { color: Some(colors.hovered), pressed: false },
            Interaction::Idle => SubmitClick { color: Some(colors.none), pressed: false },
        }
    } else {
        SubmitClick { color: None, pressed: false }
    }
}

/// Click handler of the submit button. A button that is not shown takes no
/// click: nothing can be submitted while a token is unplaced.
pub fn submit_button(visible: bool, interaction: Interaction, colors: &ButtonMaterials) -> (click:
    SubmitClick)
    ensures
        click == submit_click(visible, interaction, *colors),
        click.pressed <==> visible && interaction == Interaction::Clicked,
{
    if visible {
        match interaction {
            Interaction::Clicked => SubmitClick { color: Some(colors.clicked), pressed: true },
            Interaction::Hovered => SubmitClick { color: Some(colors.hovered), pressed: false },
            Interaction::Idle => SubmitClick { color: Some(colors.none), pressed: false },
        }
    } else {
        SubmitClick { color: None, pressed: false }
    }
}

/// Whether a token rests on a block that stands for the true answer. A token
/// whose block is not among `answers` rests on nothing.
pub open spec fn rests_on_truth(token: Token, answers: Seq<AnswerBlock>) -> bool {
    token.on matches Some(On(a)) && a < answers.len() && answers[a as int].truth.0
}

/// The number of tokens that rest on a true answer.
pub open spec fn correct_count(tokens: Seq<Token>, answers: Seq<AnswerBlock>) -> nat
    decreases tokens.len(),
{
    if tokens.len() == 0 {
        0
    } else {
        correct_count(tokens.drop_last(), answers) + if rests_on_truth(tokens.last(), answers) {
            1nat
        } else {
            0nat
        }
    }
}

/// No more tokens can be right than there are tokens.
pub proof fn correct_count_bounded(tokens: Seq<Token>, answers: Seq<AnswerBlock>)
    ensures
        correct_count(tokens, answers) <= tokens.len(),
    decreases tokens.len(),
{
    if tokens.len() > 0 {
        correct_count_bounded(tokens.drop_last(), answers);
    }
}

/// The highlight a true answer gets on submission.
pub open spec fn fresh_highlight() -> Highlight {
    Highlight { timer: Timer { elapsed: 0, period: HALF_SECOND, finished: false }, remain: BLINKS }
}

impl AnswerBlock {
    /// The block after a submission: a true answer starts its highlight.
    pub open spec fn submitted(self) -> AnswerBlock {
        if self.truth.0 {
            AnswerBlock { highlight: Some(fresh_highlight()), ..self }
        } else {
            self
        }
    }

    /// The block after `delta` nanoseconds of its highlight, and whether the
    /// highlight came to its end.
    ///
    /// Each time the timer finishes the border toggles between white and
    /// black; a blink is complete when the border is white again. When the
    /// timer finishes with no blink left the highlight is removed.
    pub open spec fn blinked(self, delta: u64) -> (AnswerBlock, bool) {
        match self.highlight {
            None => (self, false),
            Some(hl) => {
                let timer = hl.timer.ticked(delta);
                if !timer.finished {
                    (
                        AnswerBlock {
                            highlight: Some(Highlight { timer, remain: hl.remain }),
                            ..self
                        },
                        false,
                    )
                } else if hl.remain == 0 {
                    (AnswerBlock { highlight: None, ..self }, true)
                } else if self.border == Color::White {
                    (
                        AnswerBlock {
                            border: Color::Black,
                            highlight: Some(Highlight { timer, remain: hl.remain }),
                            ..self
                        },
                        false,
                    )
                } else {
                    (
                        AnswerBlock {
                            border: Color::White,
                            highlight: Some(Highlight { timer, remain: (hl.remain - 1) as u8 }),
                            ..self
                        },
                        false,
                    )
                }
            },
        }
    }

    /// The block while `question` is asked: true if answer `i` is.
    pub open spec fn asking(self, i: int, question: Question) -> AnswerBlock {
        AnswerBlock { truth: Truth(question.answers[i].truth), ..self }
    }
}

/// Whether some highlight among `answers` ends within `delta` nanoseconds.
pub open spec fn any_highlight_ends(answers: Seq<AnswerBlock>, delta: u64) -> bool {
    exists|i: int| 0 <= i < answers.len() && (#[trigger] answers[i]).blinked(delta).1
}

/// Whether a highlight runs on some block.
pub open spec fn any_highlighted(answers: Seq<AnswerBlock>) -> bool {
    exists|i: int| 0 <= i < answers.len() && (#[trigger] answers[i]).highlight is Some
}

/// Whether a highlight runs on some block.
pub fn is_any_highlighted(answers: &Vec<AnswerBlock>) -> (found: bool)
    ensures
        found == any_highlighted(answers@),
{
    let mut i: usize = 0;
    while i < answers.len()
        invariant
            i <= answers.len(),
            forall|k: int| 0 <= k < i ==> (#[trigger] answers[k]).highlight is None,
        decreases answers.len() - i,
    {
        if answers[i].highlight.is_some() {
            return true;
        }
        i = i + 1;
    }
    false
}

/// Whether a submission is taken: the submit button was pressed, every token
/// rests on an answer, and no highlight of an earlier submission still runs.
pub open spec fn submission_taken(
    submit_pressed: bool,
    tokens: Seq<Token>,
    answers: Seq<AnswerBlock>,
) -> bool {
    submit_pressed && all_placed(tokens) && !any_highlighted(answers)
}

/// A submission is refused while a token is unplaced, and while the highlight
/// of an earlier submission runs.
pub proof fn submission_refused(
    submit_pressed: bool,
    tokens: Seq<Token>,
    answers: Seq<AnswerBlock>,
    i: int,
)
    requires
        (0 <= i < tokens.len() && tokens[i].on is None) || (0 <= i < answers.len()
            && answers[i].highlight is Some),
    ensures
        !submission_taken(submit_pressed, tokens, answers),
{
}

/// Scores a submission: every token on a true answer counts one point, and
/// every true answer starts its highlight. Returns the new score text.
///
/// A submission is taken only while every token is placed and no highlight
/// runs. One that is not taken, and no submission at all, change nothing and
/// return `None`: a round cannot be scored with a token unplaced, nor a second
/// time before its highlight has ended.
pub fn submit_tokens(
    submit_pressed: bool,
    tokens: &Vec<Token>,
    answers: &mut Vec<AnswerBlock>,
    score: &mut ScoreCount,
) -> (text: Option<String>)
    requires
        submission_taken(submit_pressed, tokens@, old(answers)@) ==> old(score).0 + tokens.len()
            <= u64::MAX,
    ensures
        final(answers).len() == old(answers).len(),
        text is Some <==> submission_taken(submit_pressed, tokens@, old(answers)@),
        text matches Some(t) ==> {
            &&& t@ == score_label_text(final(score).0)
            &&& final(score).0 == old(score).0 + correct_count(tokens@, old(answers)@)
            &&& forall|i: int|
                0 <= i < old(answers).len() ==> #[trigger] final(answers)[i] == old(
                    answers,
                )[i].submitted()
        },
        text is None ==> *final(score) == *old(score) && final(answers)@ == old(answers)@,
{
    if !submit_pressed || !submit_visible(tokens, false) || is_any_highlighted(answers) {
        return None;
    }
    let mut correct: u64 = 0;
    let mut i: usize = 0;
    while i < tokens.len()
        invariant
            i <= tokens.len(),
            answers@ == old(answers)@,
            correct == correct_count(tokens@.take(i as int), answers@),
            correct <= i,
            old(score).0 + tokens.len() <= u64::MAX,
            *score == *old(score),
        decreases tokens.len() - i,
    {
        proof {
            assert(tokens@.take(i + 1).drop_last() =~= tokens@.take(i as int));
            assert(tokens@.take(i + 1).last() == tokens[i as int]);
        }
        match tokens[i].on {
            Some(On(a)) => {
                if a < answers.len() && answers[a].truth.0 {
                    correct = correct + 1;
                }
            },
            None => {},
        }
        i = i + 1;
    }
    proof {
        assert(tokens@.take(tokens.len() as int) =~= tokens@);
    }
    let mut j: usize = 0;
    while j < answers.len()
        invariant
            j <= answers.len(),
            answers.len() == old(answers).len(),
            forall|k: int| 0 <= k < j ==> #[trigger] answers[k] == old(answers)[k].submitted(),
            forall|k: int| j <= k < answers.len() ==> #[trigger] answers[k] == old(answers)[k],
        decreases answers.len() - j,
    {
        let block = answers[j];
        if block.truth.0 {
            answers.set(
                j,
                AnswerBlock {
                    highlight: Some(Highlight { timer: Timer::new(HALF_SECOND), remain: BLINKS }),
                    ..block
                },
            );
        }
        j = j + 1;
    }
    score.0 = score.0 + correct;
    Some(score_label(score.0))
}

/// Plays the highlight of the true answer for `delta` more nanoseconds.
///
/// Returns whether a highlight came to its end, which ends the round: the
/// cursor is released and the next round begins.
pub fn highlight_correct(answers: &mut Vec<AnswerBlock>, delta: u64) -> (new_round: bool)
    ensures
        final(answers).len() == old(answers).len(),
        forall|i: int|
            0 <= i < old(answers).len() ==> #[trigger] final(answers)[i] == old(
                answers,
            )[i].blinked(delta).0,
        new_round == any_highlight_ends(old(answers)@, delta),
{
    let mut new_round = false;
    let mut i: usize = 0;
    while i < answers.len()
        invariant
            i <= answers.len(),
            answers.len() == old(answers).len(),
            forall|k: int| 0 <= k < i ==> #[trigger] answers[k] == old(answers)[k].blinked(delta).0,
            forall|k: int| i <= k < answers.len() ==> #[trigger] answers[k] == old(answers)[k],
            new_round == any_highlight_ends(old(answers)@.take(i as int), delta),
        decreases answers.len() - i,
    {
        let block = answers[i];
        let ghost before = old(answers)@.take(i as int);
        let ghost after = old(answers)@.take(i + 1);
        proof {
            assert(after.drop_last() =~= before);
            assert(after.last() == block);
            assert forall|k: int| 0 <= k < before.len() implies before[k] == after[k] by {}
            if any_highlight_ends(before, delta) {
                let w = choose|w: int|
                    0 <= w < before.len() && (#[trigger] before[w]).blinked(delta).1;
                assert(after[w].blinked(delta).1);
            }
            if any_highlight_ends(after, delta) && !block.blinked(delta).1 {
                let w = choose|w: int|
                    0 <= w < after.len() && (#[trigger] after[w]).blinked(delta).1;
                assert(w < before.len());
                assert(before[w].blinked(delta).1);
            }
            if block.blinked(delta).1 {
                assert(after[i as int].blinked(delta).1);
            }
        }
        match block.highlight {
            None => {},
            Some(hl) => {
                let mut timer = hl.timer;
                timer.tick(delta);
                if timer.just_finished() {
                    if hl.remain == 0 {
                        answers.set(i, AnswerBlock { highlight: None, ..block });
                        new_round = true;
                    } else if block.border == Color::White {
                        answers.set(
                            i,
                            AnswerBlock {
                                border: Color::Black,
                                highlight: Some(Highlight { timer, remain: hl.remain }),
                                ..block
                            },
                        );
                    } else {
                        answers.set(
                            i,
                            AnswerBlock {
                                border: Color::White,
                                highlight: Some(Highlight { timer, remain: hl.remain - 1 }),
                                ..block
                            },
                        );
                    }
                } else {
                    answers.set(
                        i,
                        AnswerBlock {
                            highlight: Some(Highlight { timer, remain: hl.remain }),
                            ..block
                        },
                    );
                }
            },
        }
        i = i + 1;
    }
    proof {
        assert(old(answers)@.take(answers.len() as int) =~= old(answers)@);
    }
    new_round
}

/// Begins the next round when the last one has ended, and counts it.
///
/// Returns the new text of the round counter, unless that round was the last.
/// Once the game is complete no round is left to begin: a round end that
/// arrives then changes nothing.
pub fn update_round(new_round: bool, rounds: &mut Rounds, q_count: &mut QuestionCount) -> (text:
    Option<String>)
    ensures
        *final(rounds) == if new_round {
            old(rounds).advanced()
        } else {
            *old(rounds)
        },
        old(rounds).wf() ==> final(rounds).wf(),
        old(rounds).round_number <= old(rounds).round_max ==> final(rounds).round_number
            <= final(rounds).round_max,
        if new_round && !old(rounds).complete() && !final(rounds).complete() {
            &&& final(q_count).0 == final(rounds).round_number + 1
            &&& text matches Some(t)
            &&& t@ == question_label_text(final(q_count).0)
        } else {
            *final(q_count) == *old(q_count) && text is None
        },
{
    if !new_round || rounds.is_complete() {
        return None;
    }
    rounds.advance();
    if rounds.round_number < rounds.round_max {
        q_count.0 = rounds.round_number + 1;
        Some(question_label(q_count.0))
    } else {
        None
    }
}

/// Brings the answer blocks up to date when a round has begun: block `i` is
/// true if answer `i` of the new question is.
///
/// Returns the question whose text and answers are to be shown from now on;
/// `None` if nothing changed or the game is complete.
pub fn update_q_and_a<'a>(
    changed: bool,
    rounds: &'a Rounds,
    answers: &mut Vec<AnswerBlock>,
) -> (shown: Option<&'a Question>)
    requires
        rounds.wf(),
        old(answers).len() <= 4,
    ensures
        final(answers).len() == old(answers).len(),
        if changed && !rounds.complete() {
            &&& shown matches Some(q)
            &&& *q == rounds.questions[rounds.round_number as int]
            &&& forall|i: int|
                0 <= i < old(answers).len() ==> #[trigger] final(answers)[i] == old(
                    answers,
                )[i].asking(i, *q)
        } else {
            shown is None && final(answers)@ == old(answers)@
        },
{
    if !changed || rounds.is_complete() {
        return None;
    }
    let new_q = rounds.current();
    let mut i: usize = 0;
    while i < answers.len()
        invariant
            i <= answers.len(),
            answers.len() == old(answers).len(),
            answers.len() <= 4,
            forall|k: int|
                0 <= k < i ==> #[trigger] answers[k] == old(answers)[k].asking(k, *new_q),
            forall|k: int| i <= k < answers.len() ==> #[trigger] answers[k] == old(answers)[k],
        decreases answers.len() - i,
    {
        let block = answers[i];
        answers.set(i, AnswerBlock { truth: Truth(new_q.answers[i].truth), ..block });
        i = i + 1;
    }
    Some(new_q)
}

/// Removes all answer blocks when the game is left. No token rests on a
/// block any more afterwards.
pub fn teardown_blocks(answers: &mut Vec<AnswerBlock>, tokens: &mut Vec<Token>)
    ensures
        final(answers).len() == 0,
        final(tokens).len() == old(tokens).len(),
        forall|i: int|
            0 <= i < old(tokens).len() ==> #[trigger] final(tokens)[i] == (Token {
                on: None,
                ..old(tokens)[i]
            }),
{
    answers.clear();
    let mut i: usize = 0;
    while i < tokens.len()
        invariant
            i <= tokens.len(),
            tokens.len() == old(tokens).len(),
            forall|k: int|
                0 <= k < i ==> #[trigger] tokens[k] == (Token { on: None, ..old(tokens)[k] }),
            forall|k: int| i <= k < tokens.len() ==> #[trigger] tokens[k] == old(tokens)[k],
        decreases tokens.len() - i,
    {
        let token = tokens[i];
        tokens.set(i, Token { on: None, ..token });
        i = i + 1;
    }
}

} // verus!

//! A whole game session, advanced one tick at a time.
//!
//! Every tick takes what happened since the last one (the time that passed
//! and what the pointer did) and works through it in a fixed order:
//!
//! 1. the highlight of the true answer blinks on; when it ends, the round
//!    ends, the cursor is released, the next round begins and the tokens go
//!    home;
//! 2. unless the cursor is locked, the pointer moves, picks up and puts down
//!    tokens;
//! 3. the submit button is shown or hidden;
//! 4. a click on the shown button submits the round, unless a highlight
//!    runs: it is scored, the highlight starts and the cursor is locked until
//!    the highlight ends.
//!
//! Once the last round has ended the game is complete and ticks change
//! nothing.

use vstd::prelude::*;

use crate::answer::{
    all_laid_out, all_placed, any_highlight_ends, any_highlighted, block_for, correct_count,
    correct_count_bounded, highlight_correct, spawn_answerblock, submission_taken, submit_button,
    submit_click, submit_tokens, submit_visible, update_q_and_a, update_round, AnswerBlock,
    AnswerSlot, SubmitButton, SubmitClick,
};
use crate::geometry::UiPoint;
use crate::token::{
    after_moves, after_press, after_release, after_reset, at_most_one_dragged, down_draggable,
    drag_token, is_at_most_one_dragged, reset_tokens, spawn_tokens, token_for, up_draggable,
    Token, TokenSlot,
};
use crate::trivia::Rounds;
use crate::ui::{
    final_score_text, final_scorecard, question_label_text, score_label_text, QuestionCount,
    ScoreCount,
};
use crate::{button_materials, setup, ButtonMaterials, Interaction};

verus! {

/// What happened since the last tick.
#[derive(Clone, Debug, PartialEq, Eq)]
pub struct Input {
    /// Nanoseconds that passed.
    pub delta: u64,
    /// Where the cursor is; `None` while it is outside the window.
    pub cursor: Option<UiPoint>,
    /// Whether the primary button went down.
    pub pressed: bool,
    /// Whether the primary button went up.
    pub released: bool,
    /// Where the cursor moved, in the order it did.
    pub moves: Vec<UiPoint>,
    /// How the cursor relates to the submit button now, if that changed.
    pub submit: Option<Interaction>,
}

/// What a tick asks of whoever shows the game.
#[derive(Clone, Debug, PartialEq, Eq)]
pub struct Output {
    /// The round was submitted: hide and lock the cursor.
    pub submitted: bool,
    /// The round has ended: show and release the cursor.
    pub round_ended: bool,
    /// The new text of the score counter, after a submission.
    pub score_text: Option<String>,
    /// The new text of the round counter, when another round has begun.
    pub question_text: Option<String>,
    /// The text of the final scorecard, when the last round has ended.
    pub final_score: Option<String>,
}

/// A game session.
#[derive(Clone, Debug, PartialEq, Eq)]
pub struct Game {
    /// The questions and the round in play.
    pub rounds: Rounds,
    /// Where the tokens are at home.
    pub token_slots: Vec<TokenSlot>,
    /// The tokens. They are made once and moved, never made anew.
    pub tokens: Vec<Token>,
    /// The answer blocks of the round in play.
    pub answers: Vec<AnswerBlock>,
    /// The submit button.
    pub submit: SubmitButton,
    /// The points scored so far.
    pub score: ScoreCount,
    /// The number of the round in play, counted from one.
    pub question: QuestionCount,
    /// The colours of the submit button.
    pub colors: ButtonMaterials,
    /// Whether the cursor is locked: from a submission until its highlight
    /// has ended. While it is, the pointer moves nothing and nothing can be
    /// submitted.
    pub locked: bool,
}

/// Whether a game can be set up: there is a round to play, there are at most
/// four answer slots, all laid out, and the highest score that can be reached
/// can be counted.
pub open spec fn can_set_up(
    rounds: Rounds,
    token_slots: Seq<TokenSlot>,
    answer_slots: Seq<AnswerSlot>,
) -> bool {
    &&& rounds.wf()
    &&& !rounds.complete()
    &&& answer_slots.len() <= 4
    &&& all_laid_out(answer_slots)
    &&& rounds.round_max * token_slots.len() <= u64::MAX
}

impl Game {
    /// The rounds that count towards the bound of the score: those that were
    /// played, and the one in play once it was submitted.
    pub open spec fn rounds_scored(&self) -> int {
        self.rounds.round_number + if self.locked {
            1int
        } else {
            0int
        }
    }

    /// What holds of a game between any two ticks.
    ///
    /// The round counters agree with the questions; there are at most four
    /// answer blocks; at most one token is dragged; the cursor is locked only
    /// while a round is in play; and the score is at most the number of tokens
    /// for each round scored.
    pub open spec fn wf(&self) -> bool {
        &&& self.rounds.wf()
        &&& self.answers.len() <= 4
        &&& at_most_one_dragged(self.tokens@)
        &&& self.locked ==> !self.rounds.complete()
        &&& self.score.0 <= self.rounds_scored() * self.tokens.len()
        &&& self.rounds.round_max * self.tokens.len() <= u64::MAX
    }

    /// Whether the round in play ends with this tick: a highlight comes to
    /// its end.
    pub open spec fn round_ends(&self, input: Input) -> bool {
        any_highlight_ends(self.answers@, input.delta)
    }

    /// The number of the round in play after this tick.
    pub open spec fn round_after(&self, input: Input) -> int {
        self.rounds.round_number + if self.round_ends(input) {
            1int
        } else {
            0int
        }
    }

    /// Whether the game is complete after this tick.
    pub open spec fn complete_after(&self, input: Input) -> bool {
        self.round_after(input) >= self.rounds.round_max
    }

    /// Whether the cursor is locked when the pointer is looked at: it was
    /// locked and the round did not end.
    pub open spec fn pointer_locked(&self, input: Input) -> bool {
        self.locked && !self.round_ends(input)
    }

    /// The answer blocks the pointer meets: each blinked on, and, where
    /// another round has begun, showing the new question.
    pub open spec fn blocks_met(&self, input: Input) -> Seq<AnswerBlock> {
        Seq::new(
            self.answers.len() as nat,
            |k: int|
                {
                    let lit = self.answers[k].blinked(input.delta).0;
                    if self.round_ends(input) && !self.complete_after(input) {
                        lit.asking(k, self.rounds.questions[self.round_after(input)])
                    } else {
                        lit
                    }
                },
        )
    }

    /// The tokens after this tick: sent home if the round ended, then moved
    /// by the pointer unless the cursor is locked.
    pub open spec fn tokens_after(&self, input: Input) -> Seq<Token> {
        let home = after_reset(self.tokens@, self.round_ends(input), self.token_slots@);
        if self.pointer_locked(input) {
            home
        } else {
            after_release(
                after_press(
                    after_moves(home, input.moves@),
                    input.pressed,
                    input.cursor,
                    self.pointer_locked(input),
                ),
                input.released,
                self.blocks_met(input),
            )
        }
    }

    /// What the cursor does to the submit button in this tick. The button
    /// reacts only to a change, and not while the cursor is locked.
    pub open spec fn click(&self, input: Input) -> SubmitClick {
        match input.submit {
            Some(interaction) => if self.pointer_locked(input) {
                SubmitClick { color: None, pressed: false }
            } else {
                submit_click(all_placed(self.tokens_after(input)), interaction, self.colors)
            },
            None => SubmitClick { color: None, pressed: false },
        }
    }

    /// Whether the round is submitted in this tick: the shown submit button
    /// is clicked while a round is in play, every token is placed and no
    /// highlight runs.
    pub open spec fn submits(&self, input: Input) -> bool {
        submission_taken(
            self.click(input).pressed && !self.complete_after(input),
            self.tokens_after(input),
            self.blocks_met(input),
        )
    }

    /// The answer blocks after this tick: those the pointer met, with the
    /// highlight started if the round was submitted.
    pub open spec fn blocks_after(&self, input: Input) -> Seq<AnswerBlock> {
        if self.submits(input) {
            Seq::new(self.answers.len() as nat, |k: int| self.blocks_met(input)[k].submitted())
        } else {
            self.blocks_met(input)
        }
    }

    /// The points this tick adds to the score.
    pub open spec fn points(&self, input: Input) -> nat {
        if self.submits(input) {
            correct_count(self.tokens_after(input), self.blocks_met(input))
        } else {
            0
        }
    }

    /// Whether `next` is the game after a tick with `input` while a round is
    /// in play.
    pub open spec fn steps_to(&self, input: Input, next: Game) -> bool {
        &&& next.rounds.round_number == self.round_after(input)
        &&& next.rounds.round_max == self.rounds.round_max
        &&& next.rounds.questions == self.rounds.questions
        &&& next.token_slots == self.token_slots
        &&& next.tokens@ == self.tokens_after(input)
        &&& next.answers@ == self.blocks_after(input)
        &&& next.submit.visible == all_placed(self.tokens_after(input))
        &&& next.submit.color == match self.click(input).color {
            Some(color) => color,
            None => self.submit.color,
        }
        &&& next.score.0 == self.score.0 + self.points(input)
        &&& next.question.0 == if self.round_ends(input) && !self.complete_after(input) {
            self.round_after(input) + 1
        } else {
            self.question.0 as int
        }
        &&& next.colors == self.colors
        &&& next.locked == (self.pointer_locked(input) || self.submits(input))
    }

    /// Whether `out` is what a tick with `input` asks for, `next` being the
    /// game after it.
    pub open spec fn reports(&self, input: Input, next: Game, out: Output) -> bool {
        &&& out.submitted == self.submits(input)
        &&& out.round_ended == self.round_ends(input)
        &&& match out.score_text {
            Some(text) => self.submits(input) && text@ == score_label_text(next.score.0),
            None => !self.submits(input),
        }
        &&& match out.question_text {
            Some(text) => self.round_ends(input) && !self.complete_after(input) && text@
                == question_label_text(next.question.0),
            None => !(self.round_ends(input) && !self.complete_after(input)),
        }
        &&& match out.final_score {
            Some(text) => self.round_ends(input) && self.complete_after(input) && text@
                == final_score_text(next.score.0),
            None => !(self.round_ends(input) && self.complete_after(input)),
        }
    }

    /// Sets up a game: a token in every token slot, an answer block in every
    /// answer slot showing the first question, nothing scored, the submit
    /// button hidden.
    ///
    /// Returns `None` exactly when no game can be set up from what is given.
    pub fn new(
        rounds: Rounds,
        token_slots: Vec<TokenSlot>,
        answer_slots: &Vec<AnswerSlot>,
    ) -> (made: Option<Game>)
        ensures
            made is Some <==> can_set_up(rounds, token_slots@, answer_slots@),
            made matches Some(game) ==> {
                &&& game.wf()
                &&& game.rounds == rounds
                &&& game.token_slots == token_slots
                &&& game.tokens.len() == token_slots.len()
                &&& forall|i: int|
                    0 <= i < token_slots.len() ==> #[trigger] game.tokens[i] == token_for(
                        token_slots[i],
                        i,
                    )
                &&& game.answers.len() == answer_slots.len()
                &&& forall|i: int|
                    0 <= i < answer_slots.len() ==> #[trigger] game.answers[i] == block_for(
                        answer_slots[i],
                        i,
                        rounds.questions[rounds.round_number as int],
                    )
                &&& game.submit == (SubmitButton { visible: false, color: button_materials().none })
                &&& game.score == ScoreCount(0)
                &&& game.question.0 == rounds.round_number + 1
                &&& game.colors == button_materials()
                &&& !game.locked
            },
    {
        if !rounds.is_wf() || rounds.is_complete() || answer_slots.len() > 4 {
            return None;
        }
        assert(rounds.round_max * token_slots.len() <= u128::MAX) by (nonlinear_arith)
            requires
                0 <= rounds.round_max < 0x1_0000_0000_0000_0000,
                0 <= token_slots.len() < 0x1_0000_0000_0000_0000,
        ;
        let most: u128 = (rounds.round_max as u128) * (token_slots.len() as u128);
        if most > u64::MAX as u128 {
            return None;
        }
        let answers = match spawn_answerblock(answer_slots, rounds.current()) {
            Some(blocks) => blocks,
            None => {
                return None;
            },
        };
        let tokens = spawn_tokens(&token_slots);
        let colors = setup();
        let question = QuestionCount(rounds.round_number + 1);
        proof {
            assert forall|i: int, j: int|
                0 <= i < tokens.len() && 0 <= j < tokens.len() && (#[trigger] tokens[i]).dragged
                    && (#[trigger] tokens[j]).dragged implies i == j by {
                assert(!tokens[i].dragged);
            }
            assert(0 <= rounds.round_number * tokens.len()) by (nonlinear_arith)
                requires
                    rounds.round_number >= 0,
                    tokens.len() >= 0,
            ;
        }
        Some(
            Game {
                rounds,
                token_slots,
                tokens,
                answers,
                submit: SubmitButton { visible: false, color: colors.none },
                score: ScoreCount(0),
                question,
                colors,
                locked: false,
            },
        )
    }

    /// Whether the game is in a state that ticks keep: see [`Game::wf`].
    pub fn is_wf(&self) -> (ok: bool)
        ensures
            ok == self.wf(),
    {
        if !self.rounds.is_wf() || self.answers.len() > 4 || !is_at_most_one_dragged(&self.tokens) {
            return false;
        }
        if self.locked && self.rounds.is_complete() {
            return false;
        }
        let count: u128 = self.tokens.len() as u128;
        let scored: u128 = self.rounds.round_number as u128 + if self.locked {
            1u128
        } else {
            0u128
        };
        assert(scored * count == self.rounds_scored() * self.tokens.len() && scored * count
            <= u128::MAX) by (nonlinear_arith)
            requires
                scored == self.rounds_scored(),
                count == self.tokens.len(),
                0 <= scored <= 0x1_0000_0000_0000_0000,
                0 <= count < 0x1_0000_0000_0000_0000,
        ;
        let most: u128 = self.rounds.round_max as u128;
        assert(most * count == self.rounds.round_max * self.tokens.len() && most * count
            <= u128::MAX) by (nonlinear_arith)
            requires
                most == self.rounds.round_max,
                count == self.tokens.len(),
                0 <= most < 0x1_0000_0000_0000_0000,
                0 <= count < 0x1_0000_0000_0000_0000,
        ;
        (self.score.0 as u128) <= scored * count && most * count <= u64::MAX as u128
    }

    /// Advances the game by one tick.
    ///
    /// A complete game is left as it is and nothing is asked for. Otherwise
    /// the game after the tick is the one [`Game::steps_to`] describes, and
    /// what is asked for is what [`Game::reports`] describes. In particular
    /// the score never falls and rises only with a submission; a round is
    /// submitted only while every token is placed and the cursor is free; and
    /// at most one token is dragged afterwards.
    pub fn tick(&mut self, input: &Input) -> (out: Output)
        requires
            old(self).wf(),
        ensures
            final(self).wf(),
            old(self).rounds.complete() ==> *final(self) == *old(self) && out == (Output {
                submitted: false,
                round_ended: false,
                score_text: None,
                question_text: None,
                final_score: None,
            }),
            !old(self).rounds.complete() ==> old(self).steps_to(*input, *final(self)) && old(
                self,
            ).reports(*input, *final(self), out),
            final(self).tokens.len() == old(self).tokens.len(),
            final(self).score.0 >= old(self).score.0,
            final(self).score.0 > old(self).score.0 ==> out.submitted,
            out.submitted ==> !old(self).pointer_locked(*input) && all_placed(final(self).tokens@)
                && final(self).locked,
            at_most_one_dragged(final(self).tokens@),
    {
        if self.rounds.is_complete() {
            return Output {
                submitted: false,
                round_ended: false,
                score_text: None,
                question_text: None,
                final_score: None,
            };
        }
        let ghost before = *self;
        let ghost count = self.tokens.len() as int;
        let ended = highlight_correct(&mut self.answers, input.delta);
        if ended {
            self.locked = false;
        }
        let question_text = update_round(ended, &mut self.rounds, &mut self.question);
        reset_tokens(ended, &mut self.tokens, &self.token_slots);
        update_q_and_a(ended, &self.rounds, &mut self.answers);
        assert(self.answers@ =~= before.blocks_met(*input));
        if !self.locked {
            drag_token(&input.moves, &mut self.tokens);
            up_draggable(input.pressed, input.cursor, self.locked, &mut self.tokens);
            down_draggable(input.released, &mut self.tokens, &self.answers);
        }
        assert(self.tokens@ == before.tokens_after(*input));
        assert(self.tokens.len() == count);
        self.submit.visible = submit_visible(&self.tokens, self.submit.visible);
        let click = match input.submit {
            Some(interaction) => if self.locked {
                SubmitClick { color: None, pressed: false }
            } else {
                submit_button(self.submit.visible, interaction, &self.colors)
            },
            None => SubmitClick { color: None, pressed: false },
        };
        match click.color {
            Some(color) => {
                self.submit.color = color;
            },
            None => {},
        }
        let attempt = click.pressed && !self.rounds.is_complete();
        proof {
            let played = self.rounds.round_number as int;
            let most = self.rounds.round_max as int;
            if attempt {
                assert(before.score.0 <= played * count) by (nonlinear_arith)
                    requires
                        before.score.0 <= before.rounds_scored() * count,
                        before.rounds_scored() <= played,
                        count >= 0,
                ;
                assert((played + 1) * count <= most * count) by (nonlinear_arith)
                    requires
                        played + 1 <= most,
                        count >= 0,
                ;
                assert((played + 1) * count == played * count + count) by (nonlinear_arith);
            }
        }
        let score_text = submit_tokens(attempt, &self.tokens, &mut self.answers, &mut self.score);
        let submitted = score_text.is_some();
        if submitted {
            self.locked = true;
        }
        let final_score = final_scorecard(ended, &self.rounds, &self.score);
        proof {
            assert(self.answers@ =~= before.blocks_after(*input));
            correct_count_bounded(self.tokens@, before.blocks_met(*input));
            let played = self.rounds.round_number as int;
            if submitted {
                assert((played + 1) * count == played * count + count) by (nonlinear_arith);
            } else {
                assert(before.rounds_scored() * count <= self.rounds_scored() * count)
                    by (nonlinear_arith)
                    requires
                        before.rounds_scored() <= self.rounds_scored(),
                        count >= 0,
                ;
            }
        }
        Output { submitted, round_ended: ended, score_text, question_text, final_score }
    }
}

/// While the cursor is locked the pointer moves nothing, nothing is
/// submitted and nothing is scored: a second submission before the round has
/// ended is without effect.
pub proof fn locked_game_takes_no_submission(game: Game, input: Input)
    requires
        game.pointer_locked(input),
    ensures
        !game.submits(input),
        game.points(input) == 0,
        game.tokens_after(input) == game.tokens@,
        game.blocks_after(input) == game.blocks_met(input),
{
    assert(!game.round_ends(input));
    assert(after_reset(game.tokens@, false, game.token_slots@) == game.tokens@);
}

/// A round is submitted only while every token rests on an answer and no
/// highlight runs, and then it scores at most one point for each token.
pub proof fn submission_needs_every_token_placed(game: Game, input: Input)
    requires
        game.submits(input),
    ensures
        all_placed(game.tokens_after(input)),
        !any_highlighted(game.blocks_met(input)),
        game.points(input) <= game.tokens_after(input).len(),
        !game.pointer_locked(input),
{
    correct_count_bounded(game.tokens_after(input), game.blocks_met(input));
}

} // verus!

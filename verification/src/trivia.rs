//! Questions, their answers, and the rounds of one game session.

use vstd::prelude::*;
use vstd::string::StringExecFns;

verus! {

/// One candidate answer of a question.
#[derive(Clone, Debug, PartialEq, Eq)]
pub struct Answer {
    pub text: String,
    pub truth: bool,
}

/// A question with its four candidate answers.
#[derive(Clone, Debug, PartialEq, Eq)]
pub struct Question {
    pub text: String,
    pub answers: [Answer; 4],
}

/// The questions of a game session and the position of play within them.
///
/// `round_number` runs from zero to `round_max`; when it equals `round_max`
/// the game is complete and no question is current any more.
#[derive(Clone, Debug, PartialEq, Eq)]
pub struct Rounds {
    pub round_number: usize,
    pub round_max: usize,
    pub questions: Vec<Question>,
}

/// What an [`Answer`] says: its text as characters, and whether it is true.
pub ghost struct AnswerView {
    pub text: Seq<char>,
    pub truth: bool,
}

/// What a [`Question`] says: its text and its answers in slot order.
pub ghost struct QuestionView {
    pub text: Seq<char>,
    pub answers: Seq<AnswerView>,
}

impl View for Answer {
    type V = AnswerView;

    open spec fn view(&self) -> AnswerView {
        AnswerView { text: self.text@, truth: self.truth }
    }
}

impl View for Question {
    type V = QuestionView;

    open spec fn view(&self) -> QuestionView {
        QuestionView {
            text: self.text@,
            answers: Seq::new(4, |i: int| self.answers[i]@),
        }
    }
}

impl QuestionView {
    /// Whether slot `t` holds the one true answer: it is true and every other
    /// slot is false.
    pub open spec fn truth_only_at(self, t: int) -> bool {
        &&& 0 <= t < self.answers.len()
        &&& forall|i: int|
            0 <= i < self.answers.len() ==> ((#[trigger] self.answers[i]).truth <==> i == t)
    }

    /// Whether exactly one answer is true.
    pub open spec fn has_one_truth(self) -> bool {
        exists|t: int| self.truth_only_at(t)
    }
}

/// The slot that holds the one true answer is unique.
pub proof fn true_slot_is_unique(q: QuestionView, s: int, t: int)
    requires
        q.truth_only_at(s),
        q.truth_only_at(t),
    ensures
        s == t,
{
    assert(q.answers[s].truth);
}

impl Question {
    /// The slot of the first true answer, if any answer is true.
    pub fn true_slot(&self) -> (slot: Option<usize>)
        ensures
            match slot {
                Some(t) => t < 4 && self.answers[t as int].truth && forall|i: int|
                    0 <= i < t ==> !(#[trigger] self.answers[i]).truth,
                None => forall|i: int| 0 <= i < 4 ==> !(#[trigger] self.answers[i]).truth,
            },
            self@.has_one_truth() ==> slot is Some && self@.truth_only_at(slot.unwrap() as int),
    {
        let mut i: usize = 0;
        let mut found: Option<usize> = None;
        while i < 4
            invariant_except_break
                found is None,
            invariant
                i <= 4,
                forall|k: int| 0 <= k < i ==> !(#[trigger] self.answers[k]).truth,
            ensures
                match found {
                    Some(t) => t < 4 && self.answers[t as int].truth && forall|k: int|
                        0 <= k < t ==> !(#[trigger] self.answers[k]).truth,
                    None => forall|k: int| 0 <= k < 4 ==> !(#[trigger] self.answers[k]).truth,
                },
            decreases 4 - i,
        {
            if self.answers[i].truth {
                found = Some(i);
                break;
            }
            i = i + 1;
        }
        proof {
            if self@.has_one_truth() {
                let t = choose|t: int| self@.truth_only_at(t);
                assert(self@.answers[t] == self.answers[t]@);
                assert(self.answers[t].truth);
                let s = found.unwrap() as int;
                assert(self@.answers[s] == self.answers[s]@);
                assert(s == t);
            }
        }
        found
    }
}

impl Rounds {
    /// Whether the counters agree with the questions held: `round_max` is
    /// their number and `round_number` does not exceed it.
    pub open spec fn wf(&self) -> bool {
        &&& self.round_max == self.questions.len()
        &&& self.round_number <= self.round_max
    }

    /// Whether every round has been played.
    pub open spec fn complete(&self) -> bool {
        self.round_number >= self.round_max
    }

    /// The rounds of a new session: play starts at the first question.
    pub fn new(questions: Vec<Question>) -> (rounds: Rounds)
        ensures
            rounds.wf(),
            rounds.round_number == 0,
            rounds.questions == questions,
    {
        Rounds { round_number: 0, round_max: questions.len(), questions }
    }

    /// Whether the counters agree with the questions held.
    pub fn is_wf(&self) -> (ok: bool)
        ensures
            ok == self.wf(),
    {
        self.round_max == self.questions.len() && self.round_number <= self.round_max
    }

    /// Whether the game is complete. Callers check this before asking for the
    /// current question.
    pub fn is_complete(&self) -> (done: bool)
        ensures
            done == self.complete(),
    {
        self.round_number >= self.round_max
    }

    /// Whether a question is current: play has not reached `round_max`, and
    /// a question is held for the round in play.
    pub open spec fn has_current(&self) -> bool {
        self.round_number < self.round_max && self.round_number < self.questions.len()
    }

    /// The rounds after the round in play has ended: play moves on by one
    /// round, and stays where it is once the game is complete.
    pub open spec fn advanced(self) -> Rounds {
        if self.round_number < self.round_max {
            Rounds { round_number: (self.round_number + 1) as usize, ..self }
        } else {
            self
        }
    }

    /// The rounds after `n` rounds have ended.
    pub open spec fn advanced_by(self, n: nat) -> Rounds
        decreases n,
    {
        if n == 0 {
            self
        } else {
            self.advanced_by((n - 1) as nat).advanced()
        }
    }

    /// The question of the round in play. There is none once the game is
    /// complete: callers check [`Rounds::is_complete`] first, or ask
    /// [`Rounds::try_current`].
    pub fn current(&self) -> (question: &Question)
        requires
            self.wf(),
            !self.complete(),
        ensures
            *question == self.questions[self.round_number as int],
    {
        &self.questions[self.round_number]
    }

    /// The question of the round in play, or `None` once the game is
    /// complete: no question of an earlier round is handed out again. Where
    /// the counters disagree with the questions held, a question is handed out
    /// only if both counters allow it.
    pub fn try_current(&self) -> (question: Option<&Question>)
        ensures
            question is Some <==> self.has_current(),
            question matches Some(q) ==> *q == self.questions[self.round_number as int],
            self.wf() ==> (question is None <==> self.complete()),
    {
        if self.round_number < self.round_max && self.round_number < self.questions.len() {
            Some(&self.questions[self.round_number])
        } else {
            None
        }
    }

    /// Moves on to the next round. Returns whether that completed the game.
    ///
    /// Once the game is complete nothing moves any more and `false` is
    /// returned: the round in play never passes `round_max`.
    pub fn advance(&mut self) -> (done: bool)
        ensures
            *final(self) == old(self).advanced(),
            old(self).wf() ==> final(self).wf(),
            old(self).round_number <= old(self).round_max ==> final(self).round_number
                <= final(self).round_max,
            done == (old(self).round_number < old(self).round_max && final(self).round_number
                == final(self).round_max),
    {
        if self.round_number < self.round_max {
            self.round_number = self.round_number + 1;
            self.round_number == self.round_max
        } else {
            false
        }
    }
}

/// Where play stands after `n` rounds have ended: `n` rounds further on, but
/// never past the last round.
pub proof fn advanced_by_counts_rounds(rounds: Rounds, n: nat)
    requires
        rounds.wf(),
    ensures
        rounds.advanced_by(n).wf(),
        rounds.advanced_by(n).round_max == rounds.round_max,
        rounds.advanced_by(n).questions == rounds.questions,
        rounds.advanced_by(n).round_number == if rounds.round_number + n <= rounds.round_max {
            rounds.round_number + n
        } else {
            rounds.round_max as int
        },
    decreases n,
{
    if n > 0 {
        advanced_by_counts_rounds(rounds, (n - 1) as nat);
    }
}

/// When as many rounds have ended as there are questions, the game is
/// complete: play stands at `round_max`, no question is current, and no
/// question is held for the round that play stands at. It stays so however
/// many more round ends arrive.
pub proof fn no_question_after_the_last_round(rounds: Rounds, n: nat)
    requires
        rounds.wf(),
        rounds.round_number + n >= rounds.round_max,
    ensures
        rounds.advanced_by(n).round_number == rounds.round_max,
        rounds.advanced_by(n).complete(),
        !rounds.advanced_by(n).has_current(),
        rounds.advanced_by(n).round_number >= rounds.advanced_by(n).questions.len(),
        rounds.advanced_by(n).advanced() == rounds.advanced_by(n),
{
    advanced_by_counts_rounds(rounds, n);
}

/// A stand-in question: its first answer is the true one.
fn placeholder_question(
    text: &str,
    first: &str,
    second: &str,
    third: &str,
    fourth: &str,
) -> (q: Question)
    ensures
        q@.text == text@,
        q@.answers =~= seq![
            AnswerView { text: first@, truth: true },
            AnswerView { text: second@, truth: false },
            AnswerView { text: third@, truth: false },
            AnswerView { text: fourth@, truth: false },
        ],
        q@.truth_only_at(0),
{
    let q = Question {
        text: String::from_str(text),
        answers: [
            Answer { text: String::from_str(first), truth: true },
            Answer { text: String::from_str(second), truth: false },
            Answer { text: String::from_str(third), truth: false },
            Answer { text: String::from_str(fourth), truth: false },
        ],
    };
    assert(q@.answers[0].truth);
    q
}

/// Two stand-in rounds, for playing without the trivia service. In both the
/// first answer is the true one.
pub fn placeholder_trivia() -> (rounds: Rounds)
    ensures
        rounds.wf(),
        rounds.round_number == 0,
        rounds.round_max == 2,
        rounds.questions[0]@.text == "Question 1"@,
        rounds.questions[1]@.text == "Question 2"@,
        rounds.questions[0]@.answers =~= seq![
            AnswerView { text: "Answer 1.1"@, truth: true },
            AnswerView { text: "Answer 1.2"@, truth: false },
            AnswerView { text: "Answer 1.3"@, truth: false },
            AnswerView { text: "Answer 1.4"@, truth: false },
        ],
        rounds.questions[1]@.answers =~= seq![
            AnswerView { text: "Answer 2.1"@, truth: true },
            AnswerView { text: "Answer 2.2"@, truth: false },
            AnswerView { text: "Answer 2.3"@, truth: false },
            AnswerView { text: "Answer 2.4"@, truth: false },
        ],
{
    let mut questions: Vec<Question> = Vec::new();
    questions.push(
        placeholder_question("Question 1", "Answer 1.1", "Answer 1.2", "Answer 1.3", "Answer 1.4"),
    );
    questions.push(
        placeholder_question("Question 2", "Answer 2.1", "Answer 2.2", "Answer 2.3", "Answer 2.4"),
    );
    Rounds::new(questions)
}

} // verus!

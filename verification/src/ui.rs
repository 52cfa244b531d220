//! The counters shown beside the board, and their texts.

use vstd::prelude::*;
use vstd::string::StringExecFns;

use crate::trivia::Rounds;
use crate::AppState;

verus! {

/// The number of the round in play, counted from one.
#[derive(Clone, Copy, Debug, PartialEq, Eq, Structural)]
pub struct QuestionCount(pub usize);

/// The points scored so far.
#[derive(Clone, Copy, Debug, PartialEq, Eq, Structural)]
pub struct ScoreCount(pub u64);

/// The character of a decimal digit.
pub open spec fn digit_char(d: int) -> char {
    if d == 0 {
        '0'
    } else if d == 1 {
        '1'
    } else if d == 2 {
        '2'
    } else if d == 3 {
        '3'
    } else if d == 4 {
        '4'
    } else if d == 5 {
        '5'
    } else if d == 6 {
        '6'
    } else if d == 7 {
        '7'
    } else if d == 8 {
        '8'
    } else {
        '9'
    }
}

/// A number written in decimal, without leading zeros.
pub open spec fn decimal(n: nat) -> Seq<char>
    decreases n,
{
    if n < 10 {
        seq![digit_char(n as int)]
    } else {
        decimal(n / 10).push(digit_char((n % 10) as int))
    }
}

/// The text of the score counter.
pub open spec fn score_label_text(score: u64) -> Seq<char> {
    "Score: "@ + decimal(score as nat)
}

/// The text of the round counter.
pub open spec fn question_label_text(question: usize) -> Seq<char> {
    "Question: "@ + decimal(question as nat) + "/8"@
}

/// The text of the final scorecard.
pub open spec fn final_score_text(score: u64) -> Seq<char> {
    "Final Score: "@ + decimal(score as nat) + " Points!\n"@
}

/// A decimal digit as text.
fn digit_str(d: u64) -> (s: &'static str)
    requires
        d < 10,
    ensures
        s@ == seq![digit_char(d as int)],
{
    proof {
        reveal_strlit("0");
        reveal_strlit("1");
        reveal_strlit("2");
        reveal_strlit("3");
        reveal_strlit("4");
        reveal_strlit("5");
        reveal_strlit("6");
        reveal_strlit("7");
        reveal_strlit("8");
        reveal_strlit("9");
    }
    let s = if d == 0 {
        "0"
    } else if d == 1 {
        "1"
    } else if d == 2 {
        "2"
    } else if d == 3 {
        "3"
    } else if d == 4 {
        "4"
    } else if d == 5 {
        "5"
    } else if d == 6 {
        "6"
    } else if d == 7 {
        "7"
    } else if d == 8 {
        "8"
    } else {
        "9"
    };
    assert(s@ =~= seq![digit_char(d as int)]);
    s
}

/// Appends `n` in decimal to `text`.
pub fn push_decimal(text: &mut String, n: u64)
    ensures
        final(text)@ == old(text)@ + decimal(n as nat),
    decreases n,
{
    if n >= 10 {
        push_decimal(text, n / 10);
    }
    text.append(digit_str(n % 10));
    assert(text@ =~= old(text)@ + decimal(n as nat));
}

/// The text of the score counter.
pub fn score_label(score: u64) -> (text: String)
    ensures
        text@ == score_label_text(score),
{
    let mut text = String::from_str("Score: ");
    push_decimal(&mut text, score);
    text
}

/// The text of the round counter.
pub fn question_label(question: usize) -> (text: String)
    ensures
        text@ == question_label_text(question),
{
    let mut text = String::from_str("Question: ");
    push_decimal(&mut text, question as u64);
    text.append("/8");
    text
}

/// The text of the final scorecard.
pub fn final_score_label(score: u64) -> (text: String)
    ensures
        text@ == final_score_text(score),
{
    let mut text = String::from_str("Final Score: ");
    push_decimal(&mut text, score);
    text.append(" Points!\n");
    text
}

/// The text of the final scorecard, which is shown when the last round has
/// just ended.
pub fn final_scorecard(changed: bool, rounds: &Rounds, score: &ScoreCount) -> (card: Option<String>)
    ensures
        if changed && rounds.round_number == rounds.round_max {
            card matches Some(text) && text@ == final_score_text(score.0)
        } else {
            card is None
        },
{
    if changed && rounds.round_number == rounds.round_max {
        Some(final_score_label(score.0))
    } else {
        None
    }
}

/// Returns to the menu on a left click once the game is over.
pub fn return_to_menu(rounds: &Rounds, left_click: bool) -> (next: Option<AppState>)
    ensures
        next == if left_click && rounds.round_number == rounds.round_max {
            Some(AppState::Menu)
        } else {
            None
        },
{
    if left_click && rounds.round_number == rounds.round_max {
        Some(AppState::Menu)
    } else {
        None
    }
}

} // verus!

use prettysure::trivia::{placeholder_trivia, Answer, Question, Rounds};
use prettysure::ui::{final_scorecard, return_to_menu, ScoreCount};
use prettysure::AppState;

fn question_with_truth_at(text: &str, slot: usize) -> Question {
    let answer = |i: usize| Answer { text: format!("{} answer {}", text, i), truth: i == slot };
    Question { text: text.to_string(), answers: [answer(0), answer(1), answer(2), answer(3)] }
}

#[test]
fn new_rounds_start_at_the_first_question() {
    let rounds = Rounds::new(vec![question_with_truth_at("a", 1), question_with_truth_at("b", 3)]);
    assert_eq!(rounds.round_number, 0);
    assert_eq!(rounds.round_max, 2);
    assert!(rounds.is_wf());
    assert!(!rounds.is_complete());
    assert_eq!(rounds.current().text, "a");
    assert_eq!(rounds.try_current().map(|q| q.text.as_str()), Some("a"));
}

#[test]
fn round_exhaustion() {
    let mut rounds =
        Rounds::new(vec![question_with_truth_at("a", 0), question_with_truth_at("b", 2)]);
    assert_eq!(rounds.round_max, 2);
    assert!(!rounds.advance());
    assert_eq!(rounds.round_number, 1);
    assert_eq!(rounds.current().text, "b");
    assert!(rounds.advance());
    assert_eq!(rounds.round_number, rounds.round_max);
    assert!(rounds.is_complete());
    assert!(rounds.is_wf());
    assert!(rounds.try_current().is_none());

    // Further round ends leave the terminal state as it is.
    let terminal = rounds.clone();
    assert!(!rounds.advance());
    assert!(!rounds.advance());
    assert_eq!(rounds, terminal);
    assert_eq!(rounds.round_number, 2);
    assert!(rounds.try_current().is_none());
}

#[test]
fn advance_never_passes_the_last_round() {
    let mut rounds = Rounds::new(Vec::new());
    assert!(!rounds.advance());
    assert_eq!((rounds.round_number, rounds.round_max), (0, 0));

    let mut rounds = Rounds::new(vec![question_with_truth_at("a", 0)]);
    rounds.round_number = usize::MAX;
    rounds.round_max = usize::MAX;
    assert!(!rounds.advance());
    assert_eq!(rounds.round_number, usize::MAX);

    let mut rounds = Rounds::new(vec![question_with_truth_at("a", 0)]);
    assert!(rounds.advance());
    assert_eq!(rounds.round_number, 1);
}

#[test]
fn rounds_without_questions_are_complete() {
    let rounds = Rounds::new(Vec::new());
    assert!(rounds.is_wf());
    assert!(rounds.is_complete());
    assert!(rounds.try_current().is_none());
}

#[test]
fn counters_that_disagree_with_the_questions_are_not_well_formed() {
    let mut rounds = Rounds::new(vec![question_with_truth_at("a", 0)]);
    rounds.round_max = 2;
    assert!(!rounds.is_wf());
    rounds.round_number = 1;
    assert!(rounds.try_current().is_none());
    rounds.round_max = 1;
    rounds.round_number = 2;
    assert!(!rounds.is_wf());
    assert!(rounds.try_current().is_none());
}

#[test]
fn true_slot_finds_the_one_true_answer() {
    for slot in 0..4 {
        assert_eq!(question_with_truth_at("q", slot).true_slot(), Some(slot));
    }
    assert_eq!(question_with_truth_at("q", 9).true_slot(), None);
}

#[test]
fn placeholder_trivia_has_two_rounds_with_the_first_answer_true() {
    let rounds = placeholder_trivia();
    assert_eq!(rounds.round_number, 0);
    assert_eq!(rounds.round_max, 2);
    assert_eq!(rounds.questions.len(), 2);
    assert_eq!(rounds.questions[0].text, "Question 1");
    assert_eq!(rounds.questions[1].text, "Question 2");
    assert_eq!(rounds.questions[0].answers[0].text, "Answer 1.1");
    assert_eq!(rounds.questions[1].answers[3].text, "Answer 2.4");
    for question in &rounds.questions {
        assert_eq!(question.true_slot(), Some(0));
        assert_eq!(question.answers.iter().filter(|a| a.truth).count(), 1);
    }
}

#[test]
fn menu_is_reached_only_after_the_last_round() {
    let mut rounds = placeholder_trivia();
    assert_eq!(return_to_menu(&rounds, true), None);
    rounds.advance();
    assert_eq!(return_to_menu(&rounds, true), None);
    rounds.advance();
    assert_eq!(return_to_menu(&rounds, false), None);
    assert_eq!(return_to_menu(&rounds, true), Some(AppState::Menu));
}

#[test]
fn final_scorecard_appears_when_the_last_round_ends() {
    let mut rounds = placeholder_trivia();
    let score = ScoreCount(7);
    assert_eq!(final_scorecard(true, &rounds, &score), None);
    rounds.advance();
    rounds.advance();
    assert_eq!(final_scorecard(false, &rounds, &score), None);
    assert_eq!(
        final_scorecard(true, &rounds, &score),
        Some("Final Score: 7 Points!\n".to_string())
    );
}

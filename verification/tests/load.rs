use prettysure::load::{
    arrange_answers, format_question, format_questions, insert_trivia, questions_url,
    retrieve_questions, shuffle_question, ApiIdResponse, ApiQResponse, ApiQuestion, Failure,
    FetchAction, FetchError, FetchEvent, FetchState, LoadOutcome, SessionId, SiteData,
    QUESTIONS_URL, REQUEST_TIMEOUT_SECS, SESSION_URL,
};
use prettysure::trivia::{placeholder_trivia, Question};
use prettysure::AppState;

fn api_question(question: &str, correct: &str, wrong: &[&str]) -> ApiQuestion {
    ApiQuestion {
        category: "General Knowledge".to_string(),
        kind: "multiple".to_string(),
        difficulty: "easy".to_string(),
        question: question.to_string(),
        correct_answer: correct.to_string(),
        incorrect_answers: wrong.iter().map(|w| w.to_string()).collect(),
    }
}

fn texts(question: &Question) -> Vec<&str> {
    question.answers.iter().map(|a| a.text.as_str()).collect()
}

fn truths(question: &Question) -> Vec<bool> {
    question.answers.iter().map(|a| a.truth).collect()
}

#[test]
fn correct_answer_goes_to_the_slot_drawn() {
    let make = |t: usize| {
        arrange_answers(
            "q".to_string(),
            "right".to_string(),
            "a".to_string(),
            "b".to_string(),
            "c".to_string(),
            t,
        )
    };
    assert_eq!(texts(&make(0)), vec!["right", "a", "b", "c"]);
    assert_eq!(texts(&make(1)), vec!["a", "right", "b", "c"]);
    assert_eq!(texts(&make(2)), vec!["a", "b", "right", "c"]);
    assert_eq!(texts(&make(3)), vec!["a", "b", "c", "right"]);
    assert_eq!(truths(&make(0)), vec![true, false, false, false]);
    assert_eq!(truths(&make(1)), vec![false, true, false, false]);
    assert_eq!(truths(&make(2)), vec![false, false, true, false]);
    assert_eq!(truths(&make(3)), vec![false, false, false, true]);
    assert_eq!(make(2).text, "q");
}

#[test]
fn every_text_of_a_question_is_decoded() {
    let api_q = api_question(
        "Is 2 &lt; 3 &amp; 4 &gt; 1?",
        "&quot;Yes&quot;",
        &["Caf&eacute;", "It&#039;s not", "&#x41;BC"],
    );
    let q = format_question(&api_q, 1);
    assert_eq!(q.text, "Is 2 < 3 & 4 > 1?");
    assert_eq!(texts(&q), vec!["Caf\u{e9}", "\"Yes\"", "It's not", "ABC"]);
    assert_eq!(truths(&q), vec![false, true, false, false]);
}

#[test]
fn text_without_entities_is_kept() {
    let api_q = api_question("Plain question", "right", &["x", "y & z", "w"]);
    let q = format_question(&api_q, 3);
    assert_eq!(q.text, "Plain question");
    assert_eq!(texts(&q), vec!["x", "y & z", "w", "right"]);
}

#[test]
fn wrong_answers_beyond_the_third_are_not_used() {
    let api_q = api_question("q", "right", &["a", "b", "c", "d", "e"]);
    let q = format_question(&api_q, 0);
    assert_eq!(texts(&q), vec!["right", "a", "b", "c"]);
}

#[test]
fn shuffled_question_has_one_truth_with_the_correct_text() {
    let api_q = api_question("q &amp; a", "R&amp;D", &["a", "b", "c"]);
    let mut seen = [false; 4];
    for _ in 0..400 {
        let q = shuffle_question(&api_q).unwrap();
        assert_eq!(q.text, "q & a");
        assert_eq!(q.answers.iter().filter(|a| a.truth).count(), 1);
        let slot = q.true_slot().unwrap();
        assert!(slot < 4);
        seen[slot] = true;
        assert_eq!(q.answers[slot].text, "R&D");
        let rest: Vec<&str> =
            q.answers.iter().filter(|a| !a.truth).map(|a| a.text.as_str()).collect();
        assert_eq!(rest, vec!["a", "b", "c"]);
    }
    // Each slot is drawn with probability 1/4: all four turn up in 400 draws.
    assert_eq!(seen, [true; 4]);
}

#[test]
fn question_with_too_few_wrong_answers_is_a_decode_error() {
    let api_q = api_question("q", "right", &["a", "b"]);
    assert_eq!(shuffle_question(&api_q), Err(FetchError::Decode));
    assert_eq!(shuffle_question(&api_question("q", "right", &[])), Err(FetchError::Decode));
}

#[test]
fn results_become_rounds_in_order() {
    let results = vec![
        api_question("first", "1", &["a", "b", "c"]),
        api_question("second", "2", &["d", "e", "f"]),
        api_question("third", "3", &["g", "h", "i"]),
    ];
    let rounds = format_questions(&results).unwrap();
    assert_eq!(rounds.round_number, 0);
    assert_eq!(rounds.round_max, 3);
    assert_eq!(rounds.questions.len(), 3);
    assert_eq!(rounds.questions[0].text, "first");
    assert_eq!(rounds.questions[1].text, "second");
    assert_eq!(rounds.questions[2].text, "third");
    for (question, correct) in rounds.questions.iter().zip(["1", "2", "3"]) {
        assert_eq!(question.answers.iter().filter(|a| a.truth).count(), 1);
        assert_eq!(question.answers[question.true_slot().unwrap()].text, correct);
    }
}

#[test]
fn no_results_give_rounds_that_are_complete() {
    let rounds = format_questions(&Vec::new()).unwrap();
    assert_eq!(rounds.round_max, 0);
    assert!(rounds.is_complete());
}

#[test]
fn one_misshapen_result_fails_the_whole_set() {
    let results = vec![
        api_question("first", "1", &["a", "b", "c"]),
        api_question("second", "2", &["d"]),
    ];
    assert_eq!(format_questions(&results), Err(FetchError::Decode));
}

#[test]
fn questions_url_ends_in_the_token() {
    assert_eq!(SESSION_URL, "https://opentdb.com/api_token.php?command=request");
    assert_eq!(QUESTIONS_URL, "https://opentdb.com/api.php?amount=8&type=multiple&token=");
    assert_eq!(REQUEST_TIMEOUT_SECS, 20);
    assert_eq!(
        questions_url("abc123"),
        "https://opentdb.com/api.php?amount=8&type=multiple&token=abc123"
    );
    assert_eq!(questions_url(""), QUESTIONS_URL);
}

#[test]
fn fetch_without_session_asks_for_one_first() {
    let (state, action) = retrieve_questions(FetchState::Idle, FetchEvent::Start(None));
    assert_eq!(state, FetchState::AwaitingSession);
    assert_eq!(action, FetchAction::RequestSession);

    let reply = ApiIdResponse {
        response_code: 0,
        response_message: "Token Generated Successfully!".to_string(),
        token: "tok".to_string(),
    };
    let (state, action) = retrieve_questions(state, FetchEvent::SessionReply(Ok(reply)));
    assert_eq!(state, FetchState::AwaitingQuestions("tok".to_string()));
    assert_eq!(
        action,
        FetchAction::RequestQuestions(
            "https://opentdb.com/api.php?amount=8&type=multiple&token=tok".to_string()
        )
    );

    let reply = ApiQResponse {
        response_code: 0,
        results: vec![api_question("q1", "yes", &["no", "maybe", "never"])],
    };
    let (state, action) = retrieve_questions(state, FetchEvent::QuestionsReply(Ok(reply)));
    assert_eq!(state, FetchState::Finished);
    match action {
        FetchAction::Deliver(Ok(data)) => {
            assert_eq!(data.session_id, SessionId { id: Some("tok".to_string()) });
            assert_eq!(data.rounds.round_number, 0);
            assert_eq!(data.rounds.round_max, 1);
            assert_eq!(data.rounds.questions[0].text, "q1");
        },
        other => panic!("unexpected action {:?}", other),
    }
}

#[test]
fn fetch_with_session_asks_for_questions_at_once() {
    let (state, action) =
        retrieve_questions(FetchState::Idle, FetchEvent::Start(Some("old".to_string())));
    assert_eq!(state, FetchState::AwaitingQuestions("old".to_string()));
    assert_eq!(
        action,
        FetchAction::RequestQuestions(
            "https://opentdb.com/api.php?amount=8&type=multiple&token=old".to_string()
        )
    );
}

#[test]
fn fetch_failure() {
    // The network fails on the session-token step.
    let (state, _) = retrieve_questions(FetchState::Idle, FetchEvent::Start(None));
    let (state, action) =
        retrieve_questions(state, FetchEvent::SessionReply(Err(Failure::Transport)));
    assert_eq!(state, FetchState::Finished);
    assert_eq!(action, FetchAction::Deliver(Err(FetchError::Network)));

    // Nothing is asked again, whatever arrives later.
    let late = ApiQResponse { response_code: 0, results: Vec::new() };
    let (state, action) = retrieve_questions(state, FetchEvent::QuestionsReply(Ok(late)));
    assert_eq!(state, FetchState::Finished);
    assert_eq!(action, FetchAction::Ignore);
    let (state, action) = retrieve_questions(state, FetchEvent::Start(None));
    assert_eq!(state, FetchState::Finished);
    assert_eq!(action, FetchAction::Ignore);

    // The error is handed over once; no session token and no rounds are installed.
    let mut session = SessionId { id: None };
    let outcome = insert_trivia(Some(Err(FetchError::Network)), &mut session);
    assert_eq!(outcome, Some(LoadOutcome::Failed(FetchError::Network)));
    assert_eq!(session, SessionId { id: None });
    assert_eq!(insert_trivia(None, &mut session), None);
}

#[test]
fn unreadable_session_reply_is_a_network_error() {
    let (state, action) = retrieve_questions(
        FetchState::AwaitingSession,
        FetchEvent::SessionReply(Err(Failure::Malformed)),
    );
    assert_eq!(state, FetchState::Finished);
    assert_eq!(action, FetchAction::Deliver(Err(FetchError::Network)));
}

#[test]
fn failures_of_the_questions_request_are_told_apart() {
    let waiting = || FetchState::AwaitingQuestions("tok".to_string());
    let (state, action) =
        retrieve_questions(waiting(), FetchEvent::QuestionsReply(Err(Failure::Transport)));
    assert_eq!(state, FetchState::Finished);
    assert_eq!(action, FetchAction::Deliver(Err(FetchError::Network)));

    let (state, action) =
        retrieve_questions(waiting(), FetchEvent::QuestionsReply(Err(Failure::Malformed)));
    assert_eq!(state, FetchState::Finished);
    assert_eq!(action, FetchAction::Deliver(Err(FetchError::Decode)));

    let misshapen =
        ApiQResponse { response_code: 0, results: vec![api_question("q", "yes", &["no"])] };
    let (state, action) = retrieve_questions(waiting(), FetchEvent::QuestionsReply(Ok(misshapen)));
    assert_eq!(state, FetchState::Finished);
    assert_eq!(action, FetchAction::Deliver(Err(FetchError::Decode)));
}

#[test]
fn events_out_of_turn_are_ignored() {
    let reply = || ApiIdResponse {
        response_code: 0,
        response_message: String::new(),
        token: "tok".to_string(),
    };
    let (state, action) =
        retrieve_questions(FetchState::Idle, FetchEvent::SessionReply(Ok(reply())));
    assert_eq!(state, FetchState::Idle);
    assert_eq!(action, FetchAction::Ignore);

    let (state, action) = retrieve_questions(FetchState::AwaitingSession, FetchEvent::Start(None));
    assert_eq!(state, FetchState::AwaitingSession);
    assert_eq!(action, FetchAction::Ignore);

    let (state, action) = retrieve_questions(
        FetchState::AwaitingQuestions("tok".to_string()),
        FetchEvent::SessionReply(Ok(reply())),
    );
    assert_eq!(state, FetchState::AwaitingQuestions("tok".to_string()));
    assert_eq!(action, FetchAction::Ignore);
}

#[test]
fn pending_fetch_installs_nothing() {
    let mut session = SessionId { id: Some("kept".to_string()) };
    assert_eq!(insert_trivia(None, &mut session), None);
    assert_eq!(session.id.as_deref(), Some("kept"));
}

#[test]
fn first_fetch_sets_the_session() {
    let mut session = SessionId { id: None };
    let data = SiteData {
        session_id: SessionId { id: Some("fresh".to_string()) },
        rounds: placeholder_trivia(),
    };
    let outcome = insert_trivia(Some(Ok(data)), &mut session);
    assert_eq!(
        outcome,
        Some(LoadOutcome::Ready { rounds: placeholder_trivia(), next: AppState::Game })
    );
    assert_eq!(session.id.as_deref(), Some("fresh"));
}

#[test]
fn known_session_is_not_replaced() {
    let mut session = SessionId { id: Some("known".to_string()) };
    let data = SiteData {
        session_id: SessionId { id: Some("other".to_string()) },
        rounds: placeholder_trivia(),
    };
    let outcome = insert_trivia(Some(Ok(data)), &mut session);
    assert!(matches!(outcome, Some(LoadOutcome::Ready { next: AppState::Game, .. })));
    assert_eq!(session.id.as_deref(), Some("known"));
}

#[test]
fn decode_error_is_handed_over_unchanged() {
    let mut session = SessionId { id: Some("known".to_string()) };
    let outcome = insert_trivia(Some(Err(FetchError::Decode)), &mut session);
    assert_eq!(outcome, Some(LoadOutcome::Failed(FetchError::Decode)));
    assert_eq!(session.id.as_deref(), Some("known"));
}

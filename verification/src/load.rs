//! Shaping what the trivia service sends into rounds, and the two-step
//! exchange with the service as a state machine.
//!
//! The service is asked first for a session token (unless one is at hand) and
//! then for the questions. Whoever talks to the network performs these
//! requests and reports each reply here; every decision in between is made by
//! the functions of this module.

use rand::Rng;
use vstd::prelude::*;
use vstd::string::StringExecFns;

use crate::AppState;
use crate::trivia::{Answer, AnswerView, Question, QuestionView, Rounds};

verus! {

/// Where a session token is requested.
pub const SESSION_URL: &'static str = "https://opentdb.com/api_token.php?command=request";

/// Where questions are requested; the session token is appended.
pub const QUESTIONS_URL: &'static str =
    "https://opentdb.com/api.php?amount=8&type=multiple&token=";

/// Seconds after which a request to the service is given up.
pub const REQUEST_TIMEOUT_SECS: u64 = 20;

/// The session token, once the service has handed one out.
#[derive(Clone, Debug, PartialEq, Eq)]
pub struct SessionId {
    pub id: Option<String>,
}

/// A question as the service sends it. No text has been decoded yet.
#[derive(Clone, Debug, PartialEq, Eq)]
pub struct ApiQuestion {
    pub category: String,
    pub kind: String,
    pub difficulty: String,
    pub question: String,
    pub correct_answer: String,
    pub incorrect_answers: Vec<String>,
}

/// The service's reply to a request for questions.
#[derive(Clone, Debug, PartialEq, Eq)]
pub struct ApiQResponse {
    pub response_code: u8,
    pub results: Vec<ApiQuestion>,
}

/// The service's reply to a request for a session token.
#[derive(Clone, Debug, PartialEq, Eq)]
pub struct ApiIdResponse {
    pub response_code: u8,
    pub response_message: String,
    pub token: String,
}

/// Everything a completed fetch hands over.
#[derive(Clone, Debug, PartialEq, Eq)]
pub struct SiteData {
    pub session_id: SessionId,
    pub rounds: Rounds,
}

/// How a request to the service went wrong.
#[derive(Clone, Copy, Debug, PartialEq, Eq, Structural)]
pub enum Failure {
    /// The request could not be sent, or no reply arrived in time.
    Transport,
    /// A reply arrived but was not the JSON expected.
    Malformed,
}

/// Why a fetch ended without rounds.
#[derive(Clone, Copy, Debug, PartialEq, Eq, Structural)]
pub enum FetchError {
    /// The service could not be reached, or no session could be had.
    Network,
    /// The questions received did not have the expected shape.
    Decode,
}

/// The text that `html_escape::decode_html_entities` makes of `text`: the
/// same characters, with each HTML entity replaced by what it stands for.
pub uninterp spec fn decoded(text: Seq<char>) -> Seq<char>;

/// Decodes the HTML entities in `text`.
///
/// Calls `html_escape::decode_html_entities`, which depends on its argument
/// alone; its result is named [`decoded`] and nothing more is claimed of it.
#[verifier::external_body]
fn decode_html_entities(text: &str) -> (plain: String)
    ensures
        plain@ == decoded(text@),
{
    html_escape::decode_html_entities(text).to_string()
}

/// Draws an index below `bound` at random.
///
/// Calls `gen_range(0..bound)` on `rand::thread_rng()`, which samples the
/// half-open range and panics on an empty one. Only the range of the result
/// is claimed. The generator is seeded by the operating system when a thread
/// first uses it and again after every so many bytes drawn; it gives up, then
/// or later, if the system has no randomness to offer. No argument decides
/// that.
#[verifier::external_body]
fn random_index(bound: usize) -> (index: usize)
    requires
        bound > 0,
    ensures
        index < bound,
{
    rand::thread_rng().gen_range(0..bound)
}

/// The question that results from putting the correct answer in slot `t` and
/// the wrong answers, in their order, in the slots that remain.
pub open spec fn arranged(
    question: Seq<char>,
    correct: Seq<char>,
    wrong: Seq<Seq<char>>,
    t: int,
) -> QuestionView {
    QuestionView {
        text: question,
        answers: Seq::new(
            4,
            |i: int|
                if i == t {
                    AnswerView { text: correct, truth: true }
                } else if i < t {
                    AnswerView { text: wrong[i], truth: false }
                } else {
                    AnswerView { text: wrong[i - 1], truth: false }
                },
        ),
    }
}

/// The question that a service result turns into when its correct answer
/// lands in slot `t`: every text decoded, the answers arranged around `t`.
pub open spec fn formatted(api_q: ApiQuestion, t: int) -> QuestionView {
    arranged(
        decoded(api_q.question@),
        decoded(api_q.correct_answer@),
        Seq::new(3, |i: int| decoded(api_q.incorrect_answers[i]@)),
        t,
    )
}

/// Builds a question from texts that are ready for display: `correct` goes to
/// slot `t_ind`, the three wrong answers fill the other slots in the order
/// given.
pub fn arrange_answers(
    question: String,
    correct: String,
    wrong_0: String,
    wrong_1: String,
    wrong_2: String,
    t_ind: usize,
) -> (q: Question)
    requires
        t_ind < 4,
    ensures
        q@ == arranged(question@, correct@, seq![wrong_0@, wrong_1@, wrong_2@], t_ind as int),
        q@.truth_only_at(t_ind as int),
        q@.answers[t_ind as int].text == correct@,
{
    let right = Answer { text: correct, truth: true };
    let a = Answer { text: wrong_0, truth: false };
    let b = Answer { text: wrong_1, truth: false };
    let c = Answer { text: wrong_2, truth: false };
    let answers = if t_ind == 0 {
        [right, a, b, c]
    } else if t_ind == 1 {
        [a, right, b, c]
    } else if t_ind == 2 {
        [a, b, right, c]
    } else {
        [a, b, c, right]
    };
    let q = Question { text: question, answers };
    assert(q@.answers =~= arranged(
        question@,
        correct@,
        seq![wrong_0@, wrong_1@, wrong_2@],
        t_ind as int,
    ).answers);
    q
}

/// Wherever the correct answer is put, exactly one answer of the arranged
/// question is true, and it carries the correct answer's text.
pub proof fn arranged_has_one_truth(
    question: Seq<char>,
    correct: Seq<char>,
    wrong: Seq<Seq<char>>,
    t: int,
)
    requires
        0 <= t < 4,
    ensures
        arranged(question, correct, wrong, t).truth_only_at(t),
        arranged(question, correct, wrong, t).has_one_truth(),
        arranged(question, correct, wrong, t).answers[t].text == correct,
        forall|s: int|
            arranged(question, correct, wrong, t).truth_only_at(s) ==> s == t,
{
    let q = arranged(question, correct, wrong, t);
    assert(q.truth_only_at(t));
    assert forall|s: int| q.truth_only_at(s) implies s == t by {
        crate::trivia::true_slot_is_unique(q, s, t);
    }
}

/// Decodes a service result and arranges its answers with the correct one in
/// slot `t_ind`. Wrong answers beyond the third are not used.
pub fn format_question(api_q: &ApiQuestion, t_ind: usize) -> (q: Question)
    requires
        api_q.incorrect_answers.len() >= 3,
        t_ind < 4,
    ensures
        q@ == formatted(*api_q, t_ind as int),
        q@.truth_only_at(t_ind as int),
        q@.answers[t_ind as int].text == decoded(api_q.correct_answer@),
{
    let question = decode_html_entities(api_q.question.as_str());
    let correct = decode_html_entities(api_q.correct_answer.as_str());
    let wrong_0 = decode_html_entities(api_q.incorrect_answers[0].as_str());
    let wrong_1 = decode_html_entities(api_q.incorrect_answers[1].as_str());
    let wrong_2 = decode_html_entities(api_q.incorrect_answers[2].as_str());
    assert(seq![wrong_0@, wrong_1@, wrong_2@] =~= Seq::new(
        3,
        |i: int| decoded(api_q.incorrect_answers[i]@),
    ));
    arrange_answers(question, correct, wrong_0, wrong_1, wrong_2, t_ind)
}

/// Whether a service result has the three wrong answers a question needs.
pub open spec fn well_shaped(api_q: ApiQuestion) -> bool {
    api_q.incorrect_answers.len() >= 3
}

/// Whether `q` is what `api_q` turns into for some slot of the correct
/// answer.
pub open spec fn formats(api_q: ApiQuestion, q: QuestionView) -> bool {
    exists|t: int| 0 <= t < 4 && q == #[trigger] formatted(api_q, t)
}

/// Every question made of a service result has exactly one true answer, and
/// that answer's text is the decoded correct answer, whichever slot it is in.
pub proof fn formatted_question_has_one_truth(api_q: ApiQuestion, q: QuestionView)
    requires
        formats(api_q, q),
    ensures
        q.has_one_truth(),
        forall|s: int| q.truth_only_at(s) ==> q.answers[s].text == decoded(api_q.correct_answer@),
{
    let t = choose|t: int| 0 <= t < 4 && q == #[trigger] formatted(api_q, t);
    arranged_has_one_truth(
        decoded(api_q.question@),
        decoded(api_q.correct_answer@),
        Seq::new(3, |i: int| decoded(api_q.incorrect_answers[i]@)),
        t,
    );
}

/// Turns a service result into a question, with the correct answer in a slot
/// drawn at random.
///
/// Fails with [`FetchError::Decode`] exactly when the result has fewer than
/// three wrong answers. Whatever slot is drawn, one answer is true and it is
/// the decoded correct answer.
pub fn shuffle_question(api_q: &ApiQuestion) -> (res: Result<Question, FetchError>)
    ensures
        res is Ok <==> well_shaped(*api_q),
        res is Err ==> res == Err::<Question, FetchError>(FetchError::Decode),
        res matches Ok(q) ==> formats(*api_q, q@),
        res matches Ok(q) ==> q@.has_one_truth(),
        res matches Ok(q) ==> forall|s: int|
            q@.truth_only_at(s) ==> q@.answers[s].text == decoded(api_q.correct_answer@),
{
    if api_q.incorrect_answers.len() < 3 {
        return Err(FetchError::Decode);
    }
    let t_ind = random_index(4);
    let q = format_question(api_q, t_ind);
    proof {
        assert(q@ == formatted(*api_q, t_ind as int));
        formatted_question_has_one_truth(*api_q, q@);
    }
    Ok(q)
}

/// Whether `rounds` is a formatting of `results`: play at the start, one
/// question per result and in the same order.
pub open spec fn rounds_of(results: Seq<ApiQuestion>, rounds: Rounds) -> bool {
    &&& rounds.wf()
    &&& rounds.round_number == 0
    &&& rounds.questions.len() == results.len()
    &&& forall|k: int|
        0 <= k < results.len() ==> formats(results[k], (#[trigger] rounds.questions[k])@)
}

/// Formats everything the service sent into the rounds of a session.
///
/// Fails with [`FetchError::Decode`] exactly when some result has fewer than
/// three wrong answers.
pub fn format_questions(results: &Vec<ApiQuestion>) -> (res: Result<Rounds, FetchError>)
    ensures
        res is Ok <==> forall|k: int| 0 <= k < results.len() ==> well_shaped(#[trigger] results[k]),
        res is Err ==> res == Err::<Rounds, FetchError>(FetchError::Decode),
        res matches Ok(rounds) ==> rounds_of(results@, rounds),
        res matches Ok(rounds) ==> forall|k: int|
            0 <= k < rounds.questions.len() ==> (#[trigger] rounds.questions[k])@.has_one_truth(),
{
    let mut questions: Vec<Question> = Vec::new();
    let mut k: usize = 0;
    while k < results.len()
        invariant
            k <= results.len(),
            questions.len() == k,
            forall|j: int| 0 <= j < k ==> well_shaped(#[trigger] results[j]),
            forall|j: int| 0 <= j < k ==> formats(results[j], (#[trigger] questions[j])@),
            forall|j: int| 0 <= j < k ==> (#[trigger] questions[j])@.has_one_truth(),
        decreases results.len() - k,
    {
        match shuffle_question(&results[k]) {
            Ok(q) => {
                questions.push(q);
            },
            Err(e) => {
                assert(!well_shaped(results[k as int]));
                return Err(e);
            },
        }
        k = k + 1;
    }
    Ok(Rounds::new(questions))
}

/// The address at which questions are requested for a session.
pub open spec fn questions_url_of(token: Seq<char>) -> Seq<char> {
    QUESTIONS_URL@ + token
}

/// The address at which questions are requested for the session `token`.
pub fn questions_url(token: &str) -> (url: String)
    ensures
        url@ == questions_url_of(token@),
{
    let mut url = String::from_str(QUESTIONS_URL);
    url.append(token);
    url
}

/// Where a fetch stands between two requests.
#[derive(Clone, Debug, PartialEq, Eq)]
pub enum FetchState {
    /// Nothing has been asked yet.
    Idle,
    /// The session token has been asked for.
    AwaitingSession,
    /// The questions have been asked for, under this session token.
    AwaitingQuestions(String),
    /// The fetch has delivered its result or its error.
    Finished,
}

/// What happened since the last step of a fetch.
#[derive(Debug, PartialEq, Eq)]
pub enum FetchEvent {
    /// A fetch is wanted; the session token is given if one was obtained
    /// earlier.
    Start(Option<String>),
    /// The request for a session token was answered, or failed.
    SessionReply(Result<ApiIdResponse, Failure>),
    /// The request for questions was answered, or failed.
    QuestionsReply(Result<ApiQResponse, Failure>),
}

/// What the caller has to do after a step of a fetch.
#[derive(Debug, PartialEq, Eq)]
pub enum FetchAction {
    /// Request a session token at [`SESSION_URL`] and report the reply.
    RequestSession,
    /// Request the questions at this address and report the reply.
    RequestQuestions(String),
    /// Hand the result of the fetch to the game. Nothing is asked again.
    Deliver(Result<SiteData, FetchError>),
    /// The event does not belong to the state the fetch is in: do nothing.
    Ignore,
}

/// Whether `data` is a delivery of `results` under the session `token`.
pub open spec fn delivers(token: Seq<char>, results: Seq<ApiQuestion>, data: SiteData) -> bool {
    &&& data.session_id.id matches Some(id)
    &&& id@ == token
    &&& rounds_of(results, data.rounds)
}

/// Every question of a delivered session has exactly one true answer, and
/// that answer's text is the decoded correct answer of the result it was
/// made of.
pub proof fn delivered_questions_have_one_truth(
    token: Seq<char>,
    results: Seq<ApiQuestion>,
    data: SiteData,
    k: int,
)
    requires
        delivers(token, results, data),
        0 <= k < results.len(),
    ensures
        data.rounds.questions[k]@.has_one_truth(),
        forall|s: int|
            data.rounds.questions[k]@.truth_only_at(s) ==> data.rounds.questions[k]@.answers[s].text
                == decoded(results[k].correct_answer@),
{
    formatted_question_has_one_truth(results[k], data.rounds.questions[k]@);
}

/// Whether every result has the shape a question needs.
pub open spec fn all_well_shaped(results: Seq<ApiQuestion>) -> bool {
    forall|k: int| 0 <= k < results.len() ==> well_shaped(#[trigger] results[k])
}

/// Whether `action` is the request for questions under the session `token`.
pub open spec fn asks_questions(action: FetchAction, token: Seq<char>) -> bool {
    action matches FetchAction::RequestQuestions(url) && url@ == questions_url_of(token)
}

/// Whether the fetch now waits for questions under the session `token`.
pub open spec fn awaits_questions(state: FetchState, token: Seq<char>) -> bool {
    state matches FetchState::AwaitingQuestions(id) && id@ == token
}

/// Whether `action` delivers the error `e`.
pub open spec fn delivers_error(action: FetchAction, e: FetchError) -> bool {
    action matches FetchAction::Deliver(Err(err)) && err == e
}

/// One step of fetching the questions of a session.
///
/// A fetch starts idle. Started without a session token it asks for one, and
/// on the reply asks for the questions; started with a token it asks for the
/// questions at once. Any failure to get a session token is a network error.
/// Of the questions, a failed transport is a network error and a reply that
/// cannot be read, or a result without three wrong answers, is a decode
/// error. Every error is delivered once and ends the fetch: nothing is tried
/// again. An event that the state does not wait for changes nothing.
pub fn retrieve_questions(state: FetchState, event: FetchEvent) -> (step: (
    FetchState,
    FetchAction,
))
    ensures
        match (state, event) {
            (FetchState::Idle, FetchEvent::Start(None)) => step.0 == FetchState::AwaitingSession
                && step.1 == FetchAction::RequestSession,
            (FetchState::Idle, FetchEvent::Start(Some(id))) => awaits_questions(step.0, id@)
                && asks_questions(step.1, id@),
            (FetchState::AwaitingSession, FetchEvent::SessionReply(Ok(reply))) => awaits_questions(
                step.0,
                reply.token@,
            ) && asks_questions(step.1, reply.token@),
            (FetchState::AwaitingSession, FetchEvent::SessionReply(Err(_))) => step.0
                == FetchState::Finished && delivers_error(step.1, FetchError::Network),
            (
                FetchState::AwaitingQuestions(id),
                FetchEvent::QuestionsReply(Ok(reply)),
            ) => step.0 == FetchState::Finished && if all_well_shaped(reply.results@) {
                step.1 matches FetchAction::Deliver(Ok(data)) && delivers(
                    id@,
                    reply.results@,
                    data,
                )
            } else {
                delivers_error(step.1, FetchError::Decode)
            },
            (
                FetchState::AwaitingQuestions(_),
                FetchEvent::QuestionsReply(Err(Failure::Transport)),
            ) => step.0 == FetchState::Finished && delivers_error(step.1, FetchError::Network),
            (
                FetchState::AwaitingQuestions(_),
                FetchEvent::QuestionsReply(Err(Failure::Malformed)),
            ) => step.0 == FetchState::Finished && delivers_error(step.1, FetchError::Decode),
            _ => step.0 == state && step.1 == FetchAction::Ignore,
        },
{
    match (state, event) {
        (FetchState::Idle, FetchEvent::Start(None)) => (
            FetchState::AwaitingSession,
            FetchAction::RequestSession,
        ),
        (FetchState::Idle, FetchEvent::Start(Some(id))) => {
            let url = questions_url(id.as_str());
            (FetchState::AwaitingQuestions(id), FetchAction::RequestQuestions(url))
        },
        (FetchState::AwaitingSession, FetchEvent::SessionReply(Ok(reply))) => {
            let url = questions_url(reply.token.as_str());
            (FetchState::AwaitingQuestions(reply.token), FetchAction::RequestQuestions(url))
        },
        (FetchState::AwaitingSession, FetchEvent::SessionReply(Err(_))) => (
            FetchState::Finished,
            FetchAction::Deliver(Err(FetchError::Network)),
        ),
        (FetchState::AwaitingQuestions(id), FetchEvent::QuestionsReply(Ok(reply))) => {
            match format_questions(&reply.results) {
                Ok(rounds) => (
                    FetchState::Finished,
                    FetchAction::Deliver(
                        Ok(SiteData { session_id: SessionId { id: Some(id) }, rounds }),
                    ),
                ),
                Err(e) => (FetchState::Finished, FetchAction::Deliver(Err(e))),
            }
        },
        (FetchState::AwaitingQuestions(_), FetchEvent::QuestionsReply(Err(failure))) => {
            let e = match failure {
                Failure::Transport => FetchError::Network,
                Failure::Malformed => FetchError::Decode,
            };
            (FetchState::Finished, FetchAction::Deliver(Err(e)))
        },
        (state, _) => (state, FetchAction::Ignore),
    }
}

/// What the loading screen hands over once a fetch has ended.
#[derive(Clone, Debug, PartialEq, Eq)]
pub enum LoadOutcome {
    /// The rounds to install, and the screen to show next.
    Ready { rounds: Rounds, next: AppState },
    /// The error to show. No rounds are installed.
    Failed(FetchError),
}

/// Takes in the result of a fetch, if it has arrived.
///
/// While the fetch is pending (`polled` is `None`) nothing happens. A
/// successful fetch sets the session token if none was known, hands over its
/// rounds and moves on to the game. A failed fetch is reported once, changes
/// no session token and installs no rounds.
pub fn insert_trivia(
    polled: Option<Result<SiteData, FetchError>>,
    session_id: &mut SessionId,
) -> (outcome: Option<LoadOutcome>)
    ensures
        match polled {
            None => outcome is None && *final(session_id) == *old(session_id),
            Some(Err(e)) => outcome == Some(LoadOutcome::Failed(e)) && *final(session_id) == *old(
                session_id,
            ),
            Some(Ok(data)) => outcome == Some(
                LoadOutcome::Ready { rounds: data.rounds, next: AppState::Game },
            ) && final(session_id).id == if old(session_id).id is None {
                data.session_id.id
            } else {
                old(session_id).id
            },
        },
{
    match polled {
        None => None,
        Some(Err(e)) => Some(LoadOutcome::Failed(e)),
        Some(Ok(data)) => {
            if session_id.id.is_none() {
                session_id.id = data.session_id.id;
            }
            Some(LoadOutcome::Ready { rounds: data.rounds, next: AppState::Game })
        },
    }
}

} // verus!

//! The commands that a front end calls, each on plain values: what it asks
//! of the shared state, and what is to be started or written as a result.

use crate::json::{json_parse, parse, Json, JsonTree};
use crate::request::{AnswerView, Answers, Request, RequestView};
use crate::run::{invocation_of, Invocation, Phase, Run, RunView};
use crate::state::Coordinator;
use crate::text::{join, text_of, texts};
use vstd::prelude::*;

verus! {

/// How the application was started.
#[derive(Debug, Clone, Copy, PartialEq, Eq, Structural)]
pub struct Modes {
    /// Started for development.
    pub dev: bool,
    /// Started in supiki mode.
    pub supiki: bool,
}

/// Whether the application runs in dev mode.
pub fn is_dev_mode(modes: &Modes) -> (dev: bool)
    ensures
        dev == modes.dev,
{
    modes.dev
}

/// Whether the application runs in supiki mode.
pub fn is_supiki_mode(modes: &Modes) -> (supiki: bool)
    ensures
        supiki == modes.supiki,
{
    modes.supiki
}

/// The session that the next message continues, if any.
pub fn get_session_id(shared: &Coordinator) -> (session: Option<String>)
    ensures
        text_of(session) == shared@.session,
{
    shared.current_session()
}

/// Forgets the session: the next message starts a new one. This never
/// fails.
pub fn clear_agent_session(shared: &mut Coordinator) -> (done: Result<(), String>)
    ensures
        done is Ok,
        final(shared)@ == old(shared)@.after_reset(),
{
    shared.reset_session();
    Ok(())
}

/// Cancels the query in flight: its handle leaves the slot and is handed
/// back for the caller to close, which tells the agent to stop.
pub fn stop_sidecar(shared: &mut Coordinator) -> (released: Option<u64>)
    ensures
        final(shared)@ == old(shared)@.after_cancel(),
        released == old(shared)@.holder,
{
    shared.cancel()
}

/// Takes up a message to the agent, with the images that go with it: gives
/// the request, now launching, and how the agent is to be started for it.
/// The message continues the session that `shared` holds.
pub fn send_agent_message(shared: &Coordinator, message: String, images: Vec<String>) -> (started:
    (Run, Invocation))
    ensures
        started.0@ == RunView::idle().at(Phase::Launching),
        started.1@ == invocation_of(
            RequestView::Query { prompt: message@, session_id: None, images: texts(images@) },
            shared@.session,
        ),
{
    let mut run = Run::new();
    let request = Request::Query { prompt: message, session_id: None, images };
    let invocation = run.begin(shared, request);
    (run, invocation)
}

/// Why an answer could not be handed to the agent.
#[derive(Debug, PartialEq)]
pub enum AnswerError {
    /// The questions are not JSON; `detail` says what is wrong with them.
    InvalidQuestions { detail: String },
    /// No query is in flight that the answer could go to.
    NoActiveQuery,
}

impl AnswerError {
    /// What the user is told.
    pub fn message(&self) -> (message: String)
        ensures
            match self {
                AnswerError::InvalidQuestions { detail } => message@ == "Invalid questions JSON: "@
                    + detail@,
                AnswerError::NoActiveQuery => message@ == "No active query"@,
            },
    {
        match self {
            AnswerError::InvalidQuestions { detail } => join(
                "Invalid questions JSON: ",
                detail.as_str(),
            ),
            AnswerError::NoActiveQuery => "No active query".to_owned(),
        }
    }
}

/// A command and the handle of the query whose input it is to be written to.
#[derive(Debug, PartialEq)]
pub struct Delivery {
    /// The handle under which the caller keeps the agent's input end.
    pub handle: u64,
    /// The command to write, as one line.
    pub command: Json,
}

/// The command that answers the question `question_id`, `questions` being
/// the questions as the agent asked them.
pub open spec fn answer_command(
    question_id: Seq<char>,
    questions: JsonTree,
    answers: Seq<AnswerView>,
) -> JsonTree {
    (RequestView::AnswerQuestion { question_id, questions, answers }).command()
}

/// Answers a question that the agent asked. `questions_json` is the text of
/// the questions as the agent sent them; it is read and handed back inside
/// the command. The command goes to the query in flight.
pub fn answer_agent_question(
    shared: &Coordinator,
    question_id: String,
    questions_json: &str,
    answers: Answers,
) -> (delivery: Result<Delivery, AnswerError>)
    ensures
        match delivery {
            Ok(d) => {
                &&& json_parse(questions_json@) matches Some(questions)
                &&& d.command@ == answer_command(question_id@, questions, answers@)
                &&& shared@.holder == Some(d.handle)
            },
            Err(AnswerError::InvalidQuestions { .. }) => json_parse(questions_json@) is None,
            Err(AnswerError::NoActiveQuery) => json_parse(questions_json@) is Some
                && shared@.holder is None,
        },
{
    let questions = match parse(questions_json) {
        Ok(questions) => questions,
        Err(malformed) => {
            return Err(AnswerError::InvalidQuestions { detail: malformed.detail });
        },
    };
    let request = Request::AnswerQuestion { question_id, questions, answers };
    match shared.current_handle() {
        Some(handle) => Ok(Delivery { handle, command: request.command() }),
        None => Err(AnswerError::NoActiveQuery),
    }
}

} // verus!

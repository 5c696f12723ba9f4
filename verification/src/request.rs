//! What is asked of the agent, and the command that carries it.

use crate::json::{Json, JsonTree, Member, MemberTree};
use crate::text::{same_text, text_of, texts};
use vstd::prelude::*;

verus! {

/// One answer: the question it belongs to, and what was answered.
#[derive(Debug, PartialEq)]
pub struct Answer {
    pub question: String,
    pub answer: String,
}

/// The mathematical value of an [`Answer`].
pub struct AnswerView {
    pub question: Seq<char>,
    pub answer: Seq<char>,
}

impl View for Answer {
    type V = AnswerView;

    open spec fn view(&self) -> AnswerView {
        AnswerView { question: self.question@, answer: self.answer@ }
    }
}

impl Clone for Answer {
    fn clone(&self) -> (copy: Self)
        ensures
            copy@ == self@,
    {
        Answer { question: self.question.clone(), answer: self.answer.clone() }
    }
}

/// No question stands twice in `answers`.
pub open spec fn distinct_questions(answers: Seq<AnswerView>) -> bool {
    forall|i: int, j: int|
        0 <= i < j < answers.len() ==> (#[trigger] answers[i]).question != (
        #[trigger] answers[j]).question
}

/// Some answer in `answers` belongs to `question`.
pub open spec fn answered(answers: Seq<AnswerView>, question: Seq<char>) -> bool {
    exists|i: int| 0 <= i < answers.len() && (#[trigger] answers[i]).question == question
}

/// Answers by question: a mapping that keeps the order in which the
/// questions were first answered. No question stands in it twice.
#[derive(Debug, PartialEq)]
pub struct Answers {
    entries: Vec<Answer>,
}

impl View for Answers {
    type V = Seq<AnswerView>;

    closed spec fn view(&self) -> Seq<AnswerView> {
        self.entries@.map_values(|a: Answer| a@)
    }
}

impl Answers {
    #[verifier::type_invariant]
    spec fn well_formed(self) -> bool {
        distinct_questions(self@)
    }

    /// No answers.
    pub fn new() -> (answers: Answers)
        ensures
            answers@ == Seq::<AnswerView>::empty(),
    {
        let answers = Answers { entries: Vec::new() };
        assert(answers@ =~= Seq::<AnswerView>::empty());
        answers
    }

    /// How many questions are answered. Each of them is answered once.
    pub fn len(&self) -> (n: usize)
        ensures
            n == self@.len(),
            distinct_questions(self@),
    {
        proof {
            use_type_invariant(self);
        }
        self.entries.len()
    }

    /// The `i`-th answer, in the order in which the questions were first
    /// answered.
    pub fn entry(&self, i: usize) -> (entry: &Answer)
        requires
            i < self@.len(),
        ensures
            entry@ == self@[i as int],
    {
        &self.entries[i]
    }

    /// Where `question` stands, or `len()` where it does not.
    fn position(&self, question: &str) -> (at: usize)
        ensures
            at <= self@.len(),
            forall|k: int| 0 <= k < at ==> (#[trigger] self@[k]).question != question@,
            at < self@.len() ==> self@[at as int].question == question@,
    {
        let mut i: usize = 0;
        while i < self.entries.len()
            invariant
                i <= self.entries.len(),
                self@.len() == self.entries.len(),
                forall|k: int| 0 <= k < i ==> (#[trigger] self@[k]).question != question@,
            decreases self.entries.len() - i,
        {
            if same_text(self.entries[i].question.as_str(), question) {
                return i;
            }
            i += 1;
        }
        i
    }

    /// The answer given to `question`, if there is one.
    pub fn get(&self, question: &str) -> (found: Option<&str>)
        ensures
            match found {
                Some(answer) => exists|i: int|
                    0 <= i < self@.len() && #[trigger] self@[i] == (AnswerView {
                        question: question@,
                        answer: answer@,
                    }),
                None => !answered(self@, question@),
            },
    {
        let at = self.position(question);
        if at < self.entries.len() {
            assert(self@[at as int] == (AnswerView {
                question: question@,
                answer: self.entries@[at as int].answer@,
            }));
            Some(self.entries[at].answer.as_str())
        } else {
            None
        }
    }

    /// Answers `question` with `answer`. Where the question was answered
    /// before, the new answer takes the place of the old one, which is
    /// returned; else the answer is added at the end.
    pub fn insert(&mut self, question: String, answer: String) -> (previous: Option<String>)
        ensures
            match previous {
                Some(old_answer) => exists|i: int|
                    0 <= i < old(self)@.len() && #[trigger] old(self)@[i] == (AnswerView {
                        question: question@,
                        answer: old_answer@,
                    }) && final(self)@ == old(self)@.update(
                        i,
                        AnswerView { question: question@, answer: answer@ },
                    ),
                None => !answered(old(self)@, question@) && final(self)@ == old(self)@.push(
                    AnswerView { question: question@, answer: answer@ },
                ),
            },
    {
        proof {
            use_type_invariant(&*self);
        }
        let at = self.position(question.as_str());
        let ghost before = self@;
        let ghost added = AnswerView { question: question@, answer: answer@ };
        if at < self.entries.len() {
            let old_answer = self.entries[at].answer.clone();
            let mut entries: Vec<Answer> = Vec::new();
            let mut i: usize = 0;
            while i < self.entries.len()
                invariant
                    i <= self.entries.len(),
                    at < self.entries.len(),
                    before == self@,
                    before.len() == self.entries.len(),
                    added == (AnswerView { question: question@, answer: answer@ }),
                    entries@.len() == i,
                    forall|k: int|
                        0 <= k < i ==> (#[trigger] entries@[k])@ == before.update(
                            at as int,
                            added,
                        )[k],
                decreases self.entries.len() - i,
            {
                if i == at {
                    entries.push(Answer { question: question.clone(), answer: answer.clone() });
                } else {
                    entries.push(self.entries[i].clone());
                }
                i += 1;
            }
            let replaced = Answers { entries };
            assert(replaced@ =~= before.update(at as int, added));
            *self = replaced;
            assert(before[at as int] == (AnswerView {
                question: question@,
                answer: old_answer@,
            }));
            Some(old_answer)
        } else {
            let mut entries: Vec<Answer> = Vec::new();
            let mut i: usize = 0;
            while i < self.entries.len()
                invariant
                    i <= self.entries.len(),
                    before == self@,
                    before.len() == self.entries.len(),
                    entries@.len() == i,
                    forall|k: int| 0 <= k < i ==> (#[trigger] entries@[k])@ == before[k],
                decreases self.entries.len() - i,
            {
                entries.push(self.entries[i].clone());
                i += 1;
            }
            entries.push(Answer { question, answer });
            let extended = Answers { entries };
            assert(extended@ =~= before.push(added));
            *self = extended;
            None
        }
    }
}

impl Clone for Answers {
    fn clone(&self) -> (copy: Self)
        ensures
            copy@ == self@,
    {
        proof {
            use_type_invariant(self);
        }
        let mut entries: Vec<Answer> = Vec::new();
        let mut i: usize = 0;
        while i < self.entries.len()
            invariant
                i <= self.entries.len(),
                self@.len() == self.entries.len(),
                entries@.len() == i,
                forall|k: int| 0 <= k < i ==> (#[trigger] entries@[k])@ == self@[k],
            decreases self.entries.len() - i,
        {
            entries.push(self.entries[i].clone());
            i += 1;
        }
        let copy = Answers { entries };
        assert(copy@ =~= self@);
        copy
    }
}

/// A request to the agent.
#[derive(Debug, PartialEq)]
pub enum Request {
    /// A prompt, with the session it continues and the images that go with it.
    Query { prompt: String, session_id: Option<String>, images: Vec<String> },
    /// The answers to a question that the agent asked. `questions` is the
    /// agent's own structure and is handed back as it came.
    AnswerQuestion { question_id: String, questions: Json, answers: Answers },
}

/// The mathematical value of a [`Request`].
pub enum RequestView {
    Query { prompt: Seq<char>, session_id: Option<Seq<char>>, images: Seq<Seq<char>> },
    AnswerQuestion { question_id: Seq<char>, questions: JsonTree, answers: Seq<AnswerView> },
}

/// One JSON string for each text.
pub open spec fn text_items(list: Seq<Seq<char>>) -> Seq<JsonTree> {
    list.map_values(|text: Seq<char>| JsonTree::Text(text))
}

/// One member for each answer: the question is the key, the answer a JSON
/// string.
pub open spec fn answer_members(answers: Seq<AnswerView>) -> Seq<MemberTree> {
    answers.map_values(
        |a: AnswerView| MemberTree { key: a.question, value: JsonTree::Text(a.answer) },
    )
}

impl View for Request {
    type V = RequestView;

    open spec fn view(&self) -> RequestView {
        match self {
            Request::Query { prompt, session_id, images } => RequestView::Query {
                prompt: prompt@,
                session_id: text_of(*session_id),
                images: texts(images@),
            },
            Request::AnswerQuestion { question_id, questions, answers } => {
                RequestView::AnswerQuestion {
                    question_id: question_id@,
                    questions: questions@,
                    answers: answers@,
                }
            },
        }
    }
}

impl RequestView {
    /// The request with `session` as the session that a query continues. An
    /// answer belongs to the run that asked and stays as it is.
    pub open spec fn with_session(self, session: Option<Seq<char>>) -> RequestView {
        match self {
            RequestView::Query { prompt, session_id, images } => RequestView::Query {
                prompt,
                session_id: session,
                images,
            },
            RequestView::AnswerQuestion { .. } => self,
        }
    }

    /// The command that carries the request to the agent: a JSON object
    /// whose members stand in the order given here.
    pub open spec fn command(self) -> JsonTree {
        match self {
            RequestView::Query { prompt, session_id, images } => JsonTree::Object(
                seq![
                    MemberTree { key: "type"@, value: JsonTree::Text("query"@) },
                    MemberTree { key: "prompt"@, value: JsonTree::Text(prompt) },
                    MemberTree {
                        key: "sessionId"@,
                        value: match session_id {
                            Some(id) => JsonTree::Text(id),
                            None => JsonTree::Null,
                        },
                    },
                    MemberTree {
                        key: "images"@,
                        value: JsonTree::Array(text_items(images)),
                    },
                ],
            ),
            RequestView::AnswerQuestion { question_id, questions, answers } => JsonTree::Object(
                seq![
                    MemberTree { key: "type"@, value: JsonTree::Text("answer-question"@) },
                    MemberTree { key: "questionId"@, value: JsonTree::Text(question_id) },
                    MemberTree { key: "questions"@, value: questions },
                    MemberTree {
                        key: "answers"@,
                        value: JsonTree::Object(answer_members(answers)),
                    },
                ],
            ),
        }
    }

    /// The arguments that the agent is started with: for a query the prompt
    /// in print mode, then the flags that ask for streamed JSON, then the
    /// session to resume where there is one.
    pub open spec fn arguments(self) -> Seq<Seq<char>> {
        match self {
            RequestView::Query { prompt, session_id, images } => {
                let fixed = seq!["-p"@, prompt, "--output-format"@, "stream-json"@, "--verbose"@];
                match session_id {
                    Some(id) => fixed + seq!["--resume"@, id],
                    None => fixed,
                }
            },
            RequestView::AnswerQuestion { .. } => seq![
                "--output-format"@,
                "stream-json"@,
                "--verbose"@,
            ],
        }
    }
}

/// A JSON string that holds `text`.
fn json_text(text: &str) -> (value: Json)
    ensures
        value@ == JsonTree::Text(text@),
{
    Json::Str(text.to_owned())
}

/// A JSON array of strings.
fn json_texts(list: &Vec<String>) -> (value: Json)
    ensures
        value@ == JsonTree::Array(text_items(texts(list@))),
{
    let mut items: Vec<Json> = Vec::new();
    let mut i: usize = 0;
    while i < list.len()
        invariant
            i <= list.len(),
            items@.len() == i,
            forall|k: int| 0 <= k < i ==> (#[trigger] items@[k])@ == JsonTree::Text(list@[k]@),
        decreases list.len() - i,
    {
        items.push(json_text(list[i].as_str()));
        i += 1;
    }
    let value = Json::Array(items);
    assert(value@->Array_0 =~= text_items(texts(list@)));
    value
}

/// A JSON object with one string member for each answer, in their order.
fn json_answers(answers: &Answers) -> (value: Json)
    ensures
        value@ == JsonTree::Object(answer_members(answers@)),
{
    let mut members: Vec<Member> = Vec::new();
    let mut i: usize = 0;
    while i < answers.len()
        invariant
            i <= answers@.len(),
            members@.len() == i,
            forall|k: int|
                0 <= k < i ==> (#[trigger] members@[k])@ == (MemberTree {
                    key: answers@[k].question,
                    value: JsonTree::Text(answers@[k].answer),
                }),
        decreases answers@.len() - i,
    {
        let entry = answers.entry(i);
        members.push(Member { key: entry.question.clone(), value: json_text(entry.answer.as_str()) });
        i += 1;
    }
    let value = Json::Object(members);
    assert(value@->Object_0 =~= answer_members(answers@));
    value
}

/// A member of a JSON object.
fn member(key: &str, value: Json) -> (m: Member)
    ensures
        m@ == (MemberTree { key: key@, value: value@ }),
{
    Member { key: key.to_owned(), value }
}

/// A JSON object with the four members given, in their order.
fn object_of_four(first: Member, second: Member, third: Member, fourth: Member) -> (value: Json)
    ensures
        value@ == JsonTree::Object(seq![first@, second@, third@, fourth@]),
{
    let mut members: Vec<Member> = Vec::new();
    members.push(first);
    members.push(second);
    members.push(third);
    members.push(fourth);
    let value = Json::Object(members);
    assert(value@->Object_0 =~= seq![first@, second@, third@, fourth@]);
    value
}

impl Request {
    /// The request with `session` as the session that a query continues. An
    /// answer belongs to the run that asked and stays as it is.
    pub fn with_session(self, session: Option<String>) -> (attached: Request)
        ensures
            attached@ == self@.with_session(text_of(session)),
    {
        match self {
            Request::Query { prompt, session_id, images } => Request::Query {
                prompt,
                session_id: session,
                images,
            },
            Request::AnswerQuestion { question_id, questions, answers } => {
                Request::AnswerQuestion { question_id, questions, answers }
            },
        }
    }

    /// The command that carries the request to the agent.
    pub fn command(&self) -> (command: Json)
        ensures
            command@ == self@.command(),
    {
        match self {
            Request::Query { prompt, session_id, images } => {
                let session = match session_id {
                    Some(id) => json_text(id.as_str()),
                    None => Json::Null,
                };
                let m1 = member("type", json_text("query"));
                let m2 = member("prompt", json_text(prompt.as_str()));
                let m3 = member("sessionId", session);
                let m4 = member("images", json_texts(images));
                assert(self@.command()->Object_0 =~= seq![m1@, m2@, m3@, m4@]);
                object_of_four(m1, m2, m3, m4)
            },
            Request::AnswerQuestion { question_id, questions, answers } => object_of_four(
                member("type", json_text("answer-question")),
                member("questionId", json_text(question_id.as_str())),
                member("questions", questions.clone()),
                member("answers", json_answers(answers)),
            ),
        }
    }

    /// The arguments that the agent is started with.
    pub fn arguments(&self) -> (arguments: Vec<String>)
        ensures
            texts(arguments@) == self@.arguments(),
    {
        let mut arguments: Vec<String> = Vec::new();
        match self {
            Request::Query { prompt, session_id, images } => {
                arguments.push("-p".to_owned());
                arguments.push(prompt.clone());
                arguments.push("--output-format".to_owned());
                arguments.push("stream-json".to_owned());
                arguments.push("--verbose".to_owned());
                match session_id {
                    Some(id) => {
                        arguments.push("--resume".to_owned());
                        arguments.push(id.clone());
                    },
                    None => {},
                }
            },
            Request::AnswerQuestion { .. } => {
                arguments.push("--output-format".to_owned());
                arguments.push("stream-json".to_owned());
                arguments.push("--verbose".to_owned());
            },
        }
        assert(texts(arguments@) =~= self@.arguments());
        arguments
    }
}

impl Clone for Request {
    fn clone(&self) -> (copy: Self)
        ensures
            copy@ == self@,
    {
        match self {
            Request::Query { prompt, session_id, images } => {
                let mut copies: Vec<String> = Vec::new();
                let mut i: usize = 0;
                while i < images.len()
                    invariant
                        i <= images.len(),
                        copies@.len() == i,
                        forall|k: int| 0 <= k < i ==> (#[trigger] copies@[k])@ == images@[k]@,
                    decreases images.len() - i,
                {
                    copies.push(images[i].clone());
                    i += 1;
                }
                assert(texts(copies@) =~= texts(images@));
                Request::Query {
                    prompt: prompt.clone(),
                    session_id: match session_id {
                        Some(id) => Some(id.clone()),
                        None => None,
                    },
                    images: copies,
                }
            },
            Request::AnswerQuestion { question_id, questions, answers } => {
                Request::AnswerQuestion {
                    question_id: question_id.clone(),
                    questions: questions.clone(),
                    answers: answers.clone(),
                }
            },
        }
    }
}

} // verus!

//! One request from submission to its end: the phases it goes through, what
//! each thing that happens to it changes, and what the caller is to do next.
//!
//! The caller starts the agent, reads its output and waits for it; after
//! each of these it tells the [`Run`] what happened and gets back what to
//! forward or return.

use crate::event::{decode_line, decode_spec, EventView, ProtocolEvent};
use crate::json::{Json, JsonTree};
use crate::request::{Request, RequestView};
use crate::state::{Coordinator, CoordinatorView, Installed};
use crate::text::{copy_text, join, join3, text_of, texts};
use vstd::prelude::*;

verus! {

/// Where a request stands.
#[derive(Debug, Clone, Copy, PartialEq, Eq, Structural)]
pub enum Phase {
    /// Nothing was asked yet.
    Idle,
    /// The agent is being started.
    Launching,
    /// The agent runs and its output is read.
    Streaming,
    /// The output has ended; the agent's exit is awaited.
    Completing,
    /// The agent exited with success.
    Succeeded,
    /// The agent could not be started, or exited with failure.
    Failed,
    /// The request's handle left the slot before the output ended.
    Cancelled,
}

/// Why a request failed.
#[derive(Debug, PartialEq)]
pub enum Failure {
    /// The agent could not be started.
    Launch { reason: String },
    /// The agent exited with failure.
    Process { code: Option<i32>, description: String, diagnostics: String },
}

/// The mathematical value of a [`Failure`].
pub enum FailureView {
    Launch { reason: Seq<char> },
    Process { code: Option<i32>, description: Seq<char>, diagnostics: Seq<char> },
}

impl View for Failure {
    type V = FailureView;

    open spec fn view(&self) -> FailureView {
        match self {
            Failure::Launch { reason } => FailureView::Launch { reason: reason@ },
            Failure::Process { code, description, diagnostics } => FailureView::Process {
                code: *code,
                description: description@,
                diagnostics: diagnostics@,
            },
        }
    }
}

impl FailureView {
    /// What the user is told.
    pub open spec fn message(self) -> Seq<char> {
        match self {
            FailureView::Launch { reason } => "Failed to spawn the agent: "@ + reason
                + ". Make sure the agent is installed and in PATH."@,
            FailureView::Process { description, .. } => "The agent exited with status: "@
                + description,
        }
    }
}

impl Failure {
    /// What the user is told: for a failed launch the reason and how to
    /// mend it, for a failed run the exit status.
    pub fn message(&self) -> (message: String)
        ensures
            message@ == self@.message(),
    {
        match self {
            Failure::Launch { reason } => join3(
                "Failed to spawn the agent: ",
                reason.as_str(),
                ". Make sure the agent is installed and in PATH.",
            ),
            Failure::Process { description, .. } => join(
                "The agent exited with status: ",
                description.as_str(),
            ),
        }
    }
}

/// How the agent's process ended.
#[derive(Debug, PartialEq)]
pub struct ProcessExit {
    /// The exit code; none where a signal ended the process.
    pub code: Option<i32>,
    /// The exit status in words.
    pub description: String,
}

impl ProcessExit {
    /// A process has succeeded when its exit code is zero.
    pub open spec fn success(self) -> bool {
        self.code == Some(0i32)
    }

    /// Whether the process succeeded.
    pub fn succeeded(&self) -> (success: bool)
        ensures
            success == self.success(),
    {
        match self.code {
            Some(code) => code == 0,
            None => false,
        }
    }
}

/// What the subscriber is told.
#[derive(Debug, PartialEq)]
pub enum Notification {
    /// The answer as it stands now.
    Stream { text: String },
    /// The closing answer and its kind.
    Result { subtype: String, result: String },
    /// A line of the agent's output, as it came.
    Raw { line: String },
    /// The output could not be read.
    Error { message: String },
}

/// The mathematical value of a [`Notification`].
pub enum NotificationView {
    Stream { text: Seq<char> },
    Result { subtype: Seq<char>, result: Seq<char> },
    Raw { line: Seq<char> },
    Error { message: Seq<char> },
}

impl View for Notification {
    type V = NotificationView;

    open spec fn view(&self) -> NotificationView {
        match self {
            Notification::Stream { text } => NotificationView::Stream { text: text@ },
            Notification::Result { subtype, result } => NotificationView::Result {
                subtype: subtype@,
                result: result@,
            },
            Notification::Raw { line } => NotificationView::Raw { line: line@ },
            Notification::Error { message } => NotificationView::Error { message: message@ },
        }
    }
}

/// The views of a list of notifications.
pub open spec fn notes(list: Seq<Notification>) -> Seq<NotificationView> {
    list.map_values(|n: Notification| n@)
}

/// What the subscriber is told of the event that `line` decoded to: the
/// answer so far for an assistant text, the closing answer for a result
/// that names its kind, and in every case the line as it came, last.
pub open spec fn notifications_of(event: EventView, line: Seq<char>) -> Seq<NotificationView> {
    let raw = NotificationView::Raw { line };
    match event {
        EventView::AssistantText { text } => seq![NotificationView::Stream { text }, raw],
        EventView::Result { subtype: Some(subtype), result } => seq![
            NotificationView::Result { subtype, result },
            raw,
        ],
        _ => seq![raw],
    }
}

/// What the subscriber is told when reading the output failed.
pub open spec fn read_error_of(detail: Seq<char>) -> NotificationView {
    NotificationView::Error { message: "Read error: "@ + detail }
}

/// The answer after `event`, `text` being the answer before it: an
/// assistant text and a result each replace it, anything else leaves it.
pub open spec fn apply_text(text: Seq<char>, event: EventView) -> Seq<char> {
    match event {
        EventView::AssistantText { text: newer } => newer,
        EventView::Result { result, .. } => result,
        _ => text,
    }
}

/// The session known after `event`, `session` being the one known before.
pub open spec fn apply_session(session: Option<Seq<char>>, event: EventView) -> Option<
    Seq<char>,
> {
    match event {
        EventView::Init { session_id } => Some(session_id),
        _ => session,
    }
}

/// Whether an event bears an answer.
pub open spec fn bears_text(event: EventView) -> bool {
    event is AssistantText || event is Result
}

/// The answer that a run of events leaves: that of the last event that
/// bears one, and the empty text where none does.
pub open spec fn final_text(events: Seq<EventView>) -> Seq<char>
    decreases events.len(),
{
    if events.len() == 0 {
        Seq::empty()
    } else {
        apply_text(final_text(events.drop_last()), events.last())
    }
}

/// The session that a run of events announces: that of its last `Init`.
pub open spec fn observed_session(events: Seq<EventView>) -> Option<Seq<char>>
    decreases events.len(),
{
    if events.len() == 0 {
        None
    } else {
        apply_session(observed_session(events.drop_last()), events.last())
    }
}

/// The events that a run of lines decodes to, in the order of the lines;
/// blank lines give none.
pub open spec fn events_of(lines: Seq<Seq<char>>) -> Seq<EventView>
    decreases lines.len(),
{
    if lines.len() == 0 {
        Seq::empty()
    } else {
        match decode_spec(lines.last()) {
            Some(event) => events_of(lines.drop_last()).push(event),
            None => events_of(lines.drop_last()),
        }
    }
}

/// How the agent is to be started.
#[derive(Debug, PartialEq)]
pub struct Invocation {
    /// The arguments to start the agent's program with.
    pub arguments: Vec<String>,
    /// The command to write to its input.
    pub command: Json,
}

/// The mathematical value of an [`Invocation`].
pub struct InvocationView {
    pub arguments: Seq<Seq<char>>,
    pub command: JsonTree,
}

impl View for Invocation {
    type V = InvocationView;

    open spec fn view(&self) -> InvocationView {
        InvocationView { arguments: texts(self.arguments@), command: self.command@ }
    }
}

/// How the agent is started for `request` while `session` is the session
/// known: a query continues that session, whatever it named itself.
pub open spec fn invocation_of(request: RequestView, session: Option<Seq<char>>) -> InvocationView {
    let attached = request.with_session(session);
    InvocationView { arguments: attached.arguments(), command: attached.command() }
}

/// The mathematical value of a [`Run`].
pub struct RunView {
    /// Where the request stands.
    pub phase: Phase,
    /// The handle issued to the request, once the agent runs.
    pub handle: Option<u64>,
    /// The session that the agent announced.
    pub session: Option<Seq<char>>,
    /// The answer so far.
    pub text: Seq<char>,
    /// Whether the handle had left the slot when the output ended.
    pub released_early: bool,
}

impl RunView {
    /// A request of which nothing is known yet.
    pub open spec fn idle() -> RunView {
        RunView {
            phase: Phase::Idle,
            handle: None,
            session: None,
            text: Seq::empty(),
            released_early: false,
        }
    }

    /// The same request in another phase.
    pub open spec fn at(self, phase: Phase) -> RunView {
        RunView { phase, ..self }
    }

    /// The request after one event of the protocol.
    pub open spec fn observe(self, event: EventView) -> RunView {
        RunView {
            session: apply_session(self.session, event),
            text: apply_text(self.text, event),
            ..self
        }
    }

    /// The request after one line of output.
    pub open spec fn read(self, line: Seq<char>) -> RunView {
        match decode_spec(line) {
            Some(event) => self.observe(event),
            None => self,
        }
    }

    /// The request after a run of lines of output, read in their order.
    pub open spec fn read_all(self, lines: Seq<Seq<char>>) -> RunView
        decreases lines.len(),
    {
        if lines.len() == 0 {
            self
        } else {
            self.read_all(lines.drop_last()).read(lines.last())
        }
    }

    /// The request once the output has ended, `holder` being the handle in
    /// the slot at that time.
    pub open spec fn ended(self, holder: Option<u64>) -> RunView {
        RunView { phase: Phase::Completing, released_early: holder != self.handle, ..self }
    }

    /// The request once the agent has exited.
    pub open spec fn finished(self, success: bool) -> RunView {
        let phase = if self.released_early {
            Phase::Cancelled
        } else if success {
            Phase::Succeeded
        } else {
            Phase::Failed
        };
        RunView { phase, ..self }
    }
}

/// What the lines of output tell the subscriber about one line.
pub open spec fn told(line: Seq<char>) -> Seq<NotificationView> {
    match decode_spec(line) {
        Some(event) => notifications_of(event, line),
        None => Seq::empty(),
    }
}

/// What a run of lines tells the subscriber: what each line tells, in the
/// order of the lines.
pub open spec fn told_all(lines: Seq<Seq<char>>) -> Seq<NotificationView>
    decreases lines.len(),
{
    if lines.len() == 0 {
        Seq::empty()
    } else {
        told_all(lines.drop_last()) + told(lines.last())
    }
}

/// The shared state once a request has ended: its handle has left the slot
/// where it still was there, and where the agent succeeded the session it
/// announced is kept.
pub open spec fn completed(shared: CoordinatorView, run: RunView, success: bool) -> CoordinatorView {
    let released = shared.after_release_of(run.handle);
    if success {
        released.after_success(run.session)
    } else {
        released
    }
}

/// What the caller of a request is given back: the answer on success, else
/// the exit status and what the agent wrote to its diagnostic output.
pub open spec fn outcome_of(run: RunView, exit: ProcessExit, diagnostics: Seq<char>) -> Result<
    Seq<char>,
    FailureView,
> {
    if exit.success() {
        Ok(run.text)
    } else {
        Err(
            FailureView::Process {
                code: exit.code,
                description: exit.description@,
                diagnostics,
            },
        )
    }
}

/// The view of what a request gave back.
pub open spec fn outcome_view(outcome: Result<String, Failure>) -> Result<Seq<char>, FailureView> {
    match outcome {
        Ok(text) => Ok(text@),
        Err(failure) => Err(failure@),
    }
}

/// What is told when no handle is left to issue.
pub open spec fn exhausted() -> FailureView {
    FailureView::Launch { reason: "no handle is left for another request"@ }
}

/// How a request ended.
#[derive(Debug, PartialEq)]
pub struct Completion {
    /// What the caller is given back.
    pub outcome: Result<String, Failure>,
    /// The request's own handle, where the slot still held it: to be closed.
    pub released: Option<u64>,
}

/// One request and where it stands.
#[derive(Debug)]
pub struct Run {
    phase: Phase,
    handle: Option<u64>,
    session: Option<String>,
    text: String,
    released_early: bool,
}

impl View for Run {
    type V = RunView;

    closed spec fn view(&self) -> RunView {
        RunView {
            phase: self.phase,
            handle: self.handle,
            session: text_of(self.session),
            text: self.text@,
            released_early: self.released_early,
        }
    }
}

impl Run {
    /// A request of which nothing is known yet.
    pub fn new() -> (run: Run)
        ensures
            run@ == RunView::idle(),
    {
        Run {
            phase: Phase::Idle,
            handle: None,
            session: None,
            text: String::new(),
            released_early: false,
        }
    }

    /// Where the request stands.
    pub fn phase(&self) -> (phase: Phase)
        ensures
            phase == self@.phase,
    {
        self.phase
    }

    /// The handle issued to the request, once the agent runs.
    pub fn handle(&self) -> (handle: Option<u64>)
        ensures
            handle == self@.handle,
    {
        self.handle
    }

    /// The answer so far.
    pub fn text(&self) -> (text: &str)
        ensures
            text@ == self@.text,
    {
        self.text.as_str()
    }

    /// The session that the agent announced, if it did.
    pub fn session(&self) -> (session: Option<String>)
        ensures
            text_of(session) == self@.session,
    {
        copy_text(&self.session)
    }

    /// Takes up `request`: says how the agent is to be started. A query
    /// continues the session that `shared` holds.
    pub fn begin(&mut self, shared: &Coordinator, request: Request) -> (invocation: Invocation)
        requires
            old(self)@.phase == Phase::Idle,
        ensures
            final(self)@ == old(self)@.at(Phase::Launching),
            invocation@ == invocation_of(request@, shared@.session),
    {
        let attached = request.with_session(shared.current_session());
        self.phase = Phase::Launching;
        Invocation { arguments: attached.arguments(), command: attached.command() }
    }

    /// The agent was started. A fresh handle is issued for the request and
    /// put into the slot; the caller keeps the agent's input end under it
    /// and closes the one under the handle displaced. Where no handle is
    /// left to issue the request fails and nothing else changes.
    pub fn launched(&mut self, shared: &mut Coordinator) -> (installed: Result<Installed, Failure>)
        requires
            old(self)@.phase == Phase::Launching,
        ensures
            match installed {
                Ok(i) => {
                    &&& old(shared)@.can_install()
                    &&& final(shared)@ == old(shared)@.after_install()
                    &&& i.handle == old(shared)@.issued
                    &&& i.displaced == old(shared)@.holder
                    &&& final(self)@ == (RunView {
                        phase: Phase::Streaming,
                        handle: Some(i.handle),
                        ..old(self)@
                    })
                },
                Err(failure) => {
                    &&& !old(shared)@.can_install()
                    &&& final(shared)@ == old(shared)@
                    &&& final(self)@ == old(self)@.at(Phase::Failed)
                    &&& failure@ == exhausted()
                },
            },
    {
        match shared.install() {
            Some(installed) => {
                self.phase = Phase::Streaming;
                self.handle = Some(installed.handle);
                Ok(installed)
            },
            None => {
                self.phase = Phase::Failed;
                Err(Failure::Launch { reason: "no handle is left for another request".to_owned() })
            },
        }
    }

    /// The agent could not be started. The request fails at once; the
    /// shared state is not touched, so nothing enters the slot.
    pub fn launch_failed(&mut self, reason: String) -> (failure: Failure)
        requires
            old(self)@.phase == Phase::Launching,
        ensures
            final(self)@ == old(self)@.at(Phase::Failed),
            failure@ == (FailureView::Launch { reason: reason@ }),
    {
        self.phase = Phase::Failed;
        Failure::Launch { reason }
    }

    /// Takes one event of the protocol into account.
    pub fn observe(&mut self, event: &ProtocolEvent)
        requires
            old(self)@.phase == Phase::Streaming,
        ensures
            final(self)@ == old(self)@.observe(event@),
    {
        match event {
            ProtocolEvent::Init { session_id } => {
                self.session = Some(session_id.clone());
            },
            ProtocolEvent::AssistantText { text } => {
                self.text = text.clone();
            },
            ProtocolEvent::Result { result, .. } => {
                self.text = result.clone();
            },
            ProtocolEvent::Unrecognized { .. } => {},
        }
    }

    /// Takes one line of the agent's output into account and says what the
    /// subscriber is to be told of it, in this order. A blank line changes
    /// nothing and tells nothing.
    pub fn on_line(&mut self, line: &str) -> (notifications: Vec<Notification>)
        requires
            old(self)@.phase == Phase::Streaming,
        ensures
            final(self)@ == old(self)@.read(line@),
            notes(notifications@) == told(line@),
    {
        match decode_line(line) {
            Some(event) => {
                self.observe(&event);
                notifications_for(&event, line)
            },
            None => {
                let nothing: Vec<Notification> = Vec::new();
                assert(notes(nothing@) =~= told(line@));
                nothing
            },
        }
    }

    /// The output has ended. The request counts as cancelled where its
    /// handle has left the slot by now.
    pub fn end_of_stream(&mut self, shared: &Coordinator)
        requires
            old(self)@.phase == Phase::Streaming,
        ensures
            final(self)@ == old(self)@.ended(shared@.holder),
    {
        let held = match (self.handle, shared.current_handle()) {
            (Some(mine), Some(current)) => mine == current,
            (None, None) => true,
            _ => false,
        };
        self.phase = Phase::Completing;
        self.released_early = !held;
    }

    /// The agent has exited. The request's handle leaves the slot where it
    /// is still there. On success the session that the agent announced is
    /// kept for the next query and the answer is given back; else the exit
    /// status and the diagnostic output are.
    pub fn exited(
        &mut self,
        shared: &mut Coordinator,
        exit: ProcessExit,
        diagnostics: String,
    ) -> (completion: Completion)
        requires
            old(self)@.phase == Phase::Completing,
        ensures
            final(self)@ == old(self)@.finished(exit.success()),
            final(shared)@ == completed(old(shared)@, old(self)@, exit.success()),
            completion.released == (if old(shared)@.holder == old(self)@.handle {
                old(self)@.handle
            } else {
                None
            }),
            outcome_view(completion.outcome) == outcome_of(old(self)@, exit, diagnostics@),
    {
        let success = exit.succeeded();
        let released = if shared.release_of(self.handle) {
            self.handle
        } else {
            None
        };
        self.phase = if self.released_early {
            Phase::Cancelled
        } else if success {
            Phase::Succeeded
        } else {
            Phase::Failed
        };
        let outcome = if success {
            shared.keep_session(copy_text(&self.session));
            Ok(self.text.clone())
        } else {
            Err(Failure::Process { code: exit.code, description: exit.description, diagnostics })
        };
        Completion { outcome, released }
    }
}

/// What the subscriber is to be told of `event`, decoded from `line`.
pub fn notifications_for(event: &ProtocolEvent, line: &str) -> (notifications: Vec<Notification>)
    ensures
        notes(notifications@) == notifications_of(event@, line@),
{
    let mut notifications: Vec<Notification> = Vec::new();
    match event {
        ProtocolEvent::AssistantText { text } => {
            notifications.push(Notification::Stream { text: text.clone() });
        },
        ProtocolEvent::Result { subtype: Some(subtype), result } => {
            notifications.push(
                Notification::Result { subtype: subtype.clone(), result: result.clone() },
            );
        },
        _ => {},
    }
    notifications.push(Notification::Raw { line: line.to_owned() });
    assert(notes(notifications@) =~= notifications_of(event@, line@));
    notifications
}

/// What the subscriber is to be told when reading the output failed. The
/// request goes on.
pub fn read_error(detail: &str) -> (notification: Notification)
    ensures
        notification@ == read_error_of(detail@),
{
    Notification::Error { message: join("Read error: ", detail) }
}

/// What a recorded run of the agent gave.
#[derive(Debug, PartialEq)]
pub struct Replayed {
    /// What the caller of the request is given back.
    pub outcome: Result<String, Failure>,
    /// What the subscriber was to be told, in this order.
    pub notifications: Vec<Notification>,
    /// The handle that the request displaced from the slot, to be closed.
    pub displaced: Option<u64>,
}

/// Takes a request through a run of the agent that was recorded: the agent
/// was started, wrote `lines`, and ended as `exit` says, with `diagnostics`
/// on its diagnostic output; nobody else touched `shared` meanwhile. The
/// answer is that of the last line that bears one, and the subscriber is
/// told of the lines in the order in which they were written.
pub fn replay(
    shared: &mut Coordinator,
    request: Request,
    lines: &Vec<String>,
    exit: ProcessExit,
    diagnostics: String,
) -> (replayed: Replayed)
    ensures
        !old(shared)@.can_install() ==> {
            &&& final(shared)@ == old(shared)@
            &&& outcome_view(replayed.outcome) == Err::<Seq<char>, FailureView>(exhausted())
            &&& replayed.notifications@.len() == 0
            &&& replayed.displaced is None
        },
        old(shared)@.can_install() ==> {
            &&& replayed.displaced == old(shared)@.holder
            &&& notes(replayed.notifications@) == told_all(texts(lines@))
            &&& final(shared)@.holder is None
            &&& final(shared)@.issued == old(shared)@.issued + 1
            &&& final(shared)@.session == (if exit.success() {
                match observed_session(events_of(texts(lines@))) {
                    Some(session) => Some(session),
                    None => old(shared)@.session,
                }
            } else {
                old(shared)@.session
            })
            &&& outcome_view(replayed.outcome) == (if exit.success() {
                Ok::<Seq<char>, FailureView>(final_text(events_of(texts(lines@))))
            } else {
                Err::<Seq<char>, FailureView>(
                    FailureView::Process {
                        code: exit.code,
                        description: exit.description@,
                        diagnostics: diagnostics@,
                    },
                )
            })
        },
{
    let mut run = Run::new();
    let _ = run.begin(shared, request);
    let installed = match run.launched(shared) {
        Ok(installed) => installed,
        Err(failure) => {
            return Replayed { outcome: Err(failure), notifications: Vec::new(), displaced: None };
        },
    };
    let ghost start = run@;
    let ghost all = texts(lines@);
    let mut notifications: Vec<Notification> = Vec::new();
    assert(notes(notifications@) =~= told_all(all.take(0)));
    let mut i: usize = 0;
    while i < lines.len()
        invariant
            i <= lines.len(),
            all == texts(lines@),
            start.phase == Phase::Streaming,
            run@ == start.read_all(all.take(i as int)),
            notes(notifications@) == told_all(all.take(i as int)),
        decreases lines.len() - i,
    {
        proof {
            let next = all.take(i + 1);
            assert(next.last() == lines@[i as int]@);
            assert(next.drop_last() =~= all.take(i as int));
            lemma_reading_keeps_phase(start, all.take(i as int));
        }
        let ghost before = notifications@;
        let mut fresh = run.on_line(lines[i].as_str());
        let ghost added = fresh@;
        notifications.append(&mut fresh);
        assert(notes(before + added) =~= notes(before) + notes(added));
        i += 1;
    }
    proof {
        assert(all.take(i as int) =~= all);
        lemma_reading_keeps_phase(start, all);
        law_reading_folds_events(start, all);
    }
    run.end_of_stream(shared);
    let completion = run.exited(shared, exit, diagnostics);
    Replayed { outcome: completion.outcome, notifications, displaced: installed.displaced }
}

/// Reading lines changes the answer and the session, and nothing else.
pub proof fn lemma_reading_keeps_phase(start: RunView, lines: Seq<Seq<char>>)
    ensures
        start.read_all(lines).phase == start.phase,
        start.read_all(lines).handle == start.handle,
        start.read_all(lines).released_early == start.released_early,
    decreases lines.len(),
{
    if lines.len() > 0 {
        lemma_reading_keeps_phase(start, lines.drop_last());
    }
}

/// A request that starts with no answer and no session has, after a run of
/// lines, the answer and the session that the events of these lines leave.
pub proof fn law_reading_folds_events(start: RunView, lines: Seq<Seq<char>>)
    requires
        start.text == Seq::<char>::empty(),
        start.session is None,
    ensures
        start.read_all(lines).text == final_text(events_of(lines)),
        start.read_all(lines).session == observed_session(events_of(lines)),
    decreases lines.len(),
{
    if lines.len() > 0 {
        let earlier = lines.drop_last();
        law_reading_folds_events(start, earlier);
        match decode_spec(lines.last()) {
            Some(event) => {
                assert(events_of(lines) == events_of(earlier).push(event));
                assert(events_of(lines).drop_last() =~= events_of(earlier));
            },
            None => {},
        }
    }
}

/// Last text wins: of two assistant texts in a row the later one is the
/// answer, whatever came before them.
pub proof fn law_last_text_wins(events: Seq<EventView>, a: Seq<char>, b: Seq<char>)
    ensures
        final_text(
            events.push(EventView::AssistantText { text: a }).push(
                EventView::AssistantText { text: b },
            ),
        ) == b,
{
}

/// A result overrides the assistant texts before it: where a result comes
/// last, its text is the answer.
pub proof fn law_result_overrides(
    events: Seq<EventView>,
    subtype: Option<Seq<char>>,
    result: Seq<char>,
)
    ensures
        final_text(events.push(EventView::Result { subtype, result })) == result,
{
}

/// Events that bear no answer leave the answer as it is: the answer of a
/// run of events is that of its last event that bears one.
pub proof fn law_silent_events_keep_text(events: Seq<EventView>, later: Seq<EventView>)
    requires
        forall|i: int| 0 <= i < later.len() ==> !bears_text(#[trigger] later[i]),
    ensures
        final_text(events + later) == final_text(events),
    decreases later.len(),
{
    if later.len() == 0 {
        assert(events + later =~= events);
    } else {
        let shorter = later.drop_last();
        assert forall|i: int| 0 <= i < shorter.len() implies !bears_text(
            #[trigger] shorter[i],
        ) by {
            assert(shorter[i] == later[i]);
        }
        law_silent_events_keep_text(events, shorter);
        assert((events + later).drop_last() =~= events + shorter);
        assert((events + later).last() == later.last());
        assert(!bears_text(later[later.len() - 1]));
    }
}

/// Without an event that bears an answer the answer is empty.
pub proof fn law_no_text_is_empty(events: Seq<EventView>)
    requires
        forall|i: int| 0 <= i < events.len() ==> !bears_text(#[trigger] events[i]),
    ensures
        final_text(events) == Seq::<char>::empty(),
{
    law_silent_events_keep_text(Seq::empty(), events);
    assert(Seq::<EventView>::empty() + events =~= events);
}

/// Session continuity: once a run that announced a session has succeeded,
/// that session is the one held, and the next query continues it.
pub proof fn law_session_continuity(
    shared: CoordinatorView,
    run: RunView,
    session: Seq<char>,
    prompt: Seq<char>,
    named: Option<Seq<char>>,
    images: Seq<Seq<char>>,
)
    requires
        run.session == Some(session),
    ensures
        completed(shared, run, true).session == Some(session),
        ({
            let next = RequestView::Query { prompt, session_id: named, images };
            let invocation = invocation_of(next, completed(shared, run, true).session);
            let attached = RequestView::Query { prompt, session_id: Some(session), images };
            &&& invocation.command == attached.command()
            &&& invocation.arguments == attached.arguments()
            &&& invocation.arguments.len() == 7
            &&& invocation.arguments[5] == "--resume"@
            &&& invocation.arguments[6] == session
        }),
{
}

/// A request that failed, or was never run, leaves the session as it was.
pub proof fn law_failure_keeps_session(shared: CoordinatorView, run: RunView)
    ensures
        completed(shared, run, false).session == shared.session,
        run.session is None ==> completed(shared, run, true).session == shared.session,
{
}

} // verus!

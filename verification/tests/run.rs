use agent_driver::event::ProtocolEvent;
use agent_driver::json::{Json, Member};
use agent_driver::request::Request;
use agent_driver::run::{
    notifications_for, read_error, replay, Completion, Failure, Notification, Phase, ProcessExit,
    Replayed, Run,
};
use agent_driver::state::{Coordinator, Installed};

fn query(prompt: &str) -> Request {
    Request::Query { prompt: prompt.to_string(), session_id: None, images: Vec::new() }
}

fn exit(code: i32) -> ProcessExit {
    ProcessExit { code: Some(code), description: format!("exit status: {}", code) }
}

fn streaming(shared: &mut Coordinator) -> Run {
    let mut run = Run::new();
    run.begin(shared, query("hi"));
    run.launched(shared).unwrap();
    run
}

fn raw(line: &str) -> Notification {
    Notification::Raw { line: line.to_string() }
}

const INIT: &str = "{\"type\":\"system\",\"session_id\":\"abc\"}";
const HELLO: &str =
    "{\"type\":\"assistant\",\"message\":{\"content\":[{\"type\":\"text\",\"text\":\"Hello\"}]}}";
const RESULT: &str = "{\"type\":\"result\",\"subtype\":\"success\",\"result\":\"Hello there\"}";

#[test]
fn a_new_run_is_idle() {
    let run = Run::new();
    assert_eq!(run.phase(), Phase::Idle);
    assert_eq!(run.handle(), None);
    assert_eq!(run.session(), None);
    assert_eq!(run.text(), "");
}

#[test]
fn begin_attaches_the_session_held() {
    let mut shared = Coordinator::new();
    let mut run = Run::new();
    let invocation = run.begin(&shared, query("hi"));
    assert_eq!(run.phase(), Phase::Launching);
    assert_eq!(
        invocation.arguments,
        vec!["-p", "hi", "--output-format", "stream-json", "--verbose"]
    );
    assert_eq!(invocation.command.get("sessionId"), Some(&Json::Null));

    shared.keep_session(Some("S1".to_string()));
    let mut run = Run::new();
    let named = Request::Query {
        prompt: "again".to_string(),
        session_id: Some("other".to_string()),
        images: vec!["img".to_string()],
    };
    let invocation = run.begin(&shared, named);
    assert_eq!(
        invocation.arguments,
        vec!["-p", "again", "--output-format", "stream-json", "--verbose", "--resume", "S1"]
    );
    assert_eq!(
        invocation.command,
        Json::Object(vec![
            Member { key: "type".to_string(), value: Json::Str("query".to_string()) },
            Member { key: "prompt".to_string(), value: Json::Str("again".to_string()) },
            Member { key: "sessionId".to_string(), value: Json::Str("S1".to_string()) },
            Member {
                key: "images".to_string(),
                value: Json::Array(vec![Json::Str("img".to_string())])
            },
        ])
    );
}

#[test]
fn begin_drops_the_session_a_query_named_where_none_is_held() {
    let shared = Coordinator::new();
    let mut run = Run::new();
    let named = Request::Query {
        prompt: "p".to_string(),
        session_id: Some("other".to_string()),
        images: Vec::new(),
    };
    let invocation = run.begin(&shared, named);
    assert_eq!(invocation.arguments.len(), 5);
    assert_eq!(invocation.command.get("sessionId"), Some(&Json::Null));
}

#[test]
fn launched_installs_a_fresh_handle() {
    let mut shared = Coordinator::new();
    let mut first = Run::new();
    first.begin(&shared, query("one"));
    assert_eq!(first.launched(&mut shared), Ok(Installed { handle: 0, displaced: None }));
    assert_eq!(first.phase(), Phase::Streaming);
    assert_eq!(first.handle(), Some(0));
    assert_eq!(shared.current_handle(), Some(0));

    let mut second = Run::new();
    second.begin(&shared, query("two"));
    assert_eq!(second.launched(&mut shared), Ok(Installed { handle: 1, displaced: Some(0) }));
    assert_eq!(second.handle(), Some(1));
    assert_eq!(shared.current_handle(), Some(1));
}

#[test]
fn missing_executable_fails_at_once_and_installs_nothing() {
    let mut shared = Coordinator::new();
    let mut run = Run::new();
    run.begin(&shared, query("hi"));
    let failure = run.launch_failed("No such file or directory (os error 2)".to_string());
    assert_eq!(
        failure,
        Failure::Launch { reason: "No such file or directory (os error 2)".to_string() }
    );
    assert_eq!(
        failure.message(),
        "Failed to spawn the agent: No such file or directory (os error 2). \
         Make sure the agent is installed and in PATH."
    );
    assert_eq!(run.phase(), Phase::Failed);
    assert_eq!(run.handle(), None);
    assert_eq!(shared.current_handle(), None);
    assert_eq!(shared.current_session(), None);
    assert_eq!(shared.install(), Some(Installed { handle: 0, displaced: None }));
}

#[test]
fn last_text_wins() {
    let mut shared = Coordinator::new();
    let mut run = streaming(&mut shared);
    run.observe(&ProtocolEvent::AssistantText { text: "a".to_string() });
    assert_eq!(run.text(), "a");
    run.observe(&ProtocolEvent::AssistantText { text: "b".to_string() });
    assert_eq!(run.text(), "b");
    run.observe(&ProtocolEvent::Unrecognized { raw_line: "x".to_string() });
    run.observe(&ProtocolEvent::Init { session_id: "S".to_string() });
    assert_eq!(run.text(), "b");
    run.end_of_stream(&shared);
    let completion = run.exited(&mut shared, exit(0), String::new());
    assert_eq!(completion.outcome, Ok("b".to_string()));
}

#[test]
fn result_overrides_assistant_text() {
    let mut shared = Coordinator::new();
    let mut run = streaming(&mut shared);
    run.observe(&ProtocolEvent::AssistantText { text: "a".to_string() });
    run.observe(&ProtocolEvent::Result { subtype: None, result: "z".to_string() });
    assert_eq!(run.text(), "z");
    run.end_of_stream(&shared);
    let completion = run.exited(&mut shared, exit(0), String::new());
    assert_eq!(completion.outcome, Ok("z".to_string()));
}

#[test]
fn a_result_without_text_empties_the_answer() {
    let mut shared = Coordinator::new();
    let mut run = streaming(&mut shared);
    run.on_line(HELLO);
    assert_eq!(run.text(), "Hello");
    run.on_line("{\"type\":\"result\",\"subtype\":\"error\"}");
    assert_eq!(run.text(), "");
}

#[test]
fn the_last_init_is_the_session_observed() {
    let mut shared = Coordinator::new();
    let mut run = streaming(&mut shared);
    assert_eq!(run.session(), None);
    run.observe(&ProtocolEvent::Init { session_id: "S1".to_string() });
    run.observe(&ProtocolEvent::AssistantText { text: "a".to_string() });
    assert_eq!(run.session(), Some("S1".to_string()));
    run.observe(&ProtocolEvent::Init { session_id: "S2".to_string() });
    assert_eq!(run.session(), Some("S2".to_string()));
}

#[test]
fn on_line_says_what_to_forward() {
    let mut shared = Coordinator::new();
    let mut run = streaming(&mut shared);
    assert_eq!(run.on_line(""), Vec::<Notification>::new());
    assert_eq!(run.on_line("   "), Vec::<Notification>::new());
    assert_eq!(run.on_line("oops"), vec![raw("oops")]);
    assert_eq!(run.on_line(INIT), vec![raw(INIT)]);
    assert_eq!(
        run.on_line(HELLO),
        vec![Notification::Stream { text: "Hello".to_string() }, raw(HELLO)]
    );
    assert_eq!(
        run.on_line(RESULT),
        vec![
            Notification::Result {
                subtype: "success".to_string(),
                result: "Hello there".to_string()
            },
            raw(RESULT)
        ]
    );
    let quiet = "{\"type\":\"result\",\"result\":\"fin\"}";
    assert_eq!(run.on_line(quiet), vec![raw(quiet)]);
    assert_eq!(run.text(), "fin");
    assert_eq!(run.phase(), Phase::Streaming);
}

#[test]
fn notifications_for_each_kind_of_event() {
    assert_eq!(
        notifications_for(&ProtocolEvent::Init { session_id: "s".to_string() }, "l"),
        vec![raw("l")]
    );
    assert_eq!(
        notifications_for(&ProtocolEvent::AssistantText { text: "t".to_string() }, "l"),
        vec![Notification::Stream { text: "t".to_string() }, raw("l")]
    );
    assert_eq!(
        notifications_for(
            &ProtocolEvent::Result { subtype: Some("k".to_string()), result: "r".to_string() },
            "l"
        ),
        vec![Notification::Result { subtype: "k".to_string(), result: "r".to_string() }, raw("l")]
    );
    assert_eq!(
        notifications_for(&ProtocolEvent::Result { subtype: None, result: "r".to_string() }, "l"),
        vec![raw("l")]
    );
    assert_eq!(
        notifications_for(&ProtocolEvent::Unrecognized { raw_line: "l".to_string() }, "l"),
        vec![raw("l")]
    );
}

#[test]
fn read_errors_are_told_and_the_run_goes_on() {
    assert_eq!(
        read_error("stream did not contain valid UTF-8"),
        Notification::Error { message: "Read error: stream did not contain valid UTF-8".to_string() }
    );
    let mut shared = Coordinator::new();
    let mut run = streaming(&mut shared);
    run.on_line(HELLO);
    let _ = read_error("broken pipe");
    assert_eq!(run.phase(), Phase::Streaming);
    run.on_line(RESULT);
    assert_eq!(run.text(), "Hello there");
}

#[test]
fn hello_scenario_step_by_step() {
    let mut shared = Coordinator::new();
    let mut run = Run::new();
    run.begin(&shared, query("hi"));
    let installed = run.launched(&mut shared).unwrap();
    for line in [INIT, HELLO, RESULT] {
        run.on_line(line);
    }
    run.end_of_stream(&shared);
    assert_eq!(run.phase(), Phase::Completing);
    let completion = run.exited(&mut shared, exit(0), String::new());
    assert_eq!(
        completion,
        Completion { outcome: Ok("Hello there".to_string()), released: Some(installed.handle) }
    );
    assert_eq!(run.phase(), Phase::Succeeded);
    assert_eq!(shared.current_session(), Some("abc".to_string()));
    assert_eq!(shared.current_handle(), None);
}

#[test]
fn hello_scenario_replayed() {
    let mut shared = Coordinator::new();
    let lines: Vec<String> = [INIT, HELLO, RESULT].iter().map(|l| l.to_string()).collect();
    let replayed = replay(&mut shared, query("hi"), &lines, exit(0), String::new());
    assert_eq!(
        replayed,
        Replayed {
            outcome: Ok("Hello there".to_string()),
            notifications: vec![
                raw(INIT),
                Notification::Stream { text: "Hello".to_string() },
                raw(HELLO),
                Notification::Result {
                    subtype: "success".to_string(),
                    result: "Hello there".to_string()
                },
                raw(RESULT),
            ],
            displaced: None
        }
    );
    assert_eq!(shared.current_session(), Some("abc".to_string()));
    assert_eq!(shared.current_handle(), None);
}

#[test]
fn session_continuity() {
    let mut shared = Coordinator::new();
    let lines = vec!["{\"type\":\"system\",\"session_id\":\"S1\"}".to_string()];
    let replayed = replay(&mut shared, query("first"), &lines, exit(0), String::new());
    assert_eq!(replayed.outcome, Ok(String::new()));
    assert_eq!(shared.current_session(), Some("S1".to_string()));
    let mut next = Run::new();
    let invocation = next.begin(&shared, query("second"));
    assert_eq!(invocation.command.get("sessionId"), Some(&Json::Str("S1".to_string())));
    assert_eq!(invocation.arguments[5], "--resume");
    assert_eq!(invocation.arguments[6], "S1");
}

#[test]
fn success_without_any_answer_is_empty_text() {
    let mut shared = Coordinator::new();
    shared.keep_session(Some("kept".to_string()));
    let lines = vec!["".to_string(), "oops".to_string(), "{\"type\":\"ping\"}".to_string()];
    let replayed = replay(&mut shared, query("hi"), &lines, exit(0), String::new());
    assert_eq!(replayed.outcome, Ok(String::new()));
    assert_eq!(replayed.notifications, vec![raw("oops"), raw("{\"type\":\"ping\"}")]);
    assert_eq!(shared.current_session(), Some("kept".to_string()));
    let replayed = replay(&mut shared, query("hi"), &Vec::new(), exit(0), String::new());
    assert_eq!(replayed.outcome, Ok(String::new()));
}

#[test]
fn failure_carries_status_and_diagnostics_and_keeps_the_session() {
    let mut shared = Coordinator::new();
    shared.keep_session(Some("old".to_string()));
    let lines: Vec<String> = [INIT, HELLO].iter().map(|l| l.to_string()).collect();
    let replayed = replay(&mut shared, query("hi"), &lines, exit(2), "boom\n".to_string());
    let failure = Failure::Process {
        code: Some(2),
        description: "exit status: 2".to_string(),
        diagnostics: "boom\n".to_string(),
    };
    assert_eq!(failure.message(), "The agent exited with status: exit status: 2");
    assert_eq!(replayed.outcome, Err(failure));
    assert_eq!(
        replayed.notifications,
        vec![raw(INIT), Notification::Stream { text: "Hello".to_string() }, raw(HELLO)]
    );
    assert_eq!(replayed.displaced, None);
    assert_eq!(shared.current_session(), Some("old".to_string()));
    assert_eq!(shared.current_handle(), None);
}

#[test]
fn a_signal_is_a_failure() {
    let killed = ProcessExit { code: None, description: "signal: 9 (SIGKILL)".to_string() };
    assert!(!killed.succeeded());
    assert!(exit(0).succeeded());
    assert!(!exit(1).succeeded());
    assert!(!exit(-1).succeeded());
    let mut shared = Coordinator::new();
    let mut run = streaming(&mut shared);
    run.on_line(HELLO);
    run.end_of_stream(&shared);
    let completion = run.exited(&mut shared, killed, "killed".to_string());
    assert_eq!(
        completion.outcome,
        Err(Failure::Process {
            code: None,
            description: "signal: 9 (SIGKILL)".to_string(),
            diagnostics: "killed".to_string()
        })
    );
    assert_eq!(run.phase(), Phase::Failed);
}

#[test]
fn replay_displaces_the_handle_in_the_slot() {
    let mut shared = Coordinator::new();
    let earlier = shared.install().unwrap();
    let replayed = replay(&mut shared, query("hi"), &Vec::new(), exit(0), String::new());
    assert_eq!(replayed.displaced, Some(earlier.handle));
    assert_eq!(shared.current_handle(), None);
    assert_eq!(shared.install(), Some(Installed { handle: 2, displaced: None }));
}

#[test]
fn cancel_then_submit_again() {
    let mut shared = Coordinator::new();
    let mut first = streaming(&mut shared);
    first.on_line(INIT);
    first.on_line(HELLO);
    assert_eq!(shared.cancel(), first.handle());
    assert_eq!(shared.current_handle(), None);

    let mut second = Run::new();
    second.begin(&shared, query("again"));
    let installed = second.launched(&mut shared).unwrap();
    assert_eq!(installed.displaced, None);
    assert_ne!(Some(installed.handle), first.handle());
    assert_eq!(shared.current_handle(), Some(installed.handle));

    first.end_of_stream(&shared);
    let completion = first.exited(&mut shared, exit(0), String::new());
    assert_eq!(first.phase(), Phase::Cancelled);
    assert_eq!(completion, Completion { outcome: Ok("Hello".to_string()), released: None });
    assert_eq!(shared.current_handle(), Some(installed.handle));
    assert_eq!(shared.current_session(), Some("abc".to_string()));
}

#[test]
fn a_cancelled_run_that_fails_reports_the_failure() {
    let mut shared = Coordinator::new();
    let mut run = streaming(&mut shared);
    run.on_line(INIT);
    shared.cancel();
    run.end_of_stream(&shared);
    let completion = run.exited(&mut shared, exit(130), "interrupted".to_string());
    assert_eq!(run.phase(), Phase::Cancelled);
    assert_eq!(completion.released, None);
    assert_eq!(
        completion.outcome,
        Err(Failure::Process {
            code: Some(130),
            description: "exit status: 130".to_string(),
            diagnostics: "interrupted".to_string()
        })
    );
    assert_eq!(shared.current_session(), None);
}

#[test]
fn a_superseded_run_counts_as_cancelled() {
    let mut shared = Coordinator::new();
    let mut first = streaming(&mut shared);
    let mut second = Run::new();
    second.begin(&shared, query("two"));
    assert_eq!(
        second.launched(&mut shared),
        Ok(Installed { handle: 1, displaced: first.handle() })
    );
    first.end_of_stream(&shared);
    first.exited(&mut shared, exit(0), String::new());
    assert_eq!(first.phase(), Phase::Cancelled);
    second.end_of_stream(&shared);
    let completion = second.exited(&mut shared, exit(0), String::new());
    assert_eq!(second.phase(), Phase::Succeeded);
    assert_eq!(completion.released, Some(1));
    assert_eq!(shared.current_handle(), None);
}

#[test]
fn cancelling_after_the_output_ended_is_no_cancellation() {
    let mut shared = Coordinator::new();
    let mut run = streaming(&mut shared);
    run.end_of_stream(&shared);
    assert_eq!(shared.cancel(), Some(0));
    let completion = run.exited(&mut shared, exit(0), String::new());
    assert_eq!(run.phase(), Phase::Succeeded);
    assert_eq!(completion.released, None);
}

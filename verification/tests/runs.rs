use bytes::Bytes;
use conformance::{
    step, Action, ApiDescription, BodyComparison, ConfigError, Event, Method, OperationSpec,
    ParamLocation, RequestSpec, ResolutionError, ResponseSpec, RunError, RunState, StatusClass,
    TestCase, TestOperation, TestResponse, TransportError, Verdict,
};
use http::HeaderMap;

fn create_widget() -> TestOperation {
    TestOperation::new(Method::Post, "/widgets", "createWidget")
}

fn api() -> ApiDescription {
    ApiDescription::new()
        .add_operation(
            OperationSpec::new(create_widget())
                .add_request_example(
                    "application/json",
                    "new-gear",
                    Bytes::from_static(b"{\"name\":\"gear\"}"),
                )
                .add_response_example(
                    201,
                    "application/json",
                    "created",
                    Bytes::from_static(b"{\"id\":1}"),
                ),
        )
        .add_operation(
            OperationSpec::new(TestOperation::new(Method::Get, "/widgets/{id}", "getWidget"))
                .declare_param("id", ParamLocation::Path, "42"),
        )
}

fn answer(status: u16, body: &'static str) -> Event {
    Event::Responded(TestResponse::new(status, HeaderMap::new(), Bytes::from(body)))
}

/// Runs `case` to its end against a target that gives `outcome`, and counts
/// how often a request was to be sent.
fn run(case: &TestCase, api: &ApiDescription, outcome: Event) -> (Verdict, usize) {
    let mut outcome = Some(outcome);
    let mut dispatches = 0;
    let (mut state, mut action) = step(case, api, RunState::new(), Event::Advance);
    loop {
        let event = match action {
            Action::Continue => Event::Advance,
            Action::Dispatch => {
                dispatches += 1;
                outcome.take().unwrap()
            }
            Action::Report => return (state.verdict().unwrap(), dispatches),
            Action::Ignore => panic!("the run stopped short of a verdict"),
        };
        let next = step(case, api, state, event);
        state = next.0;
        action = next.1;
    }
}

#[test]
fn bad_request_answered_with_400_passes() {
    let case = TestCase::new(
        create_widget(),
        RequestSpec::from_bad_raw(Bytes::from("{not json")),
        vec![ResponseSpec::client_error()],
    )
    .unwrap();
    let (verdict, dispatches) = run(&case, &api(), answer(400, "{\"error\":\"bad\"}"));
    assert!(matches!(verdict, Verdict::Passed));
    assert_eq!(dispatches, 1);
}

#[test]
fn bad_request_answered_with_200_fails() {
    let case = TestCase::new(
        create_widget(),
        RequestSpec::from_bad_raw(Bytes::from("{not json")),
        vec![ResponseSpec::client_error()],
    )
    .unwrap();
    let (verdict, dispatches) = run(&case, &api(), answer(200, "{}"));
    match verdict {
        Verdict::Failed(mismatch) => {
            assert_eq!(mismatch.status, 200);
            assert_eq!(&mismatch.body[..], b"{}");
            assert_eq!(mismatch.expected.len(), 1);
        }
        other => panic!("unexpected verdict {:?}", other),
    }
    assert_eq!(dispatches, 1);
}

#[test]
fn missing_request_example_errors_without_dispatch() {
    let case = TestCase::new(
        create_widget(),
        RequestSpec::from_json_example("create-widget"),
        vec![ResponseSpec::from_status(201)],
    )
    .unwrap();
    let (verdict, dispatches) = run(&case, &api(), answer(201, ""));
    assert!(matches!(
        verdict,
        Verdict::Errored(RunError::Resolution(ResolutionError::ExampleNotFound))
    ));
    assert_eq!(dispatches, 0);
}

#[test]
fn unknown_operation_errors_without_dispatch() {
    let case = TestCase::new(
        TestOperation::new(Method::Delete, "/widgets", "deleteAll"),
        RequestSpec::empty(),
        vec![ResponseSpec::from_status(204)],
    )
    .unwrap();
    let (verdict, dispatches) = run(&case, &api(), answer(204, ""));
    assert!(matches!(
        verdict,
        Verdict::Errored(RunError::Resolution(ResolutionError::NoSuchOperation))
    ));
    assert_eq!(dispatches, 0);
}

#[test]
fn missing_response_example_errors_without_dispatch() {
    let case = TestCase::new(
        create_widget(),
        RequestSpec::from_json_example("new-gear"),
        vec![ResponseSpec::from_json_example(201, "absent")],
    )
    .unwrap();
    let (verdict, dispatches) = run(&case, &api(), answer(201, ""));
    assert!(matches!(
        verdict,
        Verdict::Errored(RunError::Resolution(ResolutionError::ExampleNotFound))
    ));
    assert_eq!(dispatches, 0);
}

#[test]
fn conforming_response_passes_and_other_body_fails() {
    let case = TestCase::new(
        create_widget(),
        RequestSpec::from_json_example("new-gear"),
        vec![ResponseSpec::from_json_example(201, "created")],
    )
    .unwrap();
    let (verdict, _) = run(&case, &api(), answer(201, "{ \"id\": 1 }"));
    assert!(matches!(verdict, Verdict::Passed));
    let (verdict, _) = run(&case, &api(), answer(201, "{\"id\":2}"));
    assert!(matches!(verdict, Verdict::Failed(_)));
    let exact = case.with_comparison(BodyComparison::Exact);
    let (verdict, _) = run(&exact, &api(), answer(201, "{ \"id\": 1 }"));
    assert!(matches!(verdict, Verdict::Failed(_)));
    let (verdict, _) = run(&exact, &api(), answer(201, "{\"id\":1}"));
    assert!(matches!(verdict, Verdict::Passed));
}

#[test]
fn transport_failures_end_in_errored() {
    let case = TestCase::new(
        create_widget(),
        RequestSpec::from_json_example("new-gear"),
        vec![ResponseSpec::from_status(201)],
    )
    .unwrap();
    for e in [TransportError::Timeout, TransportError::ConnectionFailed, TransportError::ProtocolError]
    {
        let (verdict, dispatches) = run(&case, &api(), Event::TransportFailed(e));
        match verdict {
            Verdict::Errored(RunError::Transport(kind)) => assert_eq!(kind, e),
            other => panic!("unexpected verdict {:?}", other),
        }
        assert_eq!(dispatches, 1);
    }
}

#[test]
fn run_goes_through_each_state_once() {
    let case = TestCase::new(
        TestOperation::new(Method::Get, "/widgets/{id}", "getWidget"),
        RequestSpec::empty().add_param("id", "7"),
        vec![ResponseSpec::from_class(StatusClass::Success)],
    )
    .unwrap();
    let api = api();
    let state = RunState::new();
    assert!(matches!(state, RunState::Pending));
    assert!(!state.is_over());
    let (state, action) = step(&case, &api, state, Event::Advance);
    assert!(matches!(state, RunState::Resolving));
    assert_eq!(action, Action::Continue);
    let (state, action) = step(&case, &api, state, Event::Advance);
    assert_eq!(action, Action::Dispatch);
    match &state {
        RunState::Dispatching(resolved) => {
            assert_eq!(resolved.request.path().unwrap(), "/widgets/7");
            assert!(!resolved.bad);
            assert_eq!(resolved.expected.len(), 1);
        }
        other => panic!("unexpected state {:?}", other),
    }
    let (state, action) = step(&case, &api, state, answer(200, "ok"));
    assert!(matches!(state, RunState::Validating(_, _)));
    assert_eq!(action, Action::Continue);
    let (state, action) = step(&case, &api, state, Event::Advance);
    assert!(matches!(state, RunState::Passed));
    assert_eq!(action, Action::Report);
    assert!(state.is_over());
    assert!(matches!(state.verdict(), Some(Verdict::Passed)));
}

#[test]
fn events_that_do_not_apply_change_nothing() {
    let case = TestCase::new(
        create_widget(),
        RequestSpec::from_json_example("new-gear"),
        vec![ResponseSpec::from_status(201)],
    )
    .unwrap();
    let api = api();
    let (state, action) = step(&case, &api, RunState::Pending, answer(200, ""));
    assert!(matches!(state, RunState::Pending));
    assert_eq!(action, Action::Ignore);
    let (state, action) =
        step(&case, &api, RunState::Resolving, Event::TransportFailed(TransportError::Timeout));
    assert!(matches!(state, RunState::Resolving));
    assert_eq!(action, Action::Ignore);
    let (_, state) = (0, step(&case, &api, RunState::Resolving, Event::Advance).0);
    let (state, action) = step(&case, &api, state, Event::Advance);
    assert!(matches!(state, RunState::Dispatching(_)));
    assert_eq!(action, Action::Ignore);
    let (state, _) = step(&case, &api, state, answer(500, ""));
    let (state, action) = step(&case, &api, state, answer(201, ""));
    assert!(matches!(state, RunState::Validating(_, _)));
    assert_eq!(action, Action::Ignore);
    assert!(state.verdict().is_none());
}

#[test]
fn ended_run_is_never_resumed() {
    let case = TestCase::new(
        create_widget(),
        RequestSpec::from_json_example("new-gear"),
        vec![ResponseSpec::from_status(201)],
    )
    .unwrap();
    let api = api();
    for event in [
        Event::Advance,
        answer(201, ""),
        Event::TransportFailed(TransportError::Timeout),
    ] {
        let (state, action) = step(&case, &api, RunState::Passed, event);
        assert!(matches!(state, RunState::Passed));
        assert_eq!(action, Action::Ignore);
    }
    let (state, action) = step(
        &case,
        &api,
        RunState::Errored(RunError::Transport(TransportError::Timeout)),
        Event::Advance,
    );
    assert!(matches!(state, RunState::Errored(RunError::Transport(TransportError::Timeout))));
    assert_eq!(action, Action::Ignore);
}

#[test]
fn misconfigured_cases_are_refused_at_construction() {
    let none = TestCase::new(create_widget(), RequestSpec::empty(), vec![]);
    assert_eq!(none.err(), Some(ConfigError::NoResponseSpec));
    let bad_with_success = TestCase::new(
        create_widget(),
        RequestSpec::from_bad_raw(Bytes::from("x")),
        vec![ResponseSpec::client_error(), ResponseSpec::from_json_example(201, "created")],
    );
    assert_eq!(bad_with_success.err(), Some(ConfigError::BadRequestExpectsSuccess));
    let bad_with_exact_status = TestCase::new(
        create_widget(),
        RequestSpec::from_bad_raw(Bytes::from("x")),
        vec![ResponseSpec::from_status(400)],
    );
    assert_eq!(bad_with_exact_status.err(), Some(ConfigError::BadRequestExpectsSuccess));
    let bad_with_success_class = TestCase::new(
        create_widget(),
        RequestSpec::from_bad_raw(Bytes::from("x")),
        vec![ResponseSpec::from_class(StatusClass::Success)],
    );
    assert_eq!(bad_with_success_class.err(), Some(ConfigError::BadRequestExpectsSuccess));
    let bad_with_nothing = TestCase::new(
        create_widget(),
        RequestSpec::from_bad_raw(Bytes::from("x")),
        vec![],
    );
    assert_eq!(bad_with_nothing.err(), Some(ConfigError::NoResponseSpec));
    let fine = TestCase::new(
        create_widget(),
        RequestSpec::from_bad_raw(Bytes::from("x")),
        vec![ResponseSpec::client_error(), ResponseSpec::from_class(StatusClass::ServerError)],
    )
    .unwrap();
    assert_eq!(fine.comparison(), BodyComparison::JsonValue);
    assert!(fine.request().bad);
    assert_eq!(fine.operation().operation_id, "createWidget");
    assert_eq!(fine.clone().responses().len(), 2);
    assert_eq!(fine.responses().len(), 2);
    let positive = TestCase::new(
        create_widget(),
        RequestSpec::empty(),
        vec![ResponseSpec::client_error(), ResponseSpec::from_status(201)],
    );
    assert!(positive.is_ok());
}

#[test]
fn independent_cases_give_the_same_verdicts_in_any_order() {
    let api = api();
    let cases = vec![
        TestCase::new(
            create_widget(),
            RequestSpec::from_bad_raw(Bytes::from("{not json")),
            vec![ResponseSpec::client_error()],
        )
        .unwrap(),
        TestCase::new(
            create_widget(),
            RequestSpec::from_json_example("new-gear"),
            vec![ResponseSpec::from_json_example(201, "created")],
        )
        .unwrap(),
        TestCase::new(
            create_widget(),
            RequestSpec::from_json_example("absent"),
            vec![ResponseSpec::from_status(201)],
        )
        .unwrap(),
    ];
    let target = |i: usize| match i {
        0 => answer(400, "no"),
        1 => answer(201, "{\"id\":1}"),
        _ => answer(500, ""),
    };
    let label = |v: &Verdict| match v {
        Verdict::Passed => "passed",
        Verdict::Failed(_) => "failed",
        Verdict::Errored(_) => "errored",
    };
    let forward: Vec<&str> =
        (0..3).map(|i| label(&run(&cases[i], &api, target(i)).0)).collect();
    let mut backward: Vec<&str> =
        (0..3).rev().map(|i| label(&run(&cases[i], &api, target(i)).0)).collect();
    backward.reverse();
    assert_eq!(forward, vec!["passed", "passed", "errored"]);
    assert_eq!(forward, backward);
}

use bytes::Bytes;
use conformance::body::{bodies_match, compact};
use conformance::raw::same_bytes;
use conformance::response::{judge, resolve_expected};
use conformance::{
    BodyComparison, ExpectedResponse, ExpectedStatus, Method, OperationSpec, ResolutionError,
    ResponseSpec, StatusClass, TestOperation, TestResponse,
};
use http::HeaderMap;

fn response(status: u16, body: &'static str) -> TestResponse {
    TestResponse::new(status, HeaderMap::new(), Bytes::from(body))
}

fn widgets() -> OperationSpec {
    OperationSpec::new(TestOperation::new(Method::Post, "/widgets", "createWidget"))
        .add_response_example(
            201,
            "application/json",
            "created",
            Bytes::from_static(b"{\"id\": 1, \"name\": \"gear\"}"),
        )
        .add_response_example(200, "application/json", "created", Bytes::from_static(b"{}"))
        .add_response_example(201, "text/plain", "created", Bytes::from_static(b"1 gear"))
}

#[test]
fn compact_takes_out_white_space_between_tokens_only() {
    assert_eq!(compact(b"{ \"a\" : 1 ,\n\t\"b\":[ 1, 2 ]\r\n}"), b"{\"a\":1,\"b\":[1,2]}".to_vec());
    assert_eq!(compact(b"\"a b\""), b"\"a b\"".to_vec());
    assert_eq!(compact(b"\"a\\\" b\" c"), b"\"a\\\" b\"c".to_vec());
    assert_eq!(compact(b"\"a\\\\\" b"), b"\"a\\\\\"b".to_vec());
    assert_eq!(compact(b""), Vec::<u8>::new());
    assert_eq!(compact(b"  \n"), Vec::<u8>::new());
    assert_eq!(compact(b"\"open  "), b"\"open  ".to_vec());
}

#[test]
fn bodies_are_compared_under_the_chosen_rule() {
    let pretty = b"{\n  \"a\": 1\n}";
    let dense = b"{\"a\":1}";
    assert!(bodies_match(pretty, dense, BodyComparison::JsonLayout));
    assert!(!bodies_match(pretty, dense, BodyComparison::Exact));
    assert!(bodies_match(dense, dense, BodyComparison::Exact));
    assert!(!bodies_match(b"{\"a\":1}", b"{\"a\":2}", BodyComparison::JsonLayout));
    assert!(!bodies_match(b"{\"a\":\"x y\"}", b"{\"a\":\"xy\"}", BodyComparison::JsonLayout));
    assert!(!bodies_match(b"{\"a\":1,\"b\":2}", b"{\"b\":2,\"a\":1}", BodyComparison::JsonLayout));
    assert!(bodies_match(b"", b" ", BodyComparison::JsonLayout));
    assert!(!bodies_match(b"", b" ", BodyComparison::Exact));
    assert_eq!(BodyComparison::default(), BodyComparison::JsonValue);
}

#[test]
fn same_bytes_compares_length_and_content() {
    assert!(same_bytes(b"abc", b"abc"));
    assert!(!same_bytes(b"abc", b"abd"));
    assert!(!same_bytes(b"abc", b"ab"));
    assert!(same_bytes(b"", b""));
}

#[test]
fn expected_responses_resolve_against_declared_examples() {
    let op = widgets();
    let e = ResponseSpec::from_json_example(201, "created").resolve(&op).unwrap();
    assert_eq!(e.status, ExpectedStatus::Exactly(201));
    assert_eq!(&e.body.as_ref().unwrap()[..], b"{\"id\": 1, \"name\": \"gear\"}");
    let t = ResponseSpec::from_example(201, "text/plain", "created").resolve(&op).unwrap();
    assert_eq!(&t.body.as_ref().unwrap()[..], b"1 gear");
    let s = ResponseSpec::from_status(204).resolve(&op).unwrap();
    assert_eq!(s.status, ExpectedStatus::Exactly(204));
    assert!(s.body.is_none());
    let c = ResponseSpec::client_error().resolve(&op).unwrap();
    assert_eq!(c.status, ExpectedStatus::Within(StatusClass::ClientError));
    assert!(c.body.is_none());
}

#[test]
fn undeclared_response_example_is_example_not_found() {
    let op = widgets();
    assert_eq!(
        ResponseSpec::from_json_example(404, "created").resolve(&op).err(),
        Some(ResolutionError::ExampleNotFound)
    );
    assert_eq!(
        ResponseSpec::from_json_example(201, "missing").resolve(&op).err(),
        Some(ResolutionError::ExampleNotFound)
    );
    let specs = vec![
        ResponseSpec::from_status(200),
        ResponseSpec::from_json_example(500, "boom"),
        ResponseSpec::from_json_example(201, "created"),
    ];
    assert_eq!(resolve_expected(&specs, &op).err(), Some(ResolutionError::ExampleNotFound));
    let good = vec![ResponseSpec::from_status(200), ResponseSpec::from_json_example(201, "created")];
    let resolved = resolve_expected(&good, &op).unwrap();
    assert_eq!(resolved.len(), 2);
    assert_eq!(resolved[0].status, ExpectedStatus::Exactly(200));
    assert_eq!(resolved[1].status, ExpectedStatus::Exactly(201));
}

#[test]
fn well_formed_request_needs_status_and_body_of_one_candidate() {
    let op = widgets();
    let expected = resolve_expected(
        &vec![
            ResponseSpec::from_json_example(201, "created"),
            ResponseSpec::from_status(202),
        ],
        &op,
    )
    .unwrap();
    let cmp = BodyComparison::JsonLayout;
    assert!(judge(false, &expected, &response(201, "{\"id\":1,\"name\":\"gear\"}"), cmp));
    assert!(!judge(false, &expected, &response(201, "{\"name\":\"gear\",\"id\":1}"), cmp));
    assert!(judge(
        false,
        &expected,
        &response(201, "{\"name\":\"gear\",\"id\":1}"),
        BodyComparison::JsonValue
    ));
    assert!(judge(false, &expected, &response(202, "anything"), cmp));
    assert!(!judge(false, &expected, &response(201, "{\"id\":2,\"name\":\"gear\"}"), cmp));
    assert!(!judge(false, &expected, &response(200, "{\"id\":1,\"name\":\"gear\"}"), cmp));
    assert!(!judge(
        false,
        &expected,
        &response(201, "{\"id\":1,\"name\":\"gear\"}"),
        BodyComparison::Exact
    ));
    assert!(judge(
        false,
        &expected,
        &response(201, "{\"id\": 1, \"name\": \"gear\"}"),
        BodyComparison::Exact
    ));
    let nothing: Vec<ExpectedResponse> = vec![];
    assert!(!judge(false, &nothing, &response(200, ""), cmp));
    assert!(!judge(true, &nothing, &response(400, ""), cmp));
}

#[test]
fn class_candidate_accepts_any_status_of_the_class() {
    let expected =
        vec![ExpectedResponse { status: ExpectedStatus::Within(StatusClass::Success), body: None }];
    let cmp = BodyComparison::Exact;
    assert!(judge(false, &expected, &response(200, "x"), cmp));
    assert!(judge(false, &expected, &response(204, ""), cmp));
    assert!(!judge(false, &expected, &response(404, ""), cmp));
}

#[test]
fn bad_request_is_judged_by_error_class_alone() {
    let refused = vec![ExpectedResponse {
        status: ExpectedStatus::Within(StatusClass::ClientError),
        body: None,
    }];
    let cmp = BodyComparison::JsonLayout;
    assert!(judge(true, &refused, &response(400, "whatever the server says"), cmp));
    assert!(judge(true, &refused, &response(422, ""), cmp));
    assert!(!judge(true, &refused, &response(200, ""), cmp));
    assert!(!judge(true, &refused, &response(500, ""), cmp));

    let exact = vec![ExpectedResponse { status: ExpectedStatus::Exactly(400), body: None }];
    assert!(!judge(true, &exact, &response(400, ""), cmp));
    assert!(judge(false, &exact, &response(400, ""), cmp));

    let success_class =
        vec![ExpectedResponse { status: ExpectedStatus::Within(StatusClass::Success), body: None }];
    assert!(!judge(true, &success_class, &response(200, ""), cmp));

    let either = vec![
        ExpectedResponse { status: ExpectedStatus::Within(StatusClass::ClientError), body: None },
        ExpectedResponse { status: ExpectedStatus::Within(StatusClass::ServerError), body: None },
    ];
    assert!(judge(true, &either, &response(503, ""), cmp));
}

#[test]
fn expectation_is_met_by_reports_each_candidate() {
    let with_body = ExpectedResponse {
        status: ExpectedStatus::Exactly(200),
        body: Some(Bytes::from_static(b"[1, 2]")),
    };
    assert!(with_body.is_met_by(false, &response(200, "[1,2]"), BodyComparison::JsonLayout));
    assert!(!with_body.is_met_by(false, &response(200, "[1,2]"), BodyComparison::Exact));
    assert!(!with_body.is_met_by(false, &response(201, "[1,2]"), BodyComparison::JsonLayout));
    assert!(!with_body.is_met_by(true, &response(200, "[1,2]"), BodyComparison::JsonLayout));
    let copy = with_body.clone();
    assert_eq!(copy.status, ExpectedStatus::Exactly(200));
    assert_eq!(&copy.body.unwrap()[..], b"[1, 2]");
}

#[test]
fn response_can_be_cloned() {
    let mut headers = HeaderMap::new();
    headers.insert("content-type", "application/json".parse().unwrap());
    let r = TestResponse::new(201, headers, Bytes::from("{}"));
    let copy = r.clone();
    assert_eq!(copy.status, 201);
    assert_eq!(copy.headers, r.headers);
    assert_eq!(copy.headers.len(), 1);
    assert_eq!(copy.body, r.body);
}

//! Expected responses and the judgment of an actual response against them.

use crate::body::{bodies_match, body_matches, BodyComparison};
use crate::operation::{find_response_example, OperationSpec, OperationSpecView};
use crate::param::ResolutionError;
use crate::request::json_media_type;
use crate::wire::{bytes_as_slice, bytes_content, header_entries, header_map_clone};
use bytes::Bytes;
use http::header::HeaderMap;
use vstd::prelude::*;

verus! {

/// The five classes of status codes.
#[derive(Clone, Copy, Debug, PartialEq, Eq, Structural)]
pub enum StatusClass {
    Informational,
    Success,
    Redirection,
    ClientError,
    ServerError,
}

impl StatusClass {
    /// The lowest status of the class; the class spans a hundred codes from
    /// there.
    pub open spec fn floor(self) -> int {
        match self {
            StatusClass::Informational => 100,
            StatusClass::Success => 200,
            StatusClass::Redirection => 300,
            StatusClass::ClientError => 400,
            StatusClass::ServerError => 500,
        }
    }

    /// Whether `status` belongs to the class.
    pub open spec fn holds(self, status: u16) -> bool {
        self.floor() <= status < self.floor() + 100
    }

    /// Whether the class is one of the two error classes.
    pub open spec fn is_error(self) -> bool {
        self == StatusClass::ClientError || self == StatusClass::ServerError
    }

    /// Whether `status` belongs to the class.
    pub fn contains(self, status: u16) -> (r: bool)
        ensures
            r == self.holds(status),
    {
        match self {
            StatusClass::Informational => 100 <= status && status < 200,
            StatusClass::Success => 200 <= status && status < 300,
            StatusClass::Redirection => 300 <= status && status < 400,
            StatusClass::ClientError => 400 <= status && status < 500,
            StatusClass::ServerError => 500 <= status && status < 600,
        }
    }

    /// Whether the class is one of the two error classes.
    pub fn error(self) -> (r: bool)
        ensures
            r == self.is_error(),
    {
        match self {
            StatusClass::ClientError => true,
            StatusClass::ServerError => true,
            _ => false,
        }
    }
}

/// What a test expects of a response.
#[derive(Debug)]
pub enum ResponseSpec {
    /// Exactly this status, with any body.
    Status { status: u16 },
    /// Exactly this status, with a body that matches the example which the
    /// operation declares for the status under a media type and a name.
    Example { status: u16, media_type: String, name: String },
    /// Any status of this class, with any body.
    Class { class: StatusClass },
}

/// The mathematical value of an expectation.
pub ghost enum ResponseSpecView {
    Status { status: u16 },
    Example { status: u16, media_type: Seq<char>, name: Seq<char> },
    Class { class: StatusClass },
}

impl View for ResponseSpec {
    type V = ResponseSpecView;

    open spec fn view(&self) -> ResponseSpecView {
        match self {
            ResponseSpec::Status { status } => ResponseSpecView::Status { status: *status },
            ResponseSpec::Example { status, media_type, name } => ResponseSpecView::Example {
                status: *status,
                media_type: media_type@,
                name: name@,
            },
            ResponseSpec::Class { class } => ResponseSpecView::Class { class: *class },
        }
    }
}

impl Clone for ResponseSpec {
    fn clone(&self) -> (out: Self)
        ensures
            out == *self,
    {
        match self {
            ResponseSpec::Status { status } => ResponseSpec::Status { status: *status },
            ResponseSpec::Example { status, media_type, name } => ResponseSpec::Example {
                status: *status,
                media_type: media_type.clone(),
                name: name.clone(),
            },
            ResponseSpec::Class { class } => ResponseSpec::Class { class: *class },
        }
    }
}

/// The values of a list of expectations.
pub open spec fn responses_view(specs: Seq<ResponseSpec>) -> Seq<ResponseSpecView> {
    Seq::new(specs.len(), |i: int| specs[i]@)
}

/// Whether the expectation can stand beside a request that is malformed on
/// purpose: it can if all it asks for is an error class.
pub open spec fn fits_bad_request(spec: ResponseSpecView) -> bool {
    spec matches ResponseSpecView::Class { class } && class.is_error()
}

impl ResponseSpec {
    /// Expects exactly `status`.
    pub fn from_status(status: u16) -> (out: Self)
        ensures
            out@ == (ResponseSpecView::Status { status }),
    {
        ResponseSpec::Status { status }
    }

    /// Expects `status` and the example declared for it under `media_type`
    /// and `name`.
    pub fn from_example(status: u16, media_type: &str, name: &str) -> (out: Self)
        ensures
            out@ == (ResponseSpecView::Example { status, media_type: media_type@, name: name@ }),
    {
        ResponseSpec::Example {
            status,
            media_type: media_type.to_owned(),
            name: name.to_owned(),
        }
    }

    /// Expects `status` and the JSON example declared for it under `name`.
    pub fn from_json_example(status: u16, name: &str) -> (out: Self)
        ensures
            out@ == (ResponseSpecView::Example {
                status,
                media_type: json_media_type(),
                name: name@,
            }),
    {
        ResponseSpec::Example {
            status,
            media_type: "application/json".to_owned(),
            name: name.to_owned(),
        }
    }

    /// Expects any status of `class`.
    pub fn from_class(class: StatusClass) -> (out: Self)
        ensures
            out@ == (ResponseSpecView::Class { class }),
    {
        ResponseSpec::Class { class }
    }

    /// Expects the target to refuse the request: any status from 400 to 499.
    pub fn client_error() -> (out: Self)
        ensures
            out@ == (ResponseSpecView::Class { class: StatusClass::ClientError }),
            fits_bad_request(out@),
    {
        ResponseSpec::Class { class: StatusClass::ClientError }
    }

    /// Whether the expectation can stand beside a request that is malformed
    /// on purpose.
    pub fn suits_bad_request(&self) -> (r: bool)
        ensures
            r == fits_bad_request(self@),
    {
        match self {
            ResponseSpec::Class { class } => class.error(),
            _ => false,
        }
    }
}

/// The status that a resolved expectation asks for.
#[derive(Clone, Copy, Debug, PartialEq, Eq, Structural)]
pub enum ExpectedStatus {
    Exactly(u16),
    Within(StatusClass),
}

/// A resolved expectation: the status asked for and, where a body is asked
/// for, its bytes.
#[derive(Debug)]
pub struct ExpectedResponse {
    pub status: ExpectedStatus,
    pub body: Option<Bytes>,
}

/// The mathematical value of a resolved expectation.
pub ghost struct ExpectedView {
    pub status: ExpectedStatus,
    pub body: Option<Seq<u8>>,
}

impl View for ExpectedResponse {
    type V = ExpectedView;

    open spec fn view(&self) -> ExpectedView {
        ExpectedView {
            status: self.status,
            body: match self.body {
                Some(bytes) => Some(bytes_content(bytes)),
                None => None,
            },
        }
    }
}

impl Clone for ExpectedResponse {
    fn clone(&self) -> (out: Self)
        ensures
            out@ == self@,
    {
        ExpectedResponse {
            status: self.status,
            body: match &self.body {
                Some(bytes) => Some(bytes.clone()),
                None => None,
            },
        }
    }
}

/// The values of a list of resolved expectations.
pub open spec fn expected_view(expected: Seq<ExpectedResponse>) -> Seq<ExpectedView> {
    Seq::new(expected.len(), |i: int| expected[i]@)
}

/// What `spec` expects under the declarations `op`, or `ExampleNotFound` when
/// it refers to an example that `op` does not declare.
pub open spec fn resolve_response(spec: ResponseSpecView, op: OperationSpecView) -> Result<
    ExpectedView,
    ResolutionError,
> {
    match spec {
        ResponseSpecView::Status { status } => Ok(
            ExpectedView { status: ExpectedStatus::Exactly(status), body: None },
        ),
        ResponseSpecView::Example { status, media_type, name } => match find_response_example(
            op.response_examples,
            status,
            media_type,
            name,
        ) {
            Some(body) => Ok(
                ExpectedView { status: ExpectedStatus::Exactly(status), body: Some(body) },
            ),
            None => Err(ResolutionError::ExampleNotFound),
        },
        ResponseSpecView::Class { class } => Ok(
            ExpectedView { status: ExpectedStatus::Within(class), body: None },
        ),
    }
}

/// What the expectations `specs` expect under `op`, in their order, or the
/// reason why the first of them that cannot be resolved cannot.
pub open spec fn resolve_responses(specs: Seq<ResponseSpecView>, op: OperationSpecView) -> Result<
    Seq<ExpectedView>,
    ResolutionError,
>
    decreases specs.len(),
{
    if specs.len() == 0 {
        Ok(Seq::empty())
    } else {
        match resolve_responses(specs.drop_last(), op) {
            Err(e) => Err(e),
            Ok(before) => match resolve_response(specs.last(), op) {
                Err(e) => Err(e),
                Ok(last) => Ok(before.push(last)),
            },
        }
    }
}

impl ResponseSpec {
    /// Resolves the expectation under the declarations `op_spec`.
    pub fn resolve(&self, op_spec: &OperationSpec) -> (r: Result<
        ExpectedResponse,
        ResolutionError,
    >)
        ensures
            match r {
                Ok(expected) => resolve_response(self@, op_spec@) == Ok::<
                    ExpectedView,
                    ResolutionError,
                >(expected@),
                Err(e) => resolve_response(self@, op_spec@) == Err::<ExpectedView, ResolutionError>(
                    e,
                ),
            },
    {
        match self {
            ResponseSpec::Status { status } => Ok(
                ExpectedResponse { status: ExpectedStatus::Exactly(*status), body: None },
            ),
            ResponseSpec::Example { status, media_type, name } => match op_spec.response_example(
                *status,
                media_type,
                name,
            ) {
                Some(body) => Ok(
                    ExpectedResponse {
                        status: ExpectedStatus::Exactly(*status),
                        body: Some(body.clone()),
                    },
                ),
                None => Err(ResolutionError::ExampleNotFound),
            },
            ResponseSpec::Class { class } => Ok(
                ExpectedResponse { status: ExpectedStatus::Within(*class), body: None },
            ),
        }
    }
}

/// Resolves the expectations `specs` under the declarations `op_spec`, in
/// their order; the first that cannot be resolved decides the error.
pub fn resolve_expected(specs: &Vec<ResponseSpec>, op_spec: &OperationSpec) -> (r: Result<
    Vec<ExpectedResponse>,
    ResolutionError,
>)
    ensures
        match r {
            Ok(expected) => resolve_responses(responses_view(specs@), op_spec@) == Ok::<
                Seq<ExpectedView>,
                ResolutionError,
            >(expected_view(expected@)),
            Err(e) => resolve_responses(responses_view(specs@), op_spec@) == Err::<
                Seq<ExpectedView>,
                ResolutionError,
            >(e),
        },
{
    let mut out: Vec<ExpectedResponse> = Vec::new();
    let mut i: usize = 0;
    assert(responses_view(specs@).take(0) =~= Seq::empty());
    assert(expected_view(out@) =~= Seq::empty());
    while i < specs.len()
        invariant
            i <= specs.len(),
            resolve_responses(responses_view(specs@).take(i as int), op_spec@) == Ok::<
                Seq<ExpectedView>,
                ResolutionError,
            >(expected_view(out@)),
        decreases specs.len() - i,
    {
        let ghost upto = responses_view(specs@).take(i + 1);
        assert(upto.last() == specs@[i as int]@);
        assert(upto.drop_last() =~= responses_view(specs@).take(i as int));
        match specs[i].resolve(op_spec) {
            Ok(expected) => {
                let ghost before = expected_view(out@);
                out.push(expected);
                assert(expected_view(out@) =~= before.push(expected@));
            },
            Err(e) => {
                proof {
                    lemma_resolution_stops(responses_view(specs@), op_spec@, i + 1);
                }
                return Err(e);
            },
        }
        i += 1;
    }
    assert(responses_view(specs@).take(specs.len() as int) =~= responses_view(specs@));
    Ok(out)
}

/// Once a prefix of the expectations cannot be resolved, the whole list fails
/// for the same reason.
pub proof fn lemma_resolution_stops(specs: Seq<ResponseSpecView>, op: OperationSpecView, n: int)
    requires
        0 <= n <= specs.len(),
        resolve_responses(specs.take(n), op) is Err,
    ensures
        resolve_responses(specs, op) == resolve_responses(specs.take(n), op),
    decreases specs.len() - n,
{
    if n == specs.len() {
        assert(specs.take(n) =~= specs);
    } else {
        assert(specs.take(n + 1).drop_last() =~= specs.take(n));
        lemma_resolution_stops(specs, op, n + 1);
    }
}

/// A response as the target gave it.
#[derive(Debug)]
pub struct TestResponse {
    pub status: u16,
    pub headers: HeaderMap,
    pub body: Bytes,
}

impl TestResponse {
    pub fn new(status: u16, headers: HeaderMap, body: Bytes) -> (out: Self)
        ensures
            out == (TestResponse { status, headers, body }),
    {
        TestResponse { status, headers, body }
    }
}

impl Clone for TestResponse {
    fn clone(&self) -> (out: Self)
        ensures
            out.status == self.status,
            header_entries(out.headers) == header_entries(self.headers),
            bytes_content(out.body) == bytes_content(self.body),
    {
        TestResponse {
            status: self.status,
            headers: header_map_clone(&self.headers),
            body: self.body.clone(),
        }
    }
}

/// Whether `status` is what `expected` asks for.
pub open spec fn status_matches(expected: ExpectedStatus, status: u16) -> bool {
    match expected {
        ExpectedStatus::Exactly(s) => status == s,
        ExpectedStatus::Within(class) => class.holds(status),
    }
}

/// Whether a response with `status` and `body` meets `expected` as the answer
/// to a well-formed request: the status is the one asked for and, where a body
/// is asked for, the body matches it.
pub open spec fn accepts(
    expected: ExpectedView,
    status: u16,
    body: Seq<u8>,
    comparison: BodyComparison,
) -> bool {
    status_matches(expected.status, status) && match expected.body {
        Some(bytes) => body_matches(bytes, body, comparison),
        None => true,
    }
}

/// Whether a response with `status` meets `expected` as the answer to a
/// request that is malformed on purpose: `expected` asks for an error class,
/// and the status is in it. No body is looked at.
pub open spec fn accepts_refusal(expected: ExpectedView, status: u16) -> bool {
    expected.status matches ExpectedStatus::Within(class) && class.is_error() && class.holds(
        status,
    )
}

/// Whether a response with `status` and `body` conforms: whether it meets at
/// least one of the candidates in `expected`, under the rule for malformed
/// requests when `bad` is set and under the rule for well-formed ones when it
/// is not.
pub open spec fn conforms(
    bad: bool,
    expected: Seq<ExpectedView>,
    status: u16,
    body: Seq<u8>,
    comparison: BodyComparison,
) -> bool {
    exists|i: int|
        0 <= i < expected.len() && if bad {
            accepts_refusal(#[trigger] expected[i], status)
        } else {
            accepts(expected[i], status, body, comparison)
        }
}

impl ExpectedResponse {
    /// Whether `response` meets this expectation; see `accepts` and
    /// `accepts_refusal`.
    pub fn is_met_by(&self, bad: bool, response: &TestResponse, comparison: BodyComparison) -> (r:
        bool)
        ensures
            r == if bad {
                accepts_refusal(self@, response.status)
            } else {
                accepts(self@, response.status, bytes_content(response.body), comparison)
            },
    {
        if bad {
            match self.status {
                ExpectedStatus::Within(class) => class.error() && class.contains(response.status),
                ExpectedStatus::Exactly(_) => false,
            }
        } else {
            let status_ok = match self.status {
                ExpectedStatus::Exactly(s) => response.status == s,
                ExpectedStatus::Within(class) => class.contains(response.status),
            };
            if !status_ok {
                return false;
            }
            match &self.body {
                Some(bytes) => bodies_match(
                    bytes_as_slice(bytes),
                    bytes_as_slice(&response.body),
                    comparison,
                ),
                None => true,
            }
        }
    }
}

/// Judges `response` against the candidates `expected`: it conforms when it
/// meets at least one of them.
pub fn judge(
    bad: bool,
    expected: &Vec<ExpectedResponse>,
    response: &TestResponse,
    comparison: BodyComparison,
) -> (r: bool)
    ensures
        r == conforms(
            bad,
            expected_view(expected@),
            response.status,
            bytes_content(response.body),
            comparison,
        ),
{
    let mut i: usize = 0;
    while i < expected.len()
        invariant
            i <= expected.len(),
            forall|k: int|
                0 <= k < i ==> !(if bad {
                    accepts_refusal(#[trigger] expected_view(expected@)[k], response.status)
                } else {
                    accepts(
                        expected_view(expected@)[k],
                        response.status,
                        bytes_content(response.body),
                        comparison,
                    )
                }),
        decreases expected.len() - i,
    {
        if expected[i].is_met_by(bad, response, comparison) {
            assert(expected_view(expected@)[i as int] == expected@[i as int]@);
            return true;
        }
        assert(expected_view(expected@)[i as int] == expected@[i as int]@);
        i += 1;
    }
    false
}

} // verus!

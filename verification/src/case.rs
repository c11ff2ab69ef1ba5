//! Test cases: an operation, the request to send, and the responses that
//! count as conforming.

use crate::body::BodyComparison;
use crate::operation::{find_operation, ApiDescription, OperationSpecView, OperationView, TestOperation};
use crate::param::ResolutionError;
use crate::request::{plan_request, resolves_to, RequestSpec, RequestSpecView, TestRequest};
use crate::response::{
    expected_view, fits_bad_request, resolve_expected, resolve_responses, responses_view,
    ExpectedResponse, ResponseSpec, ResponseSpecView,
};
use vstd::prelude::*;

verus! {

/// Why a test case cannot be built.
#[derive(Clone, Copy, Debug, PartialEq, Eq, Structural)]
pub enum ConfigError {
    /// No response is listed as conforming.
    NoResponseSpec,
    /// The request is malformed on purpose, yet a listed response asks for
    /// more than an error class.
    BadRequestExpectsSuccess,
}

/// A test case: the operation under test, the request to send, the responses
/// of which any one counts as conforming, and the rule for comparing bodies.
///
/// A test case exists only if its request and its responses go together (see
/// `well_paired`): it is made by `TestCase::new`, which refuses the others,
/// and nothing changes it afterwards.
#[derive(Debug)]
pub struct TestCase {
    operation: TestOperation,
    request: RequestSpec,
    responses: Vec<ResponseSpec>,
    comparison: BodyComparison,
}

/// The mathematical value of a test case.
pub ghost struct TestCaseView {
    pub operation: OperationView,
    pub request: RequestSpecView,
    pub responses: Seq<ResponseSpecView>,
    pub comparison: BodyComparison,
}

impl View for TestCase {
    type V = TestCaseView;

    closed spec fn view(&self) -> TestCaseView {
        TestCaseView {
            operation: self.operation@,
            request: self.request@,
            responses: responses_view(self.responses@),
            comparison: self.comparison,
        }
    }
}

/// Whether every expectation in `responses` can stand beside a request that
/// is malformed on purpose.
pub open spec fn all_fit_bad_request(responses: Seq<ResponseSpecView>) -> bool {
    forall|i: int| 0 <= i < responses.len() ==> fits_bad_request(#[trigger] responses[i])
}

/// Whether a request and the responses listed for it go together: there is at
/// least one response, and a request that is malformed on purpose is paired
/// with error classes only.
pub open spec fn well_paired(request: RequestSpecView, responses: Seq<ResponseSpecView>) -> bool {
    responses.len() > 0 && (request.bad ==> all_fit_bad_request(responses))
}

/// A test case with what it resolved to.
#[derive(Debug)]
pub struct ResolvedCase {
    pub request: TestRequest,
    pub expected: Vec<ExpectedResponse>,
    pub bad: bool,
    pub comparison: BodyComparison,
}

/// Whether `r` is an outcome of resolving `case` under the API description
/// `api`. Without an entry for the operation the outcome is
/// `NoSuchOperation`. Otherwise the request is resolved, then the expected
/// responses; the outcome is both, or the first error met.
pub open spec fn case_resolves_to(
    case: TestCaseView,
    api: Seq<OperationSpecView>,
    r: Result<ResolvedCase, ResolutionError>,
) -> bool {
    match find_operation(api, case.operation) {
        None => r matches Err(e) && e == ResolutionError::NoSuchOperation,
        Some(op) => match r {
            Ok(resolved) => {
                &&& resolves_to(case.request, op, Ok(resolved.request))
                &&& resolve_responses(case.responses, op) == Ok::<_, ResolutionError>(
                    expected_view(resolved.expected@),
                )
                &&& resolved.bad == case.request.bad
                &&& resolved.comparison == case.comparison
            },
            Err(e) => {
                ||| resolves_to(case.request, op, Err(e))
                ||| (plan_request(case.request, op) is Ok && resolve_responses(case.responses, op)
                    == Err::<Seq<crate::response::ExpectedView>, _>(e))
            },
        },
    }
}

impl TestCase {
    #[verifier::type_invariant]
    spec fn paired(self) -> bool {
        well_paired(self.request@, responses_view(self.responses@))
    }

    /// The test case that sends `request` to `operation` and accepts any of
    /// `responses`, compared under the default rule for bodies.
    ///
    /// A case is refused before anything is resolved or sent: with
    /// `NoResponseSpec` when `responses` is empty, and with
    /// `BadRequestExpectsSuccess` when the request is marked bad and some
    /// response asks for more than an error class.
    pub fn new(operation: TestOperation, request: RequestSpec, responses: Vec<ResponseSpec>) -> (r:
        Result<TestCase, ConfigError>)
        ensures
            match r {
                Ok(case) => well_paired(request@, responses_view(responses@)) && case@
                    == (TestCaseView {
                    operation: operation@,
                    request: request@,
                    responses: responses_view(responses@),
                    comparison: BodyComparison::JsonValue,
                }),
                Err(e) => !well_paired(request@, responses_view(responses@)) && e == if responses@.len()
                    == 0 {
                    ConfigError::NoResponseSpec
                } else {
                    ConfigError::BadRequestExpectsSuccess
                },
            },
    {
        if responses.len() == 0 {
            return Err(ConfigError::NoResponseSpec);
        }
        if request.bad {
            let mut i: usize = 0;
            while i < responses.len()
                invariant
                    i <= responses.len(),
                    request.bad,
                    forall|k: int|
                        0 <= k < i ==> fits_bad_request(#[trigger] responses_view(responses@)[k]),
                decreases responses.len() - i,
            {
                assert(responses_view(responses@)[i as int] == responses@[i as int]@);
                if !responses[i].suits_bad_request() {
                    return Err(ConfigError::BadRequestExpectsSuccess);
                }
                i += 1;
            }
        }
        Ok(TestCase { operation, request, responses, comparison: BodyComparison::JsonValue })
    }

    /// The same case with bodies compared under `comparison`.
    pub fn with_comparison(self, comparison: BodyComparison) -> (out: Self)
        ensures
            out@ == (TestCaseView { comparison, ..self@ }),
    {
        proof {
            use_type_invariant(&self);
        }
        TestCase {
            operation: self.operation,
            request: self.request,
            responses: self.responses,
            comparison,
        }
    }

    /// The operation under test.
    pub fn operation(&self) -> (out: &TestOperation)
        ensures
            out@ == self@.operation,
    {
        &self.operation
    }

    /// The description of the request. Its responses go with it.
    pub fn request(&self) -> (out: &RequestSpec)
        ensures
            out@ == self@.request,
            well_paired(self@.request, self@.responses),
    {
        proof {
            use_type_invariant(self);
        }
        &self.request
    }

    /// The responses of which any one counts as conforming; there is at least
    /// one.
    pub fn responses(&self) -> (out: &Vec<ResponseSpec>)
        ensures
            responses_view(out@) == self@.responses,
            out@.len() > 0,
    {
        proof {
            use_type_invariant(self);
        }
        &self.responses
    }

    /// The rule for comparing bodies.
    pub fn comparison(&self) -> (out: BodyComparison)
        ensures
            out == self@.comparison,
    {
        self.comparison
    }

    /// Resolves the request and the expected responses of this case under the
    /// API description `api`. Nothing is sent.
    pub fn resolve(&self, api: &ApiDescription) -> (r: Result<ResolvedCase, ResolutionError>)
        ensures
            case_resolves_to(self@, api@, r),
            well_paired(self@.request, self@.responses),
    {
        proof {
            use_type_invariant(self);
        }
        let op_spec = match api.find(&self.operation) {
            Some(op_spec) => op_spec,
            None => {
                return Err(ResolutionError::NoSuchOperation);
            },
        };
        let request = match self.request.resolve(op_spec) {
            Ok(request) => request,
            Err(e) => {
                return Err(e);
            },
        };
        let expected = match resolve_expected(&self.responses, op_spec) {
            Ok(expected) => expected,
            Err(e) => {
                return Err(e);
            },
        };
        Ok(ResolvedCase { request, expected, bad: self.request.bad, comparison: self.comparison })
    }
}

impl Clone for TestCase {
    fn clone(&self) -> (out: Self)
        ensures
            out@ == self@,
    {
        proof {
            use_type_invariant(self);
        }
        let responses = self.responses.clone();
        assert(responses_view(responses@) =~= responses_view(self.responses@));
        TestCase {
            operation: self.operation.clone(),
            request: self.request.clone(),
            responses,
            comparison: self.comparison,
        }
    }
}

} // verus!

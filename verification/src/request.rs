//! Request descriptions and their resolution into concrete requests.

use crate::auth::{query_credential, AuthView, TestAuthorization};
use crate::header::{
    auth_view, build_headers, header_list, header_map_of, headers_ok, request_headers,
};
use crate::operation::{find_request_example, OperationSpec, OperationSpecView, OperationView, TestOperation};
use crate::laws::law_resolved_params_unique;
use crate::param::{
    all_declared, apply_replacements, declare, params_view, put_param, replacements_view,
    resolve_params, unique_params, ParamLocation, ParamReplacement, ParamView, ResolutionError,
    TestParam,
};
use crate::path::{expand, expand_path};
use crate::wire::{bytes_content, header_entries, header_map_clone};
use bytes::Bytes;
use http::header::HeaderMap;
use vstd::prelude::*;
use vstd::string::*;

verus! {

/// Where the body of a request comes from.
#[derive(Debug)]
pub enum RequestSource {
    /// An example that the operation declares under a media type and a name.
    Example { media_type: String, name: String },
    /// Bytes given as they are.
    Raw(Bytes),
    /// No body.
    Empty,
}

/// The mathematical value of a request source.
pub ghost enum SourceView {
    Example { media_type: Seq<char>, name: Seq<char> },
    Raw(Seq<u8>),
    Empty,
}

impl View for RequestSource {
    type V = SourceView;

    open spec fn view(&self) -> SourceView {
        match self {
            RequestSource::Example { media_type, name } => SourceView::Example {
                media_type: media_type@,
                name: name@,
            },
            RequestSource::Raw(bytes) => SourceView::Raw(bytes_content(*bytes)),
            RequestSource::Empty => SourceView::Empty,
        }
    }
}

impl Clone for RequestSource {
    fn clone(&self) -> (out: Self)
        ensures
            out@ == self@,
    {
        match self {
            RequestSource::Example { media_type, name } => RequestSource::Example {
                media_type: media_type.clone(),
                name: name.clone(),
            },
            RequestSource::Raw(bytes) => RequestSource::Raw(bytes.clone()),
            RequestSource::Empty => RequestSource::Empty,
        }
    }
}

/// The description of a request: where its body comes from, whether it is
/// malformed on purpose, how it is authorized, and which declared parameters
/// it overrides, in the order in which the overrides apply.
#[derive(Debug)]
pub struct RequestSpec {
    pub source: RequestSource,
    pub bad: bool,
    pub auth: Option<TestAuthorization>,
    pub params: Vec<ParamReplacement>,
}

/// The mathematical value of a request description.
pub ghost struct RequestSpecView {
    pub source: SourceView,
    pub bad: bool,
    pub auth: Option<AuthView>,
    pub params: Seq<(Seq<char>, Seq<char>)>,
}

impl View for RequestSpec {
    type V = RequestSpecView;

    open spec fn view(&self) -> RequestSpecView {
        RequestSpecView {
            source: self.source@,
            bad: self.bad,
            auth: auth_view(self.auth),
            params: replacements_view(self.params@),
        }
    }
}

impl Clone for RequestSpec {
    fn clone(&self) -> (out: Self)
        ensures
            out@ == self@,
    {
        let params = self.params.clone();
        assert(replacements_view(params@) =~= replacements_view(self.params@));
        RequestSpec {
            source: self.source.clone(),
            bad: self.bad,
            auth: match &self.auth {
                Some(auth) => Some(auth.clone()),
                None => None,
            },
            params,
        }
    }
}

/// The media type of JSON bodies.
pub open spec fn json_media_type() -> Seq<char> {
    "application/json"@
}

/// A resolved request: everything it holds is concrete.
///
/// `params` lists the parameters of the request with their locations, and
/// `headers` holds what is sent as headers: the header parameters and, winning
/// over a parameter of the same header name, the credential. The path to send
/// the request to is `path()`.
#[derive(Debug)]
pub struct TestRequest {
    pub operation: TestOperation,
    pub headers: HeaderMap,
    pub params: Vec<TestParam>,
    pub body: Bytes,
}

/// The mathematical value of a resolved request.
pub ghost struct TestRequestView {
    pub operation: OperationView,
    pub headers: Map<Seq<u8>, Seq<Seq<u8>>>,
    pub params: Seq<ParamView>,
    pub body: Seq<u8>,
}

impl View for TestRequest {
    type V = TestRequestView;

    open spec fn view(&self) -> TestRequestView {
        TestRequestView {
            operation: self.operation@,
            headers: header_entries(self.headers),
            params: params_view(self.params@),
            body: bytes_content(self.body),
        }
    }
}

impl Clone for TestRequest {
    fn clone(&self) -> (out: Self)
        ensures
            out@ == self@,
    {
        let params = self.params.clone();
        assert(params_view(params@) =~= params_view(self.params@));
        TestRequest {
            operation: self.operation.clone(),
            headers: header_map_clone(&self.headers),
            params,
            body: self.body.clone(),
        }
    }
}

/// The body that `source` stands for under the declarations `op`, if it
/// stands for one: the declared example, the raw bytes, or no bytes.
pub open spec fn resolved_body(source: SourceView, op: OperationSpecView) -> Option<Seq<u8>> {
    match source {
        SourceView::Example { media_type, name } => find_request_example(
            op.request_examples,
            media_type,
            name,
        ),
        SourceView::Raw(bytes) => Some(bytes),
        SourceView::Empty => Some(Seq::empty()),
    }
}

/// `params` with the credential of `auth`, if it travels in the query: it
/// takes the place of the query parameter of its name, or comes last.
pub open spec fn with_query_credential(params: Seq<ParamView>, auth: Option<AuthView>) -> Seq<
    ParamView,
> {
    match auth {
        Some(a) => match query_credential(a) {
            Some(q) => declare(
                params,
                ParamView { name: q.0, location: ParamLocation::Query, value: q.1 },
            ),
            None => params,
        },
        None => params,
    }
}

/// The parameters of the request that `spec` describes under `op`: the
/// declared ones after the overrides, then the query credential.
pub open spec fn resolved_params(spec: RequestSpecView, op: OperationSpecView) -> Seq<ParamView> {
    with_query_credential(apply_replacements(op.params, spec.params), spec.auth)
}

/// What resolution decides before a header map is built.
pub ghost struct RequestPlan {
    pub operation: OperationView,
    pub params: Seq<ParamView>,
    pub headers: Seq<(Seq<char>, Seq<char>)>,
    pub body: Seq<u8>,
}

/// The plan for the request that `spec` describes under the declarations
/// `op`, or the reason why there is none. The steps are taken in this order,
/// and the first that fails decides: the body is looked up, the overrides are
/// applied, the credential is added, the path is expanded, the headers are
/// checked.
pub open spec fn plan_request(spec: RequestSpecView, op: OperationSpecView) -> Result<
    RequestPlan,
    ResolutionError,
> {
    match resolved_body(spec.source, op) {
        None => Err(ResolutionError::ExampleNotFound),
        Some(body) => if !all_declared(op.params, spec.params) {
            Err(ResolutionError::UnknownParam)
        } else if expand(op.operation.path, resolved_params(spec, op)) is None {
            Err(ResolutionError::MissingPathParam)
        } else if !headers_ok(request_headers(resolved_params(spec, op), spec.auth)) {
            Err(ResolutionError::InvalidHeader)
        } else {
            Ok(
                RequestPlan {
                    operation: op.operation,
                    params: resolved_params(spec, op),
                    headers: request_headers(resolved_params(spec, op), spec.auth),
                    body,
                },
            )
        },
    }
}

/// The request that carries out `plan`.
pub open spec fn planned(plan: RequestPlan) -> TestRequestView {
    TestRequestView {
        operation: plan.operation,
        headers: header_map_of(plan.headers),
        params: plan.params,
        body: plan.body,
    }
}

/// Whether `r` is an outcome of resolving `spec` under `op`. Where there is no
/// plan, the outcome is the reason. Where there is one, the outcome is the
/// planned request, or `HeaderCapacity` if the header map refused one of the
/// planned headers.
pub open spec fn resolves_to(
    spec: RequestSpecView,
    op: OperationSpecView,
    r: Result<TestRequest, ResolutionError>,
) -> bool {
    match plan_request(spec, op) {
        Err(reason) => r matches Err(e) && e == reason,
        Ok(plan) => match r {
            Ok(request) => request@ == planned(plan),
            Err(e) => e == ResolutionError::HeaderCapacity && plan.headers.len() > 0,
        },
    }
}

impl RequestSpec {
    /// A request without body, authorization or overrides, not marked bad.
    pub fn empty() -> (out: Self)
        ensures
            out@ == (RequestSpecView {
                source: SourceView::Empty,
                bad: false,
                auth: None,
                params: Seq::empty(),
            }),
    {
        let out = Self { source: RequestSource::Empty, bad: false, auth: None, params: Vec::new() };
        assert(out@.params =~= Seq::empty());
        out
    }

    /// A request whose body is the example that the operation declares under
    /// `media_type` and `name`.
    pub fn from_example(media_type: &str, name: &str) -> (out: Self)
        ensures
            out@ == (RequestSpecView {
                source: SourceView::Example { media_type: media_type@, name: name@ },
                bad: false,
                auth: None,
                params: Seq::empty(),
            }),
    {
        Self {
            source: RequestSource::Example {
                media_type: media_type.to_owned(),
                name: name.to_owned(),
            },
            ..Self::empty()
        }
    }

    /// A request whose body is the JSON example that the operation declares
    /// under `name`.
    pub fn from_json_example(name: &str) -> (out: Self)
        ensures
            out@ == (RequestSpecView {
                source: SourceView::Example { media_type: json_media_type(), name: name@ },
                bad: false,
                auth: None,
                params: Seq::empty(),
            }),
    {
        Self {
            source: RequestSource::Example {
                media_type: "application/json".to_owned(),
                name: name.to_owned(),
            },
            ..Self::empty()
        }
    }

    /// A request whose body is `body` as it stands. Bytes that come from
    /// outside the API description are taken to be malformed, so the request
    /// is marked bad, whatever the bytes are.
    pub fn from_bad_raw(body: Bytes) -> (out: Self)
        ensures
            out.bad,
            out@ == (RequestSpecView {
                source: SourceView::Raw(bytes_content(body)),
                bad: true,
                auth: None,
                params: Seq::empty(),
            }),
    {
        Self { source: RequestSource::Raw(body), bad: true, ..Self::empty() }
    }

    /// The same request, authorized by `auth`. An authorization attached
    /// earlier is replaced.
    pub fn with_auth(self, auth: &TestAuthorization) -> (out: Self)
        ensures
            out@ == (RequestSpecView { auth: Some(auth@), ..self@ }),
    {
        Self { auth: Some(auth.clone()), ..self }
    }

    /// The same request with one more override, applied after those it has.
    pub fn add_param(self, name: &str, val: &str) -> (out: Self)
        ensures
            out@ == (RequestSpecView { params: self@.params.push((name@, val@)), ..self@ }),
    {
        let ghost before = self@;
        let mut this = self;
        let param = ParamReplacement::new(name, val);
        this.params.push(param);
        assert(this@.params =~= before.params.push((name@, val@)));
        this
    }

    /// Resolves this description under the declarations `op_spec` into a
    /// concrete request for that operation. Nothing is sent.
    ///
    /// The body is the declared example, the raw bytes or empty. Each declared
    /// parameter comes out once, with the value of the last override naming it
    /// or its declared value; a credential for the query takes the place of
    /// the query parameter of its name or is added. The headers are the header
    /// parameters and, after them, a credential for a header.
    ///
    /// Fails, in this order, with `ExampleNotFound` when the example is not
    /// declared, `UnknownParam` when an override names an undeclared
    /// parameter, `MissingPathParam` when the path keeps an unfilled token,
    /// and `InvalidHeader` when a header is not allowed by HTTP. With all
    /// that in order it fails only if the header map refuses a header.
    ///
    /// Where the operation declares each parameter once per location, the
    /// request carries each once per location.
    pub fn resolve(&self, op_spec: &OperationSpec) -> (r: Result<TestRequest, ResolutionError>)
        ensures
            resolves_to(self@, op_spec@, r),
            r is Ok && unique_params(op_spec@.params) ==> unique_params(r->Ok_0@.params),
    {
        proof {
            if unique_params(op_spec@.params) {
                law_resolved_params_unique(self@, op_spec@);
            }
        }
        let body = match &self.source {
            RequestSource::Example { media_type, name } => match op_spec.request_example(
                media_type,
                name,
            ) {
                Some(example) => example.clone(),
                None => {
                    return Err(ResolutionError::ExampleNotFound);
                },
            },
            RequestSource::Raw(bytes) => bytes.clone(),
            RequestSource::Empty => Bytes::new(),
        };
        let mut params = match resolve_params(&op_spec.params, &self.params) {
            Ok(params) => params,
            Err(e) => {
                return Err(e);
            },
        };
        match &self.auth {
            Some(auth) => match auth.query() {
                Some(pair) => {
                    let (name, value) = pair;
                    put_param(&mut params, TestParam { name, location: ParamLocation::Query, value });
                },
                None => {},
            },
            None => {},
        }
        assert(params_view(params@) == resolved_params(self@, op_spec@));
        match expand_path(op_spec.operation.path.as_str(), &params) {
            Ok(_) => {},
            Err(e) => {
                return Err(e);
            },
        }
        let list = header_list(&params, &self.auth);
        let headers = match build_headers(&list) {
            Ok(headers) => headers,
            Err(e) => {
                return Err(e);
            },
        };
        Ok(TestRequest { operation: op_spec.operation.clone(), headers, params, body })
    }
}

impl TestRequest {
    /// The path to send the request to: the operation's path template with
    /// the path parameters of the request filled in.
    pub fn path(&self) -> (r: Result<String, ResolutionError>)
        ensures
            match r {
                Ok(path) => expand(self@.operation.path, self@.params) == Some(path@),
                Err(e) => expand(self@.operation.path, self@.params) is None && e
                    == ResolutionError::MissingPathParam,
            },
    {
        expand_path(self.operation.path.as_str(), &self.params)
    }
}

} // verus!

//! Operations and what the API description declares for each: parameters with
//! their example values, and example bodies for requests and responses.

use crate::param::{
    all_unique, declare, params_view, put_param, unique_params, ParamLocation, ParamView, TestParam,
};
use crate::wire::bytes_content;
use bytes::Bytes;
use vstd::prelude::*;

verus! {

/// The method of an operation.
#[derive(Clone, Copy, Debug, PartialEq, Eq, Structural)]
pub enum Method {
    Get,
    Head,
    Post,
    Put,
    Patch,
    Delete,
    Options,
    Trace,
    Connect,
}

/// One operation of the API under test.
#[derive(Debug)]
pub struct TestOperation {
    pub method: Method,
    pub path: String,
    pub operation_id: String,
}

/// The mathematical value of an operation.
pub ghost struct OperationView {
    pub method: Method,
    pub path: Seq<char>,
    pub operation_id: Seq<char>,
}

impl View for TestOperation {
    type V = OperationView;

    open spec fn view(&self) -> OperationView {
        OperationView { method: self.method, path: self.path@, operation_id: self.operation_id@ }
    }
}

impl Clone for TestOperation {
    fn clone(&self) -> (out: Self)
        ensures
            out == *self,
    {
        TestOperation {
            method: self.method,
            path: self.path.clone(),
            operation_id: self.operation_id.clone(),
        }
    }
}

/// Whether two operations are the same one: they are, whatever their
/// identifiers, when method and path agree.
pub open spec fn same_operation(a: OperationView, b: OperationView) -> bool {
    a.method == b.method && a.path == b.path
}

impl PartialEq for TestOperation {
    fn eq(&self, other: &Self) -> (r: bool) {
        self.method == other.method && self.path == other.path
    }
}

impl Eq for TestOperation {

}

impl vstd::std_specs::cmp::PartialEqSpecImpl for TestOperation {
    open spec fn obeys_eq_spec() -> bool {
        true
    }

    open spec fn eq_spec(&self, other: &Self) -> bool {
        self.method == other.method && self.path@ == other.path@
    }
}

impl TestOperation {
    /// The operation `method path`, known to the API description as
    /// `operation_id`.
    pub fn new(method: Method, path: &str, operation_id: &str) -> (out: Self)
        ensures
            out@ == (OperationView { method, path: path@, operation_id: operation_id@ }),
    {
        TestOperation { method, path: path.to_owned(), operation_id: operation_id.to_owned() }
    }
}

/// An example request body that an operation declares.
#[derive(Debug, Clone)]
pub struct RequestExample {
    pub media_type: String,
    pub name: String,
    pub body: Bytes,
}

/// The mathematical value of an example request body.
pub ghost struct RequestExampleView {
    pub media_type: Seq<char>,
    pub name: Seq<char>,
    pub body: Seq<u8>,
}

impl View for RequestExample {
    type V = RequestExampleView;

    open spec fn view(&self) -> RequestExampleView {
        RequestExampleView {
            media_type: self.media_type@,
            name: self.name@,
            body: bytes_content(self.body),
        }
    }
}

/// An example response body that an operation declares for a status.
#[derive(Debug, Clone)]
pub struct ResponseExample {
    pub status: u16,
    pub media_type: String,
    pub name: String,
    pub body: Bytes,
}

/// The mathematical value of an example response body.
pub ghost struct ResponseExampleView {
    pub status: u16,
    pub media_type: Seq<char>,
    pub name: Seq<char>,
    pub body: Seq<u8>,
}

impl View for ResponseExample {
    type V = ResponseExampleView;

    open spec fn view(&self) -> ResponseExampleView {
        ResponseExampleView {
            status: self.status,
            media_type: self.media_type@,
            name: self.name@,
            body: bytes_content(self.body),
        }
    }
}

/// What the API description declares for one operation.
#[derive(Debug, Clone)]
pub struct OperationSpec {
    pub operation: TestOperation,
    pub params: Vec<TestParam>,
    pub request_examples: Vec<RequestExample>,
    pub response_examples: Vec<ResponseExample>,
}

/// The mathematical value of an operation's declarations.
pub ghost struct OperationSpecView {
    pub operation: OperationView,
    pub params: Seq<ParamView>,
    pub request_examples: Seq<RequestExampleView>,
    pub response_examples: Seq<ResponseExampleView>,
}

impl View for OperationSpec {
    type V = OperationSpecView;

    open spec fn view(&self) -> OperationSpecView {
        OperationSpecView {
            operation: self.operation@,
            params: params_view(self.params@),
            request_examples: Seq::new(
                self.request_examples@.len(),
                |i: int| self.request_examples@[i]@,
            ),
            response_examples: Seq::new(
                self.response_examples@.len(),
                |i: int| self.response_examples@[i]@,
            ),
        }
    }
}

/// The body of the first example request of that media type and name.
pub open spec fn find_request_example(
    examples: Seq<RequestExampleView>,
    media_type: Seq<char>,
    name: Seq<char>,
) -> Option<Seq<u8>>
    decreases examples.len(),
{
    if examples.len() == 0 {
        None
    } else if examples[0].media_type == media_type && examples[0].name == name {
        Some(examples[0].body)
    } else {
        find_request_example(examples.drop_first(), media_type, name)
    }
}

/// The body of the first example response of that status, media type and name.
pub open spec fn find_response_example(
    examples: Seq<ResponseExampleView>,
    status: u16,
    media_type: Seq<char>,
    name: Seq<char>,
) -> Option<Seq<u8>>
    decreases examples.len(),
{
    if examples.len() == 0 {
        None
    } else if examples[0].status == status && examples[0].media_type == media_type
        && examples[0].name == name {
        Some(examples[0].body)
    } else {
        find_response_example(examples.drop_first(), status, media_type, name)
    }
}

impl OperationSpec {
    /// An operation that declares no parameter and no example.
    pub fn new(operation: TestOperation) -> (out: Self)
        ensures
            out@ == (OperationSpecView {
                operation: operation@,
                params: Seq::empty(),
                request_examples: Seq::empty(),
                response_examples: Seq::empty(),
            }),
    {
        let out = OperationSpec {
            operation,
            params: Vec::new(),
            request_examples: Vec::new(),
            response_examples: Vec::new(),
        };
        assert(out@.params =~= Seq::empty());
        assert(out@.request_examples =~= Seq::empty());
        assert(out@.response_examples =~= Seq::empty());
        out
    }

    /// Declares the parameter `name` at `location` with the example value
    /// `example`. A parameter already declared under that name and location is
    /// replaced, so that names stay unique per location.
    pub fn declare_param(self, name: &str, location: ParamLocation, example: &str) -> (out: Self)
        ensures
            out@ == (OperationSpecView {
                params: declare(
                    self@.params,
                    ParamView { name: name@, location, value: example@ },
                ),
                ..self@
            }),
    {
        let ghost before = self@;
        let mut this = self;
        put_param(&mut this.params, TestParam::new(name, location, example));
        assert(this@.request_examples =~= before.request_examples);
        assert(this@.response_examples =~= before.response_examples);
        this
    }

    /// Whether the operation declares each parameter once per location, as
    /// `declare_param` keeps it.
    pub fn has_unique_params(&self) -> (r: bool)
        ensures
            r == unique_params(self@.params),
    {
        all_unique(&self.params)
    }

    /// Declares an example request body.
    pub fn add_request_example(self, media_type: &str, name: &str, body: Bytes) -> (out: Self)
        ensures
            out@ == (OperationSpecView {
                request_examples: self@.request_examples.push(
                    RequestExampleView {
                        media_type: media_type@,
                        name: name@,
                        body: bytes_content(body),
                    },
                ),
                ..self@
            }),
    {
        let ghost before = self@;
        let mut this = self;
        this.request_examples.push(
            RequestExample { media_type: media_type.to_owned(), name: name.to_owned(), body },
        );
        assert(this@.request_examples =~= before.request_examples.push(
            RequestExampleView { media_type: media_type@, name: name@, body: bytes_content(body) },
        ));
        assert(this@.response_examples =~= before.response_examples);
        assert(this@.params =~= before.params);
        this
    }

    /// Declares an example response body for `status`.
    pub fn add_response_example(
        self,
        status: u16,
        media_type: &str,
        name: &str,
        body: Bytes,
    ) -> (out: Self)
        ensures
            out@ == (OperationSpecView {
                response_examples: self@.response_examples.push(
                    ResponseExampleView {
                        status,
                        media_type: media_type@,
                        name: name@,
                        body: bytes_content(body),
                    },
                ),
                ..self@
            }),
    {
        let ghost before = self@;
        let mut this = self;
        this.response_examples.push(
            ResponseExample {
                status,
                media_type: media_type.to_owned(),
                name: name.to_owned(),
                body,
            },
        );
        assert(this@.response_examples =~= before.response_examples.push(
            ResponseExampleView {
                status,
                media_type: media_type@,
                name: name@,
                body: bytes_content(body),
            },
        ));
        assert(this@.request_examples =~= before.request_examples);
        assert(this@.params =~= before.params);
        this
    }

    /// The body of the first declared example request of that media type and
    /// name.
    pub fn request_example<'a>(&'a self, media_type: &String, name: &String) -> (found: Option<
        &'a Bytes,
    >)
        ensures
            match find_request_example(self@.request_examples, media_type@, name@) {
                Some(body) => found matches Some(b) && bytes_content(*b) == body,
                None => found is None,
            },
    {
        let mut i: usize = 0;
        assert(self@.request_examples.skip(0) =~= self@.request_examples);
        while i < self.request_examples.len()
            invariant
                i <= self.request_examples.len(),
                find_request_example(self@.request_examples, media_type@, name@)
                    == find_request_example(
                    self@.request_examples.skip(i as int),
                    media_type@,
                    name@,
                ),
            decreases self.request_examples.len() - i,
        {
            let ghost rest = self@.request_examples.skip(i as int);
            assert(rest[0] == self.request_examples@[i as int]@);
            assert(rest.drop_first() =~= self@.request_examples.skip(i + 1));
            let e = &self.request_examples[i];
            if e.media_type == *media_type && e.name == *name {
                return Some(&e.body);
            }
            i += 1;
        }
        None
    }

    /// The body of the first declared example response of that status, media
    /// type and name.
    pub fn response_example<'a>(
        &'a self,
        status: u16,
        media_type: &String,
        name: &String,
    ) -> (found: Option<&'a Bytes>)
        ensures
            match find_response_example(self@.response_examples, status, media_type@, name@) {
                Some(body) => found matches Some(b) && bytes_content(*b) == body,
                None => found is None,
            },
    {
        let mut i: usize = 0;
        assert(self@.response_examples.skip(0) =~= self@.response_examples);
        while i < self.response_examples.len()
            invariant
                i <= self.response_examples.len(),
                find_response_example(self@.response_examples, status, media_type@, name@)
                    == find_response_example(
                    self@.response_examples.skip(i as int),
                    status,
                    media_type@,
                    name@,
                ),
            decreases self.response_examples.len() - i,
        {
            let ghost rest = self@.response_examples.skip(i as int);
            assert(rest[0] == self.response_examples@[i as int]@);
            assert(rest.drop_first() =~= self@.response_examples.skip(i + 1));
            let e = &self.response_examples[i];
            if e.status == status && e.media_type == *media_type && e.name == *name {
                return Some(&e.body);
            }
            i += 1;
        }
        None
    }
}

/// The API description: what is declared for each operation.
#[derive(Debug, Clone)]
pub struct ApiDescription {
    pub operations: Vec<OperationSpec>,
}

impl View for ApiDescription {
    type V = Seq<OperationSpecView>;

    open spec fn view(&self) -> Seq<OperationSpecView> {
        Seq::new(self.operations@.len(), |i: int| self.operations@[i]@)
    }
}

/// The declarations of the first entry in `entries` for the operation
/// `operation`.
pub open spec fn find_operation(entries: Seq<OperationSpecView>, operation: OperationView) -> Option<
    OperationSpecView,
>
    decreases entries.len(),
{
    if entries.len() == 0 {
        None
    } else if same_operation(entries[0].operation, operation) {
        Some(entries[0])
    } else {
        find_operation(entries.drop_first(), operation)
    }
}

impl ApiDescription {
    /// A description without operations.
    pub fn new() -> (out: Self)
        ensures
            out@ == Seq::<OperationSpecView>::empty(),
    {
        let out = ApiDescription { operations: Vec::new() };
        assert(out@ =~= Seq::<OperationSpecView>::empty());
        out
    }

    /// Adds the declarations of one operation.
    pub fn add_operation(self, entry: OperationSpec) -> (out: Self)
        ensures
            out@ == self@.push(entry@),
    {
        let ghost before = self@;
        let mut this = self;
        this.operations.push(entry);
        assert(this@ =~= before.push(entry@));
        this
    }

    /// The declarations for `operation`: those of the first entry with its
    /// method and path.
    pub fn find<'a>(&'a self, operation: &TestOperation) -> (found: Option<&'a OperationSpec>)
        ensures
            match find_operation(self@, operation@) {
                Some(entry) => found matches Some(e) && e@ == entry,
                None => found is None,
            },
    {
        let mut i: usize = 0;
        assert(self@.skip(0) =~= self@);
        while i < self.operations.len()
            invariant
                i <= self.operations.len(),
                find_operation(self@, operation@) == find_operation(
                    self@.skip(i as int),
                    operation@,
                ),
            decreases self.operations.len() - i,
        {
            let ghost rest = self@.skip(i as int);
            assert(rest[0] == self.operations@[i as int]@);
            assert(rest.drop_first() =~= self@.skip(i + 1));
            let e = &self.operations[i];
            if e.operation == *operation {
                return Some(e);
            }
            i += 1;
        }
        None
    }
}

} // verus!

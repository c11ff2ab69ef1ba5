//! Declarative conformance tests for HTTP APIs.
//!
//! A test case names an operation, describes the request to send and lists
//! the responses that count as conforming. The description is resolved
//! against what the API description declares for the operation (example
//! bodies, parameters with example values) into a concrete request. The
//! response of the target is then judged: against the listed candidates for a
//! well-formed request, by its status class alone for a request that is
//! malformed on purpose.
//!
//! Nothing here sends anything. The run of a test case is a state machine
//! whose caller does the sending.

pub mod auth;
pub mod body;
pub mod case;
pub mod header;
pub mod json;
pub mod laws;
pub mod operation;
pub mod param;
pub mod path;
pub mod raw;
pub mod request;
pub mod response;
pub mod run;
pub mod text;
pub mod wire;

pub use auth::{AuthScheme, TestAuthorization};
pub use body::BodyComparison;
pub use case::{ConfigError, ResolvedCase, TestCase};
pub use operation::{
    ApiDescription, Method, OperationSpec, RequestExample, ResponseExample, TestOperation,
};
pub use param::{ParamLocation, ParamReplacement, ResolutionError, TestParam};
pub use request::{RequestSource, RequestSpec, TestRequest};
pub use response::{ExpectedResponse, ExpectedStatus, ResponseSpec, StatusClass, TestResponse};
pub use run::{step, Action, Event, Mismatch, RunError, RunState, TransportError, Verdict};

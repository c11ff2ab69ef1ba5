//! The run of one test case, as a state machine.
//!
//! A run goes from `Pending` through `Resolving`, `Dispatching` and
//! `Validating` to one of `Passed`, `Failed` and `Errored`, and never back.
//! The machine decides; its caller does the sending. After each step the
//! caller does what the returned action says and comes back with the next
//! event.

use crate::case::{case_resolves_to, ResolvedCase, TestCase};
use crate::operation::ApiDescription;
use crate::param::ResolutionError;
use crate::response::{conforms, expected_view, judge, ExpectedResponse, TestResponse};
use crate::wire::bytes_content;
use bytes::Bytes;
use vstd::prelude::*;

verus! {

/// Why a request got no response.
#[derive(Clone, Copy, Debug, PartialEq, Eq, Structural)]
pub enum TransportError {
    Timeout,
    ConnectionFailed,
    ProtocolError,
}

/// Why no judgment could be formed.
#[derive(Clone, Copy, Debug, PartialEq, Eq, Structural)]
pub enum RunError {
    Resolution(ResolutionError),
    Transport(TransportError),
}

/// A response that does not conform, with what was expected in its place.
#[derive(Debug)]
pub struct Mismatch {
    pub expected: Vec<ExpectedResponse>,
    pub status: u16,
    pub body: Bytes,
}

/// How a run ended.
#[derive(Debug)]
pub enum Verdict {
    /// The response conforms.
    Passed,
    /// There was a response, and it does not conform.
    Failed(Mismatch),
    /// There was nothing to judge.
    Errored(RunError),
}

/// The state of a run.
#[derive(Debug)]
pub enum RunState {
    Pending,
    Resolving,
    Dispatching(ResolvedCase),
    Validating(ResolvedCase, TestResponse),
    Passed,
    Failed(Mismatch),
    Errored(RunError),
}

/// What happened since the last step.
#[derive(Debug)]
pub enum Event {
    /// Nothing from outside: the machine may go on.
    Advance,
    /// The target answered the request.
    Responded(TestResponse),
    /// The request got no answer.
    TransportFailed(TransportError),
}

/// What the caller is to do after a step.
#[derive(Clone, Copy, Debug, PartialEq, Eq, Structural)]
pub enum Action {
    /// Step again with `Advance`.
    Continue,
    /// Send the request that the state holds, once, and step with the
    /// outcome.
    Dispatch,
    /// The run has ended; report the verdict.
    Report,
    /// The event did not apply to the state, which is unchanged.
    Ignore,
}

/// How far a run has come.
pub open spec fn rank(state: RunState) -> nat {
    match state {
        RunState::Pending => 0,
        RunState::Resolving => 1,
        RunState::Dispatching(_) => 2,
        RunState::Validating(_, _) => 3,
        RunState::Passed => 4,
        RunState::Failed(_) => 4,
        RunState::Errored(_) => 4,
    }
}

/// Whether the run has ended.
pub open spec fn is_final(state: RunState) -> bool {
    rank(state) == 4
}

/// The state that a run enters when resolution has ended with `result`, and
/// what to do then.
pub open spec fn resolution_step(result: Result<ResolvedCase, ResolutionError>) -> (
    RunState,
    Action,
) {
    match result {
        Ok(resolved) => (RunState::Dispatching(resolved), Action::Dispatch),
        Err(e) => (RunState::Errored(RunError::Resolution(e)), Action::Report),
    }
}

/// The state in which the response `response` to the resolved case
/// `resolved` is judged: `Passed` when it conforms, `Failed` with response and
/// expectations when it does not.
pub open spec fn judged(resolved: ResolvedCase, response: TestResponse) -> RunState {
    if conforms(
        resolved.bad,
        expected_view(resolved.expected@),
        response.status,
        bytes_content(response.body),
        resolved.comparison,
    ) {
        RunState::Passed
    } else {
        RunState::Failed(
            Mismatch { expected: resolved.expected, status: response.status, body: response.body },
        )
    }
}

/// Whether the machine may answer `event` in `state` with `next` and
/// `action`. Every pair of state and event has one answer, except that
/// resolution has the outcomes that `case_resolves_to` allows.
pub open spec fn step_allowed(
    case: TestCase,
    api: ApiDescription,
    state: RunState,
    event: Event,
    next: RunState,
    action: Action,
) -> bool {
    match (state, event) {
        (RunState::Pending, Event::Advance) => next == RunState::Resolving && action
            == Action::Continue,
        (RunState::Resolving, Event::Advance) => exists|result: Result<ResolvedCase, ResolutionError>|
            #[trigger] case_resolves_to(case@, api@, result) && (next, action) == resolution_step(
                result,
            ),
        (RunState::Dispatching(resolved), Event::Responded(response)) => next
            == RunState::Validating(resolved, response) && action == Action::Continue,
        (RunState::Dispatching(_), Event::TransportFailed(e)) => next == RunState::Errored(
            RunError::Transport(e),
        ) && action == Action::Report,
        (RunState::Validating(resolved, response), Event::Advance) => next == judged(
            resolved,
            response,
        ) && action == Action::Report,
        _ => next == state && action == Action::Ignore,
    }
}

impl RunState {
    /// The state of a run that has not begun.
    pub fn new() -> (out: Self)
        ensures
            out == RunState::Pending,
    {
        RunState::Pending
    }

    /// The state after resolution has ended with `result`: on to dispatch
    /// with what was resolved, or ended with the error.
    pub fn after_resolution(result: Result<ResolvedCase, ResolutionError>) -> (out: (
        RunState,
        Action,
    ))
        ensures
            out == resolution_step(result),
    {
        match result {
            Ok(resolved) => (RunState::Dispatching(resolved), Action::Dispatch),
            Err(e) => (RunState::Errored(RunError::Resolution(e)), Action::Report),
        }
    }

    /// The state in which `response` is judged against `resolved`.
    pub fn after_response(resolved: ResolvedCase, response: TestResponse) -> (out: RunState)
        ensures
            out == judged(resolved, response),
    {
        if judge(resolved.bad, &resolved.expected, &response, resolved.comparison) {
            RunState::Passed
        } else {
            RunState::Failed(
                Mismatch {
                    expected: resolved.expected,
                    status: response.status,
                    body: response.body,
                },
            )
        }
    }

    /// The verdict, once the run has ended.
    pub fn verdict(self) -> (out: Option<Verdict>)
        ensures
            match self {
                RunState::Passed => out == Some(Verdict::Passed),
                RunState::Failed(mismatch) => out == Some(Verdict::Failed(mismatch)),
                RunState::Errored(e) => out == Some(Verdict::Errored(e)),
                _ => out is None,
            },
    {
        match self {
            RunState::Passed => Some(Verdict::Passed),
            RunState::Failed(mismatch) => Some(Verdict::Failed(mismatch)),
            RunState::Errored(e) => Some(Verdict::Errored(e)),
            _ => None,
        }
    }

    /// Whether the run has ended.
    pub fn is_over(&self) -> (r: bool)
        ensures
            r == is_final(*self),
    {
        match self {
            RunState::Passed => true,
            RunState::Failed(_) => true,
            RunState::Errored(_) => true,
            _ => false,
        }
    }
}

/// One step of the run of `case` under the API description `api`: the state
/// and the action that answer `event` in `state`.
///
/// `Pending` goes to `Resolving`. `Resolving` resolves the case and goes to
/// `Dispatching`, or ends in `Errored` without anything having been sent.
/// `Dispatching` takes the response and goes to `Validating`, or ends in
/// `Errored` when there is none; nothing is sent again. `Validating` ends in
/// `Passed` or `Failed`. An event that does not apply, and any event once the
/// run has ended, changes nothing.
pub fn step(case: &TestCase, api: &ApiDescription, state: RunState, event: Event) -> (out: (
    RunState,
    Action,
))
    ensures
        step_allowed(*case, *api, state, event, out.0, out.1),
{
    match state {
        RunState::Pending => match event {
            Event::Advance => (RunState::Resolving, Action::Continue),
            _ => (RunState::Pending, Action::Ignore),
        },
        RunState::Resolving => match event {
            Event::Advance => {
                let result = case.resolve(api);
                RunState::after_resolution(result)
            },
            _ => (RunState::Resolving, Action::Ignore),
        },
        RunState::Dispatching(resolved) => match event {
            Event::Responded(response) => (
                RunState::Validating(resolved, response),
                Action::Continue,
            ),
            Event::TransportFailed(e) => (
                RunState::Errored(RunError::Transport(e)),
                Action::Report,
            ),
            Event::Advance => (RunState::Dispatching(resolved), Action::Ignore),
        },
        RunState::Validating(resolved, response) => match event {
            Event::Advance => (RunState::after_response(resolved, response), Action::Report),
            _ => (RunState::Validating(resolved, response), Action::Ignore),
        },
        RunState::Passed => (RunState::Passed, Action::Ignore),
        RunState::Failed(mismatch) => (RunState::Failed(mismatch), Action::Ignore),
        RunState::Errored(e) => (RunState::Errored(e), Action::Ignore),
    }
}

} // verus!

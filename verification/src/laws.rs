//! What holds of resolution, judgment and runs in general.

use crate::body::{body_matches, compact_from, scan_after, scan_before, BodyComparison, Scan};
use crate::json::{
    has_member, is_member, is_space, lemma_same_json_reflexive, lemma_same_json_symmetric,
    lemma_same_json_transitive, parse_document, same_json, JsonView, MemberView,
};
use crate::case::{all_fit_bad_request, well_paired, TestCase};
use crate::auth::{header_credential, query_credential, AuthView};
use crate::header::{header_map_of, header_params, request_headers};
use crate::operation::{ApiDescription, OperationSpecView};
use crate::param::{
    apply_replacements, declare, position_of, unique_params, ParamLocation, ParamView,
    ResolutionError,
};
use crate::path::{expand, expand_from};
use crate::request::{
    plan_request, planned, resolved_params, resolves_to, with_query_credential, RequestSpecView,
    SourceView, TestRequest,
};
use crate::response::{
    accepts, accepts_refusal, conforms, fits_bad_request, resolve_responses, ExpectedStatus,
    ExpectedView, ResponseSpecView,
};
use crate::run::{is_final, rank, step_allowed, Action, Event, RunState};
use crate::wire::{header_name_lower, no_headers};
use vstd::utf8::encode_utf8;
use vstd::prelude::*;

verus! {

/// The last override decides: a declared parameter that some override names
/// comes out with the value of the last override naming it, however many
/// overrides name it and whatever the others say.
pub proof fn law_last_override_wins(
    declared: Seq<ParamView>,
    reps: Seq<(Seq<char>, Seq<char>)>,
    i: int,
    k: int,
)
    requires
        0 <= i < declared.len(),
        0 <= k < reps.len(),
        reps[k].0 == declared[i].name,
        forall|j: int| k < j < reps.len() ==> (#[trigger] reps[j]).0 != declared[i].name,
    ensures
        apply_replacements(declared, reps)[i].value == reps[k].1,
        apply_replacements(declared, reps)[i].name == declared[i].name,
        apply_replacements(declared, reps)[i].location == declared[i].location,
{
    lemma_last_replacement(reps, declared[i].name, k);
}

/// The last override decides what a resolved request carries: where no
/// credential travels in the query, the parameter at `i` has the value of the
/// last override that names it.
pub proof fn law_resolved_value_is_last_override(
    spec: RequestSpecView,
    op: OperationSpecView,
    request: TestRequest,
    i: int,
    k: int,
)
    requires
        resolves_to(spec, op, Ok(request)),
        spec.auth is None,
        0 <= i < op.params.len(),
        0 <= k < spec.params.len(),
        spec.params[k].0 == op.params[i].name,
        forall|j: int| k < j < spec.params.len() ==> (#[trigger] spec.params[j]).0 != op.params[i].name,
    ensures
        request@.params.len() == op.params.len(),
        request@.params[i].name == op.params[i].name,
        request@.params[i].location == op.params[i].location,
        request@.params[i].value == spec.params[k].1,
{
    law_last_override_wins(op.params, spec.params, i, k);
}

/// A parameter that no override names keeps its declared value.
pub proof fn law_untouched_param_keeps_value(
    declared: Seq<ParamView>,
    reps: Seq<(Seq<char>, Seq<char>)>,
    i: int,
)
    requires
        0 <= i < declared.len(),
        forall|j: int| 0 <= j < reps.len() ==> (#[trigger] reps[j]).0 != declared[i].name,
    ensures
        apply_replacements(declared, reps)[i] == declared[i],
{
    lemma_no_replacement(reps, declared[i].name);
}

proof fn lemma_last_replacement(reps: Seq<(Seq<char>, Seq<char>)>, name: Seq<char>, k: int)
    requires
        0 <= k < reps.len(),
        reps[k].0 == name,
        forall|j: int| k < j < reps.len() ==> (#[trigger] reps[j]).0 != name,
    ensures
        crate::param::last_replacement(reps, name) == Some(reps[k].1),
    decreases reps.len(),
{
    if reps.last().0 == name {
        assert(k == reps.len() - 1);
    } else {
        lemma_last_replacement(reps.drop_last(), name, k);
    }
}

proof fn lemma_no_replacement(reps: Seq<(Seq<char>, Seq<char>)>, name: Seq<char>)
    requires
        forall|j: int| 0 <= j < reps.len() ==> (#[trigger] reps[j]).0 != name,
    ensures
        crate::param::last_replacement(reps, name) is None,
    decreases reps.len(),
{
    if reps.len() > 0 {
        assert(reps.last() == reps[reps.len() - 1]);
        assert forall|j: int| 0 <= j < reps.drop_last().len() implies (#[trigger] reps.drop_last()[j]).0
            != name by {
            assert(reps.drop_last()[j] == reps[j]);
        }
        lemma_no_replacement(reps.drop_last(), name);
    }
}

/// Resolution repeats itself: two resolutions of the same description under
/// the same declarations that both succeed give the same request, and so the
/// same body, byte for byte.
pub proof fn law_resolution_repeats(
    spec: RequestSpecView,
    op: OperationSpecView,
    first: Result<TestRequest, ResolutionError>,
    second: Result<TestRequest, ResolutionError>,
)
    requires
        resolves_to(spec, op, first),
        resolves_to(spec, op, second),
        first is Ok,
        second is Ok,
    ensures
        first->Ok_0@ == second->Ok_0@,
        first->Ok_0@.body == second->Ok_0@.body,
{
}

/// Where no header is to be sent, resolution has a single outcome: two
/// resolutions succeed or fail together, and fail for the same reason.
pub proof fn law_resolution_without_headers_is_decided(
    spec: RequestSpecView,
    op: OperationSpecView,
    first: Result<TestRequest, ResolutionError>,
    second: Result<TestRequest, ResolutionError>,
)
    requires
        resolves_to(spec, op, first),
        resolves_to(spec, op, second),
        request_headers(resolved_params(spec, op), spec.auth).len() == 0,
    ensures
        first is Ok <==> second is Ok,
        first is Ok <==> plan_request(spec, op) is Ok,
        first matches Err(e) ==> second == Err::<TestRequest, ResolutionError>(e),
{
}

/// A path template without `{` stands for itself under any parameters.
pub proof fn lemma_literal_path(t: Seq<char>, i: int, params: Seq<ParamView>)
    requires
        0 <= i <= t.len(),
        forall|j: int| 0 <= j < t.len() ==> t[j] != '{',
    ensures
        expand_from(t, i, params) == Some(t.skip(i)),
    decreases t.len() - i,
{
    if i < t.len() {
        lemma_literal_path(t, i + 1, params);
        assert(seq![t[i]] + t.skip(i + 1) =~= t.skip(i));
    } else {
        assert(t.skip(i) =~= Seq::empty());
    }
}

/// The empty description, resolved for an operation that declares no
/// parameter and has no token in its path, gives a request with an empty
/// body, no parameters and no headers; it cannot fail.
pub proof fn law_empty_request(op: OperationSpecView, r: Result<TestRequest, ResolutionError>)
    requires
        op.params.len() == 0,
        forall|j: int| 0 <= j < op.operation.path.len() ==> op.operation.path[j] != '{',
        resolves_to(
            RequestSpecView {
                source: SourceView::Empty,
                bad: false,
                auth: None,
                params: Seq::empty(),
            },
            op,
            r,
        ),
    ensures
        r is Ok,
        r->Ok_0@.body.len() == 0,
        r->Ok_0@.params.len() == 0,
        r->Ok_0@.headers == no_headers(),
        r->Ok_0@.operation == op.operation,
{
    let spec = RequestSpecView {
        source: SourceView::Empty,
        bad: false,
        auth: None,
        params: Seq::empty(),
    };
    assert(resolved_params(spec, op) =~= Seq::empty());
    lemma_literal_path(op.operation.path, 0, Seq::empty());
    assert(header_params(Seq::<ParamView>::empty()) =~= Seq::empty());
}

/// Where `p` goes when it is declared in `params`: to the first parameter of
/// its name and location, which no parameter before that one shares, or past
/// the end.
pub proof fn lemma_position_of(params: Seq<ParamView>, p: ParamView)
    ensures
        0 <= position_of(params, p) <= params.len(),
        position_of(params, p) < params.len() ==> params[position_of(params, p)].name == p.name
            && params[position_of(params, p)].location == p.location,
        forall|j: int|
            0 <= j < position_of(params, p) ==> !((#[trigger] params[j]).name == p.name
                && params[j].location == p.location),
    decreases params.len(),
{
    if params.len() > 0 && !(params[0].name == p.name && params[0].location == p.location) {
        let rest = params.drop_first();
        lemma_position_of(rest, p);
        assert forall|j: int| 0 <= j < position_of(params, p) implies !((#[trigger] params[j]).name
            == p.name && params[j].location == p.location) by {
            if j > 0 {
                assert(params[j] == rest[j - 1]);
            }
        }
    }
}

/// An operation built by declaring parameters one by one declares each once
/// per location: no parameters are unique, and declaring one more keeps them
/// so.
pub proof fn law_declare_keeps_unique(params: Seq<ParamView>, p: ParamView)
    requires
        unique_params(params),
    ensures
        unique_params(declare(params, p)),
        unique_params(Seq::<ParamView>::empty()),
{
    lemma_position_of(params, p);
    let at = position_of(params, p);
    let out = declare(params, p);
    assert forall|i: int, j: int| 0 <= i < j < out.len() implies !(#[trigger] out[i].name
        == #[trigger] out[j].name && out[i].location == out[j].location) by {
        if at < params.len() {
            if i == at {
                assert(params[at].name == p.name);
                assert(out[j] == params[j]);
            } else if j == at {
                assert(out[i] == params[i]);
            } else {
                assert(out[i] == params[i] && out[j] == params[j]);
            }
        } else {
            if j == params.len() {
                assert(out[i] == params[i]);
            } else {
                assert(out[i] == params[i] && out[j] == params[j]);
            }
        }
    }
}

/// A credential for a header takes precedence and touches nothing else: the
/// headers hold it under its name, whatever header parameter has that name,
/// and hold under every other name what they would hold without it.
pub proof fn law_header_credential_wins(params: Seq<ParamView>, auth: AuthView, other: Seq<u8>)
    requires
        header_credential(auth) is Some,
        other != header_name_lower(encode_utf8(header_credential(auth)->Some_0.0)),
    ensures
        ({
            let h = header_credential(auth)->Some_0;
            let name = header_name_lower(encode_utf8(h.0));
            let with = header_map_of(request_headers(params, Some(auth)));
            let without = header_map_of(request_headers(params, None));
            &&& with.contains_key(name)
            &&& with[name] == seq![encode_utf8(h.1)]
            &&& with.contains_key(other) == without.contains_key(other)
            &&& with.contains_key(other) ==> with[other] == without[other]
        }),
{
    let h = header_credential(auth)->Some_0;
    let list = header_params(params).push(h);
    assert(list.drop_last() =~= header_params(params));
}

/// A credential for the query takes precedence and touches nothing else: it
/// stands in the place of the query parameter of its name, or after all
/// parameters when there is none, and every other parameter is as it was.
pub proof fn law_query_credential_wins(params: Seq<ParamView>, auth: AuthView)
    requires
        query_credential(auth) is Some,
    ensures
        ({
            let q = query_credential(auth)->Some_0;
            let p = ParamView { name: q.0, location: ParamLocation::Query, value: q.1 };
            let out = with_query_credential(params, Some(auth));
            let at = position_of(params, p);
            &&& 0 <= at < out.len()
            &&& out[at] == p
            &&& out.len() == if at < params.len() {
                params.len()
            } else {
                params.len() + 1
            }
            &&& forall|j: int| 0 <= j < params.len() && j != at ==> out[j] == params[j]
            &&& at < params.len() ==> params[at].name == p.name && params[at].location
                == p.location
        }),
{
    let q = query_credential(auth)->Some_0;
    lemma_position_of(params, ParamView { name: q.0, location: ParamLocation::Query, value: q.1 });
}

/// A resolved request carries each parameter once per location, provided the
/// operation declares each once per location.
pub proof fn law_resolved_params_unique(spec: RequestSpecView, op: OperationSpecView)
    requires
        unique_params(op.params),
    ensures
        unique_params(resolved_params(spec, op)),
        plan_request(spec, op) matches Ok(plan) ==> unique_params(planned(plan).params),
{
    let replaced = apply_replacements(op.params, spec.params);
    assert forall|i: int, j: int| 0 <= i < j < replaced.len() implies !(
    #[trigger] replaced[i].name == #[trigger] replaced[j].name && replaced[i].location
        == replaced[j].location) by {
        assert(replaced[i].name == op.params[i].name);
        assert(replaced[j].name == op.params[j].name);
    }
    match spec.auth {
        Some(a) => match query_credential(a) {
            Some(q) => {
                law_declare_keeps_unique(
                    replaced,
                    ParamView { name: q.0, location: ParamLocation::Query, value: q.1 },
                );
            },
            None => {},
        },
        None => {},
    }
}

/// A resolved request has a path: expanding the path template of its
/// operation under its parameters leaves no token unfilled.
pub proof fn law_resolved_request_has_a_path(
    spec: RequestSpecView,
    op: OperationSpecView,
    request: TestRequest,
)
    requires
        resolves_to(spec, op, Ok(request)),
    ensures
        expand(request@.operation.path, request@.params) is Some,
        request@.operation == op.operation,
{
}

/// Whoever is malformed on purpose is held to error classes only: when the
/// request of a well-paired case is marked bad, every expectation that the
/// case resolves to asks for an error class and for no body, and there is at
/// least one.
pub proof fn law_bad_request_expects_refusal(
    request: RequestSpecView,
    responses: Seq<ResponseSpecView>,
    op: OperationSpecView,
    expected: Seq<ExpectedView>,
)
    requires
        well_paired(request, responses),
        request.bad,
        resolve_responses(responses, op) == Ok::<Seq<ExpectedView>, ResolutionError>(expected),
    ensures
        expected.len() == responses.len(),
        expected.len() > 0,
        forall|i: int|
            0 <= i < expected.len() ==> (#[trigger] expected[i]).body is None && (
            expected[i].status matches ExpectedStatus::Within(class) && class.is_error()),
{
    lemma_refusals_resolve(responses, op, expected);
}

proof fn lemma_refusals_resolve(
    responses: Seq<ResponseSpecView>,
    op: OperationSpecView,
    expected: Seq<ExpectedView>,
)
    requires
        all_fit_bad_request(responses),
        resolve_responses(responses, op) == Ok::<Seq<ExpectedView>, ResolutionError>(expected),
    ensures
        expected.len() == responses.len(),
        forall|i: int|
            0 <= i < expected.len() ==> (#[trigger] expected[i]).body is None && (
            expected[i].status matches ExpectedStatus::Within(class) && class.is_error()),
    decreases responses.len(),
{
    if responses.len() > 0 {
        let before = resolve_responses(responses.drop_last(), op)->Ok_0;
        assert forall|i: int| 0 <= i < responses.drop_last().len() implies fits_bad_request(
            #[trigger] responses.drop_last()[i],
        ) by {
            assert(responses.drop_last()[i] == responses[i]);
        }
        lemma_refusals_resolve(responses.drop_last(), op, before);
        assert(fits_bad_request(responses[responses.len() - 1]));
    }
}

/// Matching is an equivalence under either rule: a body matches itself, and
/// matching goes both ways and carries over.
pub proof fn law_body_match_is_equivalence(
    a: Seq<u8>,
    b: Seq<u8>,
    c: Seq<u8>,
    comparison: BodyComparison,
)
    ensures
        body_matches(a, a, comparison),
        body_matches(a, b, comparison) == body_matches(b, a, comparison),
        body_matches(a, b, comparison) && body_matches(b, c, comparison) ==> body_matches(
            a,
            c,
            comparison,
        ),
        body_matches(a, b, BodyComparison::Exact) ==> body_matches(a, b, comparison),
{
    if let Some(x) = parse_document(a) {
        lemma_same_json_reflexive(x);
        if let Some(y) = parse_document(b) {
            if same_json(x, y) {
                lemma_same_json_symmetric(x, y);
            }
            if same_json(y, x) {
                lemma_same_json_symmetric(y, x);
            }
            if let Some(z) = parse_document(c) {
                if same_json(x, y) && same_json(y, z) {
                    lemma_same_json_transitive(x, y, z);
                }
            }
        }
    }
}

/// The order of the members of an object does not count under `JsonValue`:
/// two objects with the same members in another order are the same value.
pub proof fn law_member_order_does_not_count(members: Seq<MemberView>, other: Seq<MemberView>)
    requires
        members.len() == other.len(),
        forall|i: int|
            0 <= i < members.len() ==> exists|j: int|
                0 <= j < other.len() && #[trigger] other[j] == #[trigger] members[i],
        forall|j: int|
            0 <= j < other.len() ==> exists|i: int|
                0 <= i < members.len() && #[trigger] members[i] == #[trigger] other[j],
    ensures
        same_json(JsonView::Object(members), JsonView::Object(other)),
{
    assert forall|i: int| 0 <= i < members.len() implies has_member(
        other,
        (#[trigger] members[i]).key,
        members[i].value,
    ) by {
        let j = choose|j: int| 0 <= j < other.len() && #[trigger] other[j] == members[i];
        lemma_same_json_reflexive(members[i].value);
        assert(other[j].key == members[i].key);
    }
    assert forall|j: int| 0 <= j < other.len() implies is_member(
        members,
        (#[trigger] other[j]).key,
        other[j].value,
    ) by {
        let i = choose|i: int| 0 <= i < members.len() && #[trigger] members[i] == other[j];
        lemma_same_json_reflexive(other[j].value);
        assert(members[i].key == other[j].key);
    }
}

/// White space between tokens does not count under `JsonLayout`: a body with
/// one more space, tab or line break at a place outside every string literal
/// matches the body without it.
pub proof fn law_layout_ignores_space_between_tokens(s: Seq<u8>, k: int, space: u8)
    requires
        0 <= k <= s.len(),
        is_space(space),
        scan_before(s, k) == Scan::Outside,
    ensures
        body_matches(s, s.insert(k, space), BodyComparison::JsonLayout),
{
    lemma_insert_space(s, k, space, 0, Scan::Outside);
}

proof fn lemma_after_insert(s: Seq<u8>, k: int, space: u8, i: int, scan: Scan)
    requires
        0 <= k <= i <= s.len(),
    ensures
        compact_from(s.insert(k, space), i + 1, scan) == compact_from(s, i, scan),
    decreases s.len() - i,
{
    let t = s.insert(k, space);
    if i < s.len() {
        assert(t[i + 1] == s[i]);
        lemma_after_insert(s, k, space, i + 1, scan_after(scan, s[i]));
    }
}

proof fn lemma_insert_space(s: Seq<u8>, k: int, space: u8, i: int, scan: Scan)
    requires
        0 <= i <= k <= s.len(),
        is_space(space),
        scan_before(s, k) == Scan::Outside,
        scan == scan_before(s, i),
    ensures
        compact_from(s.insert(k, space), i, scan) == compact_from(s, i, scan),
    decreases k - i,
{
    let t = s.insert(k, space);
    if i == k {
        assert(t[k] == space);
        lemma_after_insert(s, k, space, k, Scan::Outside);
    } else {
        assert(t[i] == s[i]);
        lemma_insert_space(s, k, space, i + 1, scan_after(scan, s[i]));
    }
}

/// A request that is malformed on purpose is judged by the status alone:
/// neither the body of the response nor the rule for comparing bodies has a
/// say.
pub proof fn law_refusal_judged_by_status(
    expected: Seq<ExpectedView>,
    status: u16,
    body: Seq<u8>,
    other_body: Seq<u8>,
    comparison: BodyComparison,
    other_comparison: BodyComparison,
)
    ensures
        conforms(true, expected, status, body, comparison) == conforms(
            true,
            expected,
            status,
            other_body,
            other_comparison,
        ),
{
    if conforms(true, expected, status, body, comparison) {
        let i = choose|i: int|
            0 <= i < expected.len() && accepts_refusal(#[trigger] expected[i], status);
        assert(accepts_refusal(expected[i], status));
    }
    if conforms(true, expected, status, other_body, other_comparison) {
        let i = choose|i: int|
            0 <= i < expected.len() && accepts_refusal(#[trigger] expected[i], status);
        assert(accepts_refusal(expected[i], status));
    }
}

/// A request that is malformed on purpose never passes on a status outside
/// the error classes.
pub proof fn law_refusal_needs_error_status(
    expected: Seq<ExpectedView>,
    status: u16,
    body: Seq<u8>,
    comparison: BodyComparison,
)
    requires
        conforms(true, expected, status, body, comparison),
    ensures
        400 <= status < 600,
{
    let i = choose|i: int|
        0 <= i < expected.len() && accepts_refusal(#[trigger] expected[i], status);
    assert(accepts_refusal(expected[i], status));
}

/// Acceptance is disjunctive: a response that meets one candidate conforms,
/// whatever the other candidates are.
pub proof fn law_one_candidate_suffices(
    expected: Seq<ExpectedView>,
    i: int,
    status: u16,
    body: Seq<u8>,
    comparison: BodyComparison,
)
    requires
        0 <= i < expected.len(),
        accepts(expected[i], status, body, comparison),
    ensures
        conforms(false, expected, status, body, comparison),
{
}

/// A run only moves forward. Once it has ended, no event changes it or asks
/// for anything, so nothing is tried again. A request is sent only on leaving
/// `Resolving` with everything resolved. `Errored` is entered only from
/// `Resolving` and `Dispatching`, where no judgment exists yet, and `Passed`
/// and `Failed` only from `Validating`.
pub proof fn law_run_moves_forward(
    case: TestCase,
    api: ApiDescription,
    state: RunState,
    event: Event,
    next: RunState,
    action: Action,
)
    requires
        step_allowed(case, api, state, event, next, action),
    ensures
        rank(state) <= rank(next),
        is_final(state) ==> next == state && action == Action::Ignore,
        action == Action::Dispatch <==> state is Resolving && next is Dispatching,
        action == Action::Report <==> !is_final(state) && is_final(next),
        next is Errored && !(state is Errored) ==> state is Resolving || state is Dispatching,
        (next is Passed || next is Failed) && !is_final(state) ==> state is Validating,
{
}

} // verus!

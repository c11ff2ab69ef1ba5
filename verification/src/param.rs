//! Parameters: the values an operation declares, the overrides a test attaches
//! to a request, and the rule by which overrides replace declared values.

use vstd::prelude::*;

verus! {

/// Where a parameter travels in a request.
#[derive(Clone, Copy, Debug, PartialEq, Eq, Structural)]
pub enum ParamLocation {
    Path,
    Query,
    Header,
}

/// Why a request or an expected response could not be resolved.
#[derive(Clone, Copy, Debug, PartialEq, Eq, Structural)]
pub enum ResolutionError {
    /// The API description has no entry for the operation.
    NoSuchOperation,
    /// The operation declares no example of that media type and name.
    ExampleNotFound,
    /// An override names a parameter that the operation does not declare.
    UnknownParam,
    /// The path template holds a token that no path parameter fills.
    MissingPathParam,
    /// A header name or value holds bytes that HTTP does not allow there.
    InvalidHeader,
    /// The header map refused to grow.
    HeaderCapacity,
}

/// The mathematical value of a parameter.
pub ghost struct ParamView {
    pub name: Seq<char>,
    pub location: ParamLocation,
    pub value: Seq<char>,
}

/// An override of a declared parameter's value, by name.
#[derive(Debug)]
pub struct ParamReplacement {
    pub name: String,
    pub value: String,
}

impl View for ParamReplacement {
    type V = (Seq<char>, Seq<char>);

    open spec fn view(&self) -> (Seq<char>, Seq<char>) {
        (self.name@, self.value@)
    }
}

impl Clone for ParamReplacement {
    fn clone(&self) -> (out: Self)
        ensures
            out == *self,
    {
        ParamReplacement { name: self.name.clone(), value: self.value.clone() }
    }
}

impl ParamReplacement {
    /// An override that gives the parameter `name` the value `value`. Nothing is
    /// checked here: whether the operation declares `name` is decided when the
    /// request is resolved.
    pub fn new(name: &str, value: &str) -> (out: Self)
        ensures
            out@ == (name@, value@),
    {
        ParamReplacement { name: name.to_owned(), value: value.to_owned() }
    }
}

/// A parameter with its location and value: as an operation declares it, with
/// its example value, or as a resolved request carries it.
#[derive(Debug)]
pub struct TestParam {
    pub name: String,
    pub location: ParamLocation,
    pub value: String,
}

impl View for TestParam {
    type V = ParamView;

    open spec fn view(&self) -> ParamView {
        ParamView { name: self.name@, location: self.location, value: self.value@ }
    }
}

impl Clone for TestParam {
    fn clone(&self) -> (out: Self)
        ensures
            out == *self,
    {
        TestParam { name: self.name.clone(), location: self.location, value: self.value.clone() }
    }
}

impl TestParam {
    pub fn new(name: &str, location: ParamLocation, value: &str) -> (out: Self)
        ensures
            out@ == (ParamView { name: name@, location, value: value@ }),
    {
        TestParam { name: name.to_owned(), location, value: value.to_owned() }
    }
}

/// The values of a list of parameters.
pub open spec fn params_view(params: Seq<TestParam>) -> Seq<ParamView> {
    Seq::new(params.len(), |i: int| params[i]@)
}

/// The values of a list of overrides.
pub open spec fn replacements_view(reps: Seq<ParamReplacement>) -> Seq<(Seq<char>, Seq<char>)> {
    Seq::new(reps.len(), |i: int| reps[i]@)
}

/// Whether no two parameters share both name and location.
pub open spec fn unique_params(params: Seq<ParamView>) -> bool {
    forall|i: int, j: int|
        0 <= i < j < params.len() ==> !(#[trigger] params[i].name == #[trigger] params[j].name
            && params[i].location == params[j].location)
}

/// Whether some parameter in `declared` has the name `name`.
pub open spec fn declares(declared: Seq<ParamView>, name: Seq<char>) -> bool {
    exists|i: int| 0 <= i < declared.len() && #[trigger] declared[i].name == name
}

/// Whether every override names a declared parameter.
pub open spec fn all_declared(declared: Seq<ParamView>, reps: Seq<(Seq<char>, Seq<char>)>) -> bool {
    forall|j: int| 0 <= j < reps.len() ==> declares(declared, (#[trigger] reps[j]).0)
}

/// The value of the last override in `reps` that names `name`, if there is one.
pub open spec fn last_replacement(reps: Seq<(Seq<char>, Seq<char>)>, name: Seq<char>) -> Option<
    Seq<char>,
>
    decreases reps.len(),
{
    if reps.len() == 0 {
        None
    } else if reps.last().0 == name {
        Some(reps.last().1)
    } else {
        last_replacement(reps.drop_last(), name)
    }
}

/// One declared parameter after the overrides: it keeps its name and location,
/// and takes the value of the last override that names it, or else keeps its
/// declared value.
pub open spec fn replaced(p: ParamView, reps: Seq<(Seq<char>, Seq<char>)>) -> ParamView {
    ParamView {
        name: p.name,
        location: p.location,
        value: match last_replacement(reps, p.name) {
            Some(v) => v,
            None => p.value,
        },
    }
}

/// The declared parameters after all overrides, in declaration order.
pub open spec fn apply_replacements(
    declared: Seq<ParamView>,
    reps: Seq<(Seq<char>, Seq<char>)>,
) -> Seq<ParamView> {
    Seq::new(declared.len(), |i: int| replaced(declared[i], reps))
}

/// The position in `params` of the parameter with the name and location of
/// `p`, or the length of `params` when there is none.
pub open spec fn position_of(params: Seq<ParamView>, p: ParamView) -> int
    decreases params.len(),
{
    if params.len() == 0 {
        0
    } else if params[0].name == p.name && params[0].location == p.location {
        0
    } else {
        1 + position_of(params.drop_first(), p)
    }
}

/// `params` with `p` declared: `p` takes the place of the first parameter of
/// its name and location, or comes last when there is none.
pub open spec fn declare(params: Seq<ParamView>, p: ParamView) -> Seq<ParamView> {
    let at = position_of(params, p);
    if 0 <= at < params.len() {
        params.update(at, p)
    } else {
        params.push(p)
    }
}

/// Declares `p` in `params`: `p` takes the place of the first parameter of its
/// name and location, or comes last when there is none.
pub fn put_param(params: &mut Vec<TestParam>, p: TestParam)
    ensures
        params_view(final(params)@) == declare(params_view(old(params)@), p@),
{
    let ghost before = params_view(params@);
    let mut i: usize = 0;
    assert(before.skip(0) =~= before);
    while i < params.len()
        invariant
            i <= params.len(),
            params_view(params@) == before,
            before == params_view(old(params)@),
            position_of(before, p@) == i + position_of(before.skip(i as int), p@),
        decreases params.len() - i,
    {
        let ghost rest = before.skip(i as int);
        assert(rest[0] == params@[i as int]@);
        assert(rest.drop_first() =~= before.skip(i + 1));
        if params[i].location == p.location && params[i].name == p.name {
            assert(position_of(before, p@) == i);
            params.set(i, p);
            assert(params_view(params@) =~= before.update(i as int, p@));
            return ;
        }
        i += 1;
    }
    assert(position_of(before, p@) == params.len());
    params.push(p);
    assert(params_view(params@) =~= before.push(p@));
}

/// Whether no two parameters in `params` share both name and location.
pub fn all_unique(params: &Vec<TestParam>) -> (r: bool)
    ensures
        r == unique_params(params_view(params@)),
{
    let ghost pv = params_view(params@);
    let mut j: usize = 0;
    while j < params.len()
        invariant
            j <= params.len(),
            pv == params_view(params@),
            forall|a: int, b: int|
                0 <= a < b < j ==> !(#[trigger] pv[a].name == #[trigger] pv[b].name
                    && pv[a].location == pv[b].location),
        decreases params.len() - j,
    {
        let mut i: usize = 0;
        while i < j
            invariant
                i <= j < params.len(),
                pv == params_view(params@),
                forall|a: int|
                    0 <= a < i ==> !((#[trigger] pv[a]).name == pv[j as int].name && pv[a].location
                        == pv[j as int].location),
            decreases j - i,
        {
            if params[i].location == params[j].location && params[i].name == params[j].name {
                assert(pv[i as int].name == pv[j as int].name && pv[i as int].location
                    == pv[j as int].location);
                return false;
            }
            i += 1;
        }
        j += 1;
    }
    true
}

/// Whether `declared` holds a parameter named `name`.
pub fn is_declared(declared: &Vec<TestParam>, name: &String) -> (found: bool)
    ensures
        found == declares(params_view(declared@), name@),
{
    let mut i: usize = 0;
    while i < declared.len()
        invariant
            i <= declared.len(),
            forall|k: int| 0 <= k < i ==> (#[trigger] params_view(declared@)[k]).name != name@,
        decreases declared.len() - i,
    {
        if declared[i].name == *name {
            assert(params_view(declared@)[i as int].name == name@);
            return true;
        }
        i += 1;
    }
    false
}

/// The value that the overrides give the parameter `name`: that of the last
/// override naming it.
pub fn replacement_for<'a>(reps: &'a Vec<ParamReplacement>, name: &String) -> (found: Option<
    &'a String,
>)
    ensures
        match last_replacement(replacements_view(reps@), name@) {
            Some(v) => found matches Some(s) && s@ == v,
            None => found is None,
        },
{
    let mut i: usize = reps.len();
    assert(replacements_view(reps@).take(i as int) =~= replacements_view(reps@));
    while i > 0
        invariant
            i <= reps.len(),
            last_replacement(replacements_view(reps@), name@) == last_replacement(
                replacements_view(reps@).take(i as int),
                name@,
            ),
        decreases i,
    {
        let ghost prefix = replacements_view(reps@).take(i as int);
        assert(prefix.last() == reps@[i - 1]@);
        assert(prefix.drop_last() =~= replacements_view(reps@).take(i - 1));
        if reps[i - 1].name == *name {
            return Some(&reps[i - 1].value);
        }
        i -= 1;
    }
    assert(replacements_view(reps@).take(0).len() == 0);
    None
}

/// Applies the overrides to the declared parameters. Fails when an override
/// names a parameter that is not declared; otherwise each declared parameter
/// comes out once, in declaration order, with the value of the last override
/// naming it, or with its declared value when none does.
pub fn resolve_params(declared: &Vec<TestParam>, reps: &Vec<ParamReplacement>) -> (r: Result<
    Vec<TestParam>,
    ResolutionError,
>)
    ensures
        match r {
            Ok(out) => all_declared(params_view(declared@), replacements_view(reps@))
                && params_view(out@) == apply_replacements(
                params_view(declared@),
                replacements_view(reps@),
            ),
            Err(e) => !all_declared(params_view(declared@), replacements_view(reps@))
                && e == ResolutionError::UnknownParam,
        },
{
    let mut j: usize = 0;
    while j < reps.len()
        invariant
            j <= reps.len(),
            forall|k: int|
                0 <= k < j ==> declares(
                    params_view(declared@),
                    (#[trigger] replacements_view(reps@)[k]).0,
                ),
        decreases reps.len() - j,
    {
        if !is_declared(declared, &reps[j].name) {
            assert(replacements_view(reps@)[j as int].0 == reps@[j as int].name@);
            return Err(ResolutionError::UnknownParam);
        }
        assert(replacements_view(reps@)[j as int].0 == reps@[j as int].name@);
        j += 1;
    }
    let mut out: Vec<TestParam> = Vec::new();
    let mut i: usize = 0;
    while i < declared.len()
        invariant
            i <= declared.len(),
            out.len() == i,
            forall|k: int|
                0 <= k < i ==> (#[trigger] out@[k])@ == replaced(
                    declared@[k]@,
                    replacements_view(reps@),
                ),
        decreases declared.len() - i,
    {
        let p = &declared[i];
        let value = match replacement_for(reps, &p.name) {
            Some(v) => v.clone(),
            None => p.value.clone(),
        };
        out.push(TestParam { name: p.name.clone(), location: p.location, value });
        i += 1;
    }
    assert(params_view(out@) =~= apply_replacements(
        params_view(declared@),
        replacements_view(reps@),
    ));
    Ok(out)
}

} // verus!

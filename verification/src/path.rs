//! Path templates. A template is literal text with tokens of the form
//! `{name}`; expanding it puts the value of the path parameter `name` in place
//! of each token.

use crate::param::{params_view, ParamLocation, ParamView, ResolutionError, TestParam};
use crate::text::chars_of;
use vstd::prelude::*;
use vstd::string::*;

verus! {

/// The value of the first path parameter named `name`, if there is one.
pub open spec fn path_value(params: Seq<ParamView>, name: Seq<char>) -> Option<Seq<char>>
    decreases params.len(),
{
    if params.len() == 0 {
        None
    } else if params[0].location == ParamLocation::Path && params[0].name == name {
        Some(params[0].value)
    } else {
        path_value(params.drop_first(), name)
    }
}

/// The position of the first `}` in `t` at or after `from`, or the length of
/// `t` when there is none.
pub open spec fn find_close(t: Seq<char>, from: int) -> int
    decreases t.len() - from,
{
    if from >= t.len() {
        t.len() as int
    } else if t[from] == '}' {
        from
    } else {
        find_close(t, from + 1)
    }
}

/// The first `}` at or after `from` lies between `from` and the end of `t`.
pub proof fn lemma_find_close_bounds(t: Seq<char>, from: int)
    requires
        0 <= from <= t.len(),
    ensures
        from <= find_close(t, from) <= t.len(),
    decreases t.len() - from,
{
    if from < t.len() && t[from] != '}' {
        lemma_find_close_bounds(t, from + 1);
    }
}

/// `prefix` followed by `rest`, where there is a `rest`.
pub open spec fn prepend(prefix: Seq<char>, rest: Option<Seq<char>>) -> Option<Seq<char>> {
    match rest {
        Some(r) => Some(prefix + r),
        None => None,
    }
}

/// The expansion of the part of `t` that starts at `i`. A `{` opens a token
/// that runs to the next `}`; the text between them is the token's name, and
/// the token stands for the value of the path parameter of that name. Every
/// other character stands for itself. There is no expansion when a `{` is
/// never closed or a token names no path parameter.
pub open spec fn expand_from(t: Seq<char>, i: int, params: Seq<ParamView>) -> Option<Seq<char>>
    decreases t.len() - i,
{
    if i < 0 || i >= t.len() {
        Some(Seq::empty())
    } else if t[i] == '{' {
        let j = find_close(t, i + 1);
        if j >= t.len() {
            None
        } else {
            proof {
                lemma_find_close_bounds(t, i + 1);
            }
            match path_value(params, t.subrange(i + 1, j)) {
                Some(v) => prepend(v, expand_from(t, j + 1, params)),
                None => None,
            }
        }
    } else {
        prepend(seq![t[i]], expand_from(t, i + 1, params))
    }
}

/// The path that `template` stands for under `params`, if every token in it
/// names a path parameter.
pub open spec fn expand(template: Seq<char>, params: Seq<ParamView>) -> Option<Seq<char>> {
    expand_from(template, 0, params)
}

/// The value of the first path parameter in `params` named `name`.
pub fn lookup_path_value<'a>(params: &'a Vec<TestParam>, name: &String) -> (found: Option<
    &'a String,
>)
    ensures
        match path_value(params_view(params@), name@) {
            Some(v) => found matches Some(s) && s@ == v,
            None => found is None,
        },
{
    let mut i: usize = 0;
    assert(params_view(params@).skip(0) =~= params_view(params@));
    while i < params.len()
        invariant
            i <= params.len(),
            path_value(params_view(params@), name@) == path_value(
                params_view(params@).skip(i as int),
                name@,
            ),
        decreases params.len() - i,
    {
        let ghost rest = params_view(params@).skip(i as int);
        assert(rest[0] == params@[i as int]@);
        assert(rest.drop_first() =~= params_view(params@).skip(i + 1));
        let p = &params[i];
        if p.location == ParamLocation::Path && p.name == *name {
            return Some(&p.value);
        }
        i += 1;
    }
    None
}

/// Expands `template` under `params`: every token `{name}` is replaced by the
/// value of the path parameter `name`, everything else is kept. Fails with
/// `MissingPathParam` exactly when a token cannot be filled.
pub fn expand_path(template: &str, params: &Vec<TestParam>) -> (r: Result<String, ResolutionError>)
    ensures
        match r {
            Ok(path) => expand(template@, params_view(params@)) == Some(path@),
            Err(e) => expand(template@, params_view(params@)) is None && e
                == ResolutionError::MissingPathParam,
        },
{
    let t = chars_of(template);
    let n = t.len();
    let ghost pv = params_view(params@);
    let mut out = String::new();
    let mut i: usize = 0;
    assert(prepend(out@, expand_from(t@, 0, pv)) == expand_from(t@, 0, pv)) by {
        if let Some(r) = expand_from(t@, 0, pv) {
            assert(out@ + r =~= r);
        }
    }
    while i < n
        invariant
            i <= n,
            n == t.len(),
            t@ == template@,
            pv == params_view(params@),
            expand_from(t@, 0, pv) == prepend(out@, expand_from(t@, i as int, pv)),
        decreases n - i,
    {
        let c = t[i];
        if c == '{' {
            let mut name = String::new();
            let mut j: usize = i + 1;
            assert(name@ =~= t@.subrange(i + 1, j as int));
            while j < n && t[j] != '}'
                invariant
                    i < j <= n,
                    n == t.len(),
                    name@ == t@.subrange(i + 1, j as int),
                    find_close(t@, i + 1) == find_close(t@, j as int),
                decreases n - j,
            {
                name.push(t[j]);
                assert(name@ =~= t@.subrange(i + 1, j + 1));
                j += 1;
            }
            if j >= n {
                return Err(ResolutionError::MissingPathParam);
            }
            assert(find_close(t@, i + 1) == j);
            match lookup_path_value(params, &name) {
                None => {
                    return Err(ResolutionError::MissingPathParam);
                },
                Some(v) => {
                    let ghost before = out@;
                    out.append(v.as_str());
                    proof {
                        if let Some(r) = expand_from(t@, j + 1, pv) {
                            assert(before + (v@ + r) =~= (before + v@) + r);
                        }
                    }
                },
            }
            i = j + 1;
        } else {
            let ghost before = out@;
            out.push(c);
            proof {
                if let Some(r) = expand_from(t@, i + 1, pv) {
                    assert(before + (seq![c] + r) =~= before.push(c) + r);
                }
            }
            i += 1;
        }
    }
    proof {
        assert(out@ + Seq::<char>::empty() =~= out@);
    }
    Ok(out)
}

} // verus!

//! The headers of a request: which of them a resolved request carries, and
//! how they are put into a header map.

use crate::auth::{header_credential, AuthView, TestAuthorization};
use crate::param::{params_view, ParamLocation, ParamView, ResolutionError, TestParam};
use crate::wire::{
    header_entries, header_map_try_insert, header_name_bytes, header_name_lower, header_name_ok,
    header_value_bytes, header_value_ok, no_headers,
};
use http::header::{HeaderMap, HeaderName, HeaderValue, MaxSizeReached};
use vstd::prelude::*;
use vstd::string::*;
use vstd::utf8::encode_utf8;

verus! {

/// The values of a list of headers, each a name and a value.
pub open spec fn headers_view(list: Seq<(String, String)>) -> Seq<(Seq<char>, Seq<char>)> {
    Seq::new(list.len(), |i: int| (list[i].0@, list[i].1@))
}

/// The value of an authorization that may be absent.
pub open spec fn auth_view(auth: Option<TestAuthorization>) -> Option<AuthView> {
    match auth {
        Some(a) => Some(a@),
        None => None,
    }
}

/// The parameters that travel as headers, as names and values, in the order
/// of `params`.
pub open spec fn header_params(params: Seq<ParamView>) -> Seq<(Seq<char>, Seq<char>)>
    decreases params.len(),
{
    if params.len() == 0 {
        Seq::empty()
    } else {
        let before = header_params(params.drop_last());
        if params.last().location == ParamLocation::Header {
            before.push((params.last().name, params.last().value))
        } else {
            before
        }
    }
}

/// The headers of a request with the parameters `params` and the
/// authorization `auth`: first the header parameters, then the credential if
/// it travels in a header. Coming last, the credential wins over a parameter
/// of the same header name.
pub open spec fn request_headers(params: Seq<ParamView>, auth: Option<AuthView>) -> Seq<
    (Seq<char>, Seq<char>),
> {
    match auth {
        Some(a) => match header_credential(a) {
            Some(h) => header_params(params).push(h),
            None => header_params(params),
        },
        None => header_params(params),
    }
}

/// Whether HTTP allows the name and the value of the header `h`.
pub open spec fn header_ok(h: (Seq<char>, Seq<char>)) -> bool {
    header_name_ok(encode_utf8(h.0)) && header_value_ok(encode_utf8(h.1))
}

/// Whether HTTP allows every header in `list`.
pub open spec fn headers_ok(list: Seq<(Seq<char>, Seq<char>)>) -> bool {
    forall|i: int| 0 <= i < list.len() ==> header_ok(#[trigger] list[i])
}

/// The entries of the header map into which the headers of `list` were
/// inserted one after the other: a name is kept in lower case and holds the
/// value of the last header of that name.
pub open spec fn header_map_of(list: Seq<(Seq<char>, Seq<char>)>) -> Map<Seq<u8>, Seq<Seq<u8>>>
    decreases list.len(),
{
    if list.len() == 0 {
        no_headers()
    } else {
        header_map_of(list.drop_last()).insert(
            header_name_lower(encode_utf8(list.last().0)),
            seq![encode_utf8(list.last().1)],
        )
    }
}

/// The headers of a request with the parameters `params` and the
/// authorization `auth`.
pub fn header_list(params: &Vec<TestParam>, auth: &Option<TestAuthorization>) -> (out: Vec<
    (String, String),
>)
    ensures
        headers_view(out@) == request_headers(params_view(params@), auth_view(*auth)),
{
    let mut out: Vec<(String, String)> = Vec::new();
    let mut i: usize = 0;
    assert(headers_view(out@) =~= header_params(params_view(params@).take(0)));
    while i < params.len()
        invariant
            i <= params.len(),
            headers_view(out@) == header_params(params_view(params@).take(i as int)),
        decreases params.len() - i,
    {
        let ghost upto = params_view(params@).take(i + 1);
        assert(upto.last() == params@[i as int]@);
        assert(upto.drop_last() =~= params_view(params@).take(i as int));
        let p = &params[i];
        if p.location == ParamLocation::Header {
            let ghost before = headers_view(out@);
            out.push((p.name.clone(), p.value.clone()));
            assert(headers_view(out@) =~= before.push((p.name@, p.value@)));
        }
        i += 1;
    }
    assert(params_view(params@).take(params.len() as int) =~= params_view(params@));
    match auth {
        Some(a) => match a.header() {
            Some(pair) => {
                let ghost before = headers_view(out@);
                let ghost h = (pair.0@, pair.1@);
                out.push(pair);
                assert(headers_view(out@) =~= before.push(h));
            },
            None => {},
        },
        None => {},
    }
    out
}

/// What building a header map returns once the map has answered the last
/// insertion: the map when the header was stored, `HeaderCapacity` when the
/// map would not grow.
pub fn after_insert(map: HeaderMap, stored: Result<Option<HeaderValue>, MaxSizeReached>) -> (r:
    Result<HeaderMap, ResolutionError>)
    ensures
        match stored {
            Ok(_) => r == Ok::<HeaderMap, ResolutionError>(map),
            Err(_) => r == Err::<HeaderMap, ResolutionError>(ResolutionError::HeaderCapacity),
        },
{
    match stored {
        Ok(_) => Ok(map),
        Err(_) => Err(ResolutionError::HeaderCapacity),
    }
}

/// Puts the headers of `list` into a new header map, one after the other.
///
/// Fails with `InvalidHeader` exactly when HTTP does not allow some name or
/// value in `list`. Otherwise the map holds what `header_map_of` says, unless
/// the map itself refuses to grow, which is reported as `HeaderCapacity` and
/// can only happen when there is a header to insert.
pub fn build_headers(list: &Vec<(String, String)>) -> (r: Result<HeaderMap, ResolutionError>)
    ensures
        match r {
            Ok(map) => headers_ok(headers_view(list@)) && header_entries(map) == header_map_of(
                headers_view(list@),
            ),
            Err(e) => if headers_ok(headers_view(list@)) {
                e == ResolutionError::HeaderCapacity && list@.len() > 0
            } else {
                e == ResolutionError::InvalidHeader
            },
        },
{
    let ghost hv = headers_view(list@);
    let n = list.len();
    // Parse from the back, so that popping hands the headers out front first.
    let mut parsed: Vec<(HeaderName, HeaderValue)> = Vec::new();
    let mut k: usize = n;
    while k > 0
        invariant
            k <= n,
            n == list.len(),
            hv == headers_view(list@),
            parsed.len() == n - k,
            forall|m: int| k <= m < n ==> header_ok(#[trigger] hv[m]),
            forall|m: int|
                0 <= m < parsed.len() ==> header_name_bytes((#[trigger] parsed@[m]).0)
                    == header_name_lower(encode_utf8(hv[n - 1 - m].0)) && header_value_bytes(
                    parsed@[m].1,
                ) == encode_utf8(hv[n - 1 - m].1),
        decreases k,
    {
        let entry = &list[k - 1];
        assert(hv[k - 1] == (entry.0@, entry.1@));
        let name = match HeaderName::from_bytes(entry.0.as_str().as_bytes()) {
            Ok(name) => name,
            Err(_) => {
                assert(!header_ok(hv[k - 1]));
                return Err(ResolutionError::InvalidHeader);
            },
        };
        let value = match HeaderValue::from_bytes(entry.1.as_str().as_bytes()) {
            Ok(value) => value,
            Err(_) => {
                assert(!header_ok(hv[k - 1]));
                return Err(ResolutionError::InvalidHeader);
            },
        };
        parsed.push((name, value));
        k -= 1;
    }
    assert(headers_ok(hv));
    let mut map = HeaderMap::new();
    let mut done: usize = 0;
    assert(hv.take(0) =~= Seq::empty());
    while done < n
        invariant
            done <= n,
            n == list.len(),
            hv == headers_view(list@),
            headers_ok(hv),
            parsed.len() == n - done,
            header_entries(map) == header_map_of(hv.take(done as int)),
            forall|m: int|
                0 <= m < parsed.len() ==> header_name_bytes((#[trigger] parsed@[m]).0)
                    == header_name_lower(encode_utf8(hv[n - 1 - m].0)) && header_value_bytes(
                    parsed@[m].1,
                ) == encode_utf8(hv[n - 1 - m].1),
        decreases n - done,
    {
        let ghost top = parsed@[parsed.len() - 1];
        let (name, value) = parsed.pop().unwrap();
        assert(name == top.0 && value == top.1);
        let ghost upto = hv.take(done + 1);
        assert(upto.last() == hv[done as int]);
        assert(upto.drop_last() =~= hv.take(done as int));
        let stored = header_map_try_insert(&mut map, name, value);
        map = match after_insert(map, stored) {
            Ok(map) => map,
            Err(e) => {
                return Err(e);
            },
        };
        done += 1;
    }
    assert(hv.take(n as int) =~= hv);
    Ok(map)
}

} // verus!

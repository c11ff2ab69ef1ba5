//! The byte buffers and header maps that requests and responses carry.
//!
//! `bytes::Bytes`, `http::HeaderMap` and its names and values are opaque to the
//! verifier. This module gives each a mathematical model and states, without
//! proof, what the functions used by this crate do to those models.

use bytes::Bytes;
use http::header::{
    HeaderMap, HeaderName, HeaderValue, InvalidHeaderName, InvalidHeaderValue, MaxSizeReached,
};
use vstd::prelude::*;

verus! {

/// `bytes::Bytes`: a buffer of bytes that is cheap to copy.
#[verifier::external_type_specification]
#[verifier::external_body]
pub struct ExBytes(Bytes);

/// `http::header::HeaderName`: the name of a header.
#[verifier::external_type_specification]
#[verifier::external_body]
pub struct ExHeaderName(HeaderName);

/// `http::header::HeaderValue`: the value of a header.
#[verifier::external_type_specification]
#[verifier::external_body]
pub struct ExHeaderValue(HeaderValue);

/// `http::header::InvalidHeaderName`: the error of `HeaderName::from_bytes`.
#[verifier::external_type_specification]
#[verifier::external_body]
pub struct ExInvalidHeaderName(InvalidHeaderName);

/// `http::header::InvalidHeaderValue`: the error of `HeaderValue::from_bytes`.
#[verifier::external_type_specification]
#[verifier::external_body]
pub struct ExInvalidHeaderValue(InvalidHeaderValue);

/// `http::header::MaxSizeReached`: the error of `HeaderMap::try_insert`.
#[verifier::external_type_specification]
#[verifier::external_body]
pub struct ExMaxSizeReached(MaxSizeReached);

/// `http::HeaderMap`: a map from header names to one or more values each.
#[verifier::external_type_specification]
#[verifier::external_body]
#[verifier::reject_recursive_types(T)]
pub struct ExHeaderMap<T>(HeaderMap<T>);

/// The bytes that a buffer holds, in order.
pub uninterp spec fn bytes_content(b: Bytes) -> Seq<u8>;

/// The bytes of a header name. Header names are kept in lower case.
pub uninterp spec fn header_name_bytes(name: HeaderName) -> Seq<u8>;

/// The bytes of a header value.
pub uninterp spec fn header_value_bytes(value: HeaderValue) -> Seq<u8>;

/// What a header map holds: for each name that is present, the values stored
/// under it, in the order in which they were added.
pub uninterp spec fn header_entries(map: HeaderMap<HeaderValue>) -> Map<Seq<u8>, Seq<Seq<u8>>>;

/// The entries of a map that holds no header.
pub open spec fn no_headers() -> Map<Seq<u8>, Seq<Seq<u8>>> {
    Map::empty()
}

/// What `HeaderName::from_bytes` makes of one byte of a name: the byte itself
/// for digits, lower-case letters and the punctuation `` !#$%&'*+-.^_`|~ ``, the
/// lower-case letter for an upper-case one, and 0 for every byte that may not
/// occur in a name.
pub open spec fn header_name_byte(b: u8) -> u8 {
    if 65 <= b <= 90 {
        (b + 32) as u8
    } else if b == 33 || 35 <= b <= 39 || b == 42 || b == 43 || b == 45 || b == 46 || 48 <= b <= 57
        || 94 <= b <= 122 || b == 124 || b == 126 {
        b
    } else {
        0
    }
}

/// Whether `src` can be a header name: between 1 and 65535 bytes, each of them
/// allowed in a name.
pub open spec fn header_name_ok(src: Seq<u8>) -> bool {
    &&& 1 <= src.len() <= 65535
    &&& forall|i: int| 0 <= i < src.len() ==> header_name_byte(#[trigger] src[i]) != 0
}

/// The normal form of a header name: every byte in lower case.
pub open spec fn header_name_lower(src: Seq<u8>) -> Seq<u8> {
    Seq::new(src.len(), |i: int| header_name_byte(src[i]))
}

/// Whether `b` may occur in a header value: a tab, or any byte from 32 up
/// except 127.
pub open spec fn header_value_byte_ok(b: u8) -> bool {
    (b >= 32 && b != 127) || b == 9
}

/// Whether `src` can be a header value.
pub open spec fn header_value_ok(src: Seq<u8>) -> bool {
    forall|i: int| 0 <= i < src.len() ==> header_value_byte_ok(#[trigger] src[i])
}

/// `Bytes::new` makes an empty buffer.
pub assume_specification[ Bytes::new ]() -> (b: Bytes)
    ensures
        bytes_content(b) == Seq::<u8>::empty(),
;

/// `Bytes::clone` hands out a second handle on the same bytes.
pub assume_specification[ <Bytes as Clone>::clone ](b: &Bytes) -> (out: Bytes)
    ensures
        bytes_content(out) == bytes_content(*b),
;

/// `Bytes::as_ref` borrows the buffer as a slice of the same bytes.
#[verifier::external_body]
pub(crate) fn bytes_as_slice(b: &Bytes) -> (out: &[u8])
    ensures
        out@ == bytes_content(*b),
{
    b.as_ref()
}

/// `HeaderMap::new` makes a map without entries.
pub assume_specification[ HeaderMap::<HeaderValue>::new ]() -> (out: HeaderMap<HeaderValue>)
    ensures
        header_entries(out) == no_headers(),
;

/// `HeaderMap::clone` makes a second map with the same entries.
#[verifier::external_body]
pub(crate) fn header_map_clone(map: &HeaderMap<HeaderValue>) -> (out: HeaderMap<HeaderValue>)
    ensures
        header_entries(out) == header_entries(*map),
{
    map.clone()
}

/// `HeaderName::from_bytes` accepts exactly the names of 1 to 65535 bytes in
/// which every byte is allowed, and brings an accepted name into lower case.
pub assume_specification[ HeaderName::from_bytes ](src: &[u8]) -> (r: Result<
    HeaderName,
    InvalidHeaderName,
>)
    ensures
        r is Ok <==> header_name_ok(src@),
        r matches Ok(name) ==> header_name_bytes(name) == header_name_lower(src@),
;

/// `HeaderValue::from_bytes` accepts exactly the values in which every byte is
/// a tab or at least 32 and not 127, and keeps an accepted value as it is.
pub assume_specification[ HeaderValue::from_bytes ](src: &[u8]) -> (r: Result<
    HeaderValue,
    InvalidHeaderValue,
>)
    ensures
        r is Ok <==> header_value_ok(src@),
        r matches Ok(value) ==> header_value_bytes(value) == src@,
;

/// `HeaderMap::try_insert` either stores `value` under `name` in place of
/// whatever was stored under that name, leaving the other names alone, or
/// reports that the map cannot grow. Nothing is said of when it can, nor of
/// the map after it could not.
#[verifier::external_body]
pub(crate) fn header_map_try_insert(
    map: &mut HeaderMap<HeaderValue>,
    name: HeaderName,
    value: HeaderValue,
) -> (r: Result<Option<HeaderValue>, MaxSizeReached>)
    ensures
        r is Ok ==> header_entries(*final(map)) == header_entries(*old(map)).insert(
            header_name_bytes(name),
            seq![header_value_bytes(value)],
        ),
{
    map.try_insert(name, value)
}

} // verus!

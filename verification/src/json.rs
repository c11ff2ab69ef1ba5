//! JSON values, read from text and compared.
//!
//! Two JSON texts that a target and an API description spell differently may
//! still say the same thing. This module reads a text into the value it
//! stands for and compares values: the white space between tokens and the
//! order of the members of an object do not count. Numbers and strings are
//! compared as they are spelled.
//!
//! The reader is lenient where strictness would not change a comparison: a
//! number is any run of digits, signs, points and exponent marks, and a string
//! runs to the next quote that no backslash precedes.

use crate::raw::same_bytes;
use vstd::prelude::*;
use vstd::slice::{slice_subrange, slice_to_vec};

verus! {

/// How deep arrays and objects may nest in a text that is read as JSON.
pub const MAX_DEPTH: usize = 64;

/// A JSON value.
#[derive(Debug)]
pub enum Json {
    Null,
    Bool(bool),
    /// A number, as it is spelled.
    Number(Vec<u8>),
    /// A string: what stands between its quotes, escapes as they are spelled.
    Text(Vec<u8>),
    Array(Vec<Json>),
    /// An object: its members, in the order of the text.
    Object(Vec<Member>),
}

/// A member of an object: a key, as it is spelled between its quotes, and a
/// value.
#[derive(Debug)]
pub struct Member {
    pub key: Vec<u8>,
    pub value: Json,
}

/// The mathematical value of a JSON value.
pub ghost enum JsonView {
    Null,
    Bool(bool),
    Number(Seq<u8>),
    Text(Seq<u8>),
    Array(Seq<JsonView>),
    Object(Seq<MemberView>),
}

/// The mathematical value of a member.
pub ghost struct MemberView {
    pub key: Seq<u8>,
    pub value: JsonView,
}

impl View for Json {
    type V = JsonView;

    open spec fn view(&self) -> JsonView
        decreases self,
    {
        match self {
            Json::Null => JsonView::Null,
            Json::Bool(b) => JsonView::Bool(*b),
            Json::Number(n) => JsonView::Number(n@),
            Json::Text(t) => JsonView::Text(t@),
            Json::Array(items) => JsonView::Array(
                Seq::new(
                    items@.len(),
                    |i: int|
                        if 0 <= i < items@.len() {
                            items@[i].view()
                        } else {
                            JsonView::Null
                        },
                ),
            ),
            Json::Object(members) => JsonView::Object(
                Seq::new(
                    members@.len(),
                    |i: int|
                        if 0 <= i < members@.len() {
                            MemberView { key: members@[i].key@, value: members@[i].value.view() }
                        } else {
                            MemberView { key: Seq::empty(), value: JsonView::Null }
                        },
                ),
            ),
        }
    }
}

/// The values of a list of JSON values.
pub open spec fn items_view(items: Seq<Json>) -> Seq<JsonView> {
    Seq::new(items.len(), |i: int| items[i]@)
}

/// The values of a list of members.
pub open spec fn members_view(members: Seq<Member>) -> Seq<MemberView> {
    Seq::new(members.len(), |i: int| MemberView { key: members[i].key@, value: members[i].value@ })
}

/// Whether `b` is white space to JSON: space, tab, line feed or carriage
/// return.
pub open spec fn is_space(b: u8) -> bool {
    b == 32 || b == 9 || b == 10 || b == 13
}

/// Whether `b` may occur in a number: a digit, a sign, a point or an exponent
/// mark.
pub open spec fn is_number_byte(b: u8) -> bool {
    (48 <= b <= 57) || b == 45 || b == 43 || b == 46 || b == 101 || b == 69
}

/// The first position at or after `i` that holds no white space.
pub open spec fn skip_space(s: Seq<u8>, i: int) -> int
    decreases s.len() - i,
{
    if 0 <= i < s.len() && is_space(s[i]) {
        skip_space(s, i + 1)
    } else {
        i
    }
}

/// The first position at or after `i` that holds no byte of a number.
pub open spec fn number_end(s: Seq<u8>, i: int) -> int
    decreases s.len() - i,
{
    if 0 <= i < s.len() && is_number_byte(s[i]) {
        number_end(s, i + 1)
    } else {
        i
    }
}

/// The position of the quote that closes the string whose content starts at
/// `i`: the first quote at or after `i` that is not the byte after a
/// backslash.
pub open spec fn string_close(s: Seq<u8>, i: int) -> Option<int>
    decreases s.len() - i,
{
    if i < 0 || i >= s.len() {
        None
    } else if s[i] == 34 {
        Some(i)
    } else if s[i] == 92 {
        if i + 1 < s.len() {
            string_close(s, i + 2)
        } else {
            None
        }
    } else {
        string_close(s, i + 1)
    }
}

/// Whether `null` stands at `i`.
pub open spec fn null_at(s: Seq<u8>, i: int) -> bool {
    0 <= i && i + 4 <= s.len() && s[i] == 110 && s[i + 1] == 117 && s[i + 2] == 108 && s[i + 3]
        == 108
}

/// Whether `true` stands at `i`.
pub open spec fn true_at(s: Seq<u8>, i: int) -> bool {
    0 <= i && i + 4 <= s.len() && s[i] == 116 && s[i + 1] == 114 && s[i + 2] == 117 && s[i + 3]
        == 101
}

/// Whether `false` stands at `i`.
pub open spec fn false_at(s: Seq<u8>, i: int) -> bool {
    0 <= i && i + 5 <= s.len() && s[i] == 102 && s[i + 1] == 97 && s[i + 2] == 108 && s[i + 3]
        == 115 && s[i + 4] == 101
}

/// White space is skipped forwards, and not past the end.
pub proof fn lemma_skip_space(s: Seq<u8>, i: int)
    ensures
        i <= skip_space(s, i),
        0 <= i <= s.len() ==> skip_space(s, i) <= s.len(),
    decreases s.len() - i,
{
    if 0 <= i < s.len() && is_space(s[i]) {
        lemma_skip_space(s, i + 1);
    }
}

/// The value that starts at the first position at or after `i` that holds no
/// white space, with the position after it. Arrays and objects may nest
/// `depth` deep.
pub open spec fn parse_value(s: Seq<u8>, i: int, depth: nat) -> Option<(JsonView, int)>
    decreases s.len() - i, 0int,
{
    let at = skip_space(s, i);
    if i < 0 || at >= s.len() {
        None
    } else if s[at] == 110 {
        if null_at(s, at) {
            Some((JsonView::Null, at + 4))
        } else {
            None
        }
    } else if s[at] == 116 {
        if true_at(s, at) {
            Some((JsonView::Bool(true), at + 4))
        } else {
            None
        }
    } else if s[at] == 102 {
        if false_at(s, at) {
            Some((JsonView::Bool(false), at + 5))
        } else {
            None
        }
    } else if s[at] == 34 {
        match string_close(s, at + 1) {
            Some(close) => Some((JsonView::Text(s.subrange(at + 1, close)), close + 1)),
            None => None,
        }
    } else if s[at] == 45 || 48 <= s[at] <= 57 {
        Some((JsonView::Number(s.subrange(at, number_end(s, at + 1))), number_end(s, at + 1)))
    } else if s[at] == 91 {
        proof {
            lemma_skip_space(s, i);
        }
        if depth == 0 {
            None
        } else if skip_space(s, at + 1) < s.len() && s[skip_space(s, at + 1)] == 93 {
            Some((JsonView::Array(Seq::empty()), skip_space(s, at + 1) + 1))
        } else {
            match parse_items(s, at + 1, (depth - 1) as nat) {
                Some((items, end)) => Some((JsonView::Array(items), end)),
                None => None,
            }
        }
    } else if s[at] == 123 {
        proof {
            lemma_skip_space(s, i);
        }
        if depth == 0 {
            None
        } else if skip_space(s, at + 1) < s.len() && s[skip_space(s, at + 1)] == 125 {
            Some((JsonView::Object(Seq::empty()), skip_space(s, at + 1) + 1))
        } else {
            match parse_members(s, at + 1, (depth - 1) as nat) {
                Some((members, end)) => Some((JsonView::Object(members), end)),
                None => None,
            }
        }
    } else {
        None
    }
}

/// `first` followed by the items of `rest`, where there is a `rest`.
pub open spec fn items_after(first: Seq<JsonView>, rest: Option<(Seq<JsonView>, int)>) -> Option<
    (Seq<JsonView>, int),
> {
    match rest {
        Some((items, end)) => Some((first + items, end)),
        None => None,
    }
}

/// `first` followed by the members of `rest`, where there is a `rest`.
pub open spec fn members_after(
    first: Seq<MemberView>,
    rest: Option<(Seq<MemberView>, int)>,
) -> Option<(Seq<MemberView>, int)> {
    match rest {
        Some((members, end)) => Some((first + members, end)),
        None => None,
    }
}

/// The items of an array from `i` on, with the position after the closing
/// bracket: a value, then a comma and more items, or the bracket.
pub open spec fn parse_items(s: Seq<u8>, i: int, depth: nat) -> Option<(Seq<JsonView>, int)>
    decreases s.len() - i, 1int,
{
    match parse_value(s, i, depth) {
        None => None,
        Some((value, end)) => {
            let at = skip_space(s, end);
            if end <= i || at >= s.len() {
                None
            } else if s[at] == 44 {
                proof {
                    lemma_skip_space(s, end);
                }
                items_after(seq![value], parse_items(s, at + 1, depth))
            } else if s[at] == 93 {
                Some((seq![value], at + 1))
            } else {
                None
            }
        },
    }
}

/// The members of an object from `i` on, with the position after the closing
/// brace: a key, a colon and a value, then a comma and more members, or the
/// brace.
pub open spec fn parse_members(s: Seq<u8>, i: int, depth: nat) -> Option<
    (Seq<MemberView>, int),
>
    decreases s.len() - i, 1int,
{
    let open = skip_space(s, i);
    if i < 0 || open >= s.len() || s[open] != 34 {
        None
    } else {
        match string_close(s, open + 1) {
            None => None,
            Some(close) => {
                let colon = skip_space(s, close + 1);
                if close <= open || colon >= s.len() || s[colon] != 58 {
                    None
                } else {
                    proof {
                        lemma_skip_space(s, i);
                        lemma_skip_space(s, close + 1);
                    }
                    match parse_value(s, colon + 1, depth) {
                        None => None,
                        Some((value, end)) => {
                            let at = skip_space(s, end);
                            if end <= colon || at >= s.len() {
                                None
                            } else if s[at] == 44 {
                                proof {
                                    lemma_skip_space(s, end);
                                }
                                members_after(
                                    seq![MemberView { key: s.subrange(open + 1, close), value }],
                                    parse_members(s, at + 1, depth),
                                )
                            } else if s[at] == 125 {
                                Some((seq![MemberView { key: s.subrange(open + 1, close), value }], at + 1))
                            } else {
                                None
                            }
                        },
                    }
                }
            },
        }
    }
}

/// The value that `s` stands for, if `s` is one JSON value with nothing but
/// white space around it.
pub open spec fn parse_document(s: Seq<u8>) -> Option<JsonView> {
    match parse_value(s, 0, MAX_DEPTH as nat) {
        Some((value, end)) => if skip_space(s, end) >= s.len() {
            Some(value)
        } else {
            None
        },
        None => None,
    }
}

/// Whether `members` has a member with the key `key` whose value is the same
/// as `value`.
pub open spec fn has_member(members: Seq<MemberView>, key: Seq<u8>, value: JsonView) -> bool
    decreases value, 1int,
{
    exists|j: int|
        0 <= j < members.len() && (#[trigger] members[j]).key == key && same_json(
            value,
            members[j].value,
        )
}

/// Whether `members` has a member with the key `key` whose value is the same
/// as `value`; the member comes first in the comparison.
pub open spec fn is_member(members: Seq<MemberView>, key: Seq<u8>, value: JsonView) -> bool
    decreases members, 1int,
{
    exists|i: int|
        0 <= i < members.len() && (#[trigger] members[i]).key == key && same_json(
            members[i].value,
            value,
        )
}

/// Whether `a` and `b` are the same value: the same scalar, arrays with the
/// same items in the same order, or objects of the same size in which every
/// member of the one is a member of the other, in whatever order.
pub open spec fn same_json(a: JsonView, b: JsonView) -> bool
    decreases a, 0int,
{
    match a {
        JsonView::Null => b is Null,
        JsonView::Bool(x) => b == JsonView::Bool(x),
        JsonView::Number(x) => b == JsonView::Number(x),
        JsonView::Text(x) => b == JsonView::Text(x),
        JsonView::Array(xs) => {
            &&& b is Array
            &&& xs.len() == b->Array_0.len()
            &&& forall|i: int| 0 <= i < xs.len() ==> same_json(#[trigger] xs[i], b->Array_0[i])
        },
        JsonView::Object(ms) => {
            &&& b is Object
            &&& ms.len() == b->Object_0.len()
            &&& forall|i: int|
                0 <= i < ms.len() ==> has_member(
                    b->Object_0,
                    (#[trigger] ms[i]).key,
                    ms[i].value,
                )
            &&& forall|j: int|
                0 <= j < b->Object_0.len() ==> is_member(
                    ms,
                    (#[trigger] b->Object_0[j]).key,
                    b->Object_0[j].value,
                )
        },
    }
}

/// Whether what was read agrees with what the text holds: the same value and
/// the same position after it, or nothing in both.
pub open spec fn value_read(text: Option<(JsonView, int)>, read: Option<(Json, usize)>) -> bool {
    match text {
        Some((value, end)) => read matches Some(pair) && pair.0@ == value && pair.1 == end,
        None => read is None,
    }
}

/// Whether the items that were read agree with what the text holds.
pub open spec fn items_read(
    text: Option<(Seq<JsonView>, int)>,
    read: Option<(Vec<Json>, usize)>,
) -> bool {
    match text {
        Some((items, end)) => read matches Some(pair) && items_view(pair.0@) == items && pair.1
            == end,
        None => read is None,
    }
}

/// Whether the members that were read agree with what the text holds.
pub open spec fn members_read(
    text: Option<(Seq<MemberView>, int)>,
    read: Option<(Vec<Member>, usize)>,
) -> bool {
    match text {
        Some((members, end)) => read matches Some(pair) && members_view(pair.0@) == members
            && pair.1 == end,
        None => read is None,
    }
}

/// An array of `items` has the items' values, in order.
pub proof fn lemma_array_view(items: Vec<Json>)
    ensures
        Json::Array(items)@ == JsonView::Array(items_view(items@)),
{
    assert(Json::Array(items)@->Array_0 =~= items_view(items@));
}

/// An object of `members` has the members' keys and values, in order.
pub proof fn lemma_object_view(members: Vec<Member>)
    ensures
        Json::Object(members)@ == JsonView::Object(members_view(members@)),
{
    let object = Json::Object(members)@->Object_0;
    assert(object.len() == members@.len());
    assert forall|i: int| 0 <= i < object.len() implies object[i] == members_view(members@)[i] by {
        assert(object[i] == (MemberView { key: members@[i].key@, value: members@[i].value@ }));
    }
    assert(object =~= members_view(members@));
}

/// The first position at or after `i` that holds no white space.
pub fn skip_space_at(s: &[u8], i: usize) -> (at: usize)
    requires
        i <= s.len(),
    ensures
        at == skip_space(s@, i as int),
        i <= at <= s.len(),
{
    let mut at = i;
    while at < s.len() && (s[at] == 32 || s[at] == 9 || s[at] == 10 || s[at] == 13)
        invariant
            i <= at <= s.len(),
            skip_space(s@, i as int) == skip_space(s@, at as int),
        decreases s.len() - at,
    {
        at += 1;
    }
    at
}

/// The first position at or after `i` that holds no byte of a number.
pub fn number_end_at(s: &[u8], i: usize) -> (at: usize)
    requires
        i <= s.len(),
    ensures
        at == number_end(s@, i as int),
        i <= at <= s.len(),
{
    let mut at = i;
    while at < s.len() && ((48 <= s[at] && s[at] <= 57) || s[at] == 45 || s[at] == 43 || s[at]
        == 46 || s[at] == 101 || s[at] == 69)
        invariant
            i <= at <= s.len(),
            number_end(s@, i as int) == number_end(s@, at as int),
        decreases s.len() - at,
    {
        at += 1;
    }
    at
}

/// The position of the quote that closes the string whose content starts at
/// `i`.
pub fn string_close_at(s: &[u8], i: usize) -> (close: Option<usize>)
    requires
        i <= s.len(),
    ensures
        match string_close(s@, i as int) {
            Some(c) => close == Some(c as usize) && i <= c < s.len(),
            None => close is None,
        },
{
    let mut at = i;
    while at < s.len()
        invariant
            i <= at <= s.len(),
            string_close(s@, i as int) == string_close(s@, at as int),
        decreases s.len() - at,
    {
        if s[at] == 34 {
            return Some(at);
        } else if s[at] == 92 {
            if at + 1 < s.len() {
                at += 2;
            } else {
                return None;
            }
        } else {
            at += 1;
        }
    }
    None
}

/// The bytes of `s` from `from` up to `to`.
pub fn copy_range(s: &[u8], from: usize, to: usize) -> (out: Vec<u8>)
    requires
        from <= to <= s.len(),
    ensures
        out@ == s@.subrange(from as int, to as int),
{
    slice_to_vec(slice_subrange(s, from, to))
}

/// Reads the value that starts at the first position at or after `i` that
/// holds no white space, and says where it ends. Arrays and objects may nest
/// `depth` deep.
pub fn read_value(s: &[u8], i: usize, depth: usize) -> (read: Option<(Json, usize)>)
    requires
        i <= s.len(),
    ensures
        value_read(parse_value(s@, i as int, depth as nat), read),
        read matches Some(pair) ==> pair.1 <= s.len(),
    decreases s.len() - i, 0int,
{
    let at = skip_space_at(s, i);
    if at >= s.len() {
        return None;
    }
    let b = s[at];
    if b == 110 {
        if s.len() - at >= 4 && s[at + 1] == 117 && s[at + 2] == 108 && s[at + 3] == 108 {
            Some((Json::Null, at + 4))
        } else {
            None
        }
    } else if b == 116 {
        if s.len() - at >= 4 && s[at + 1] == 114 && s[at + 2] == 117 && s[at + 3] == 101 {
            Some((Json::Bool(true), at + 4))
        } else {
            None
        }
    } else if b == 102 {
        if s.len() - at >= 5 && s[at + 1] == 97 && s[at + 2] == 108 && s[at + 3] == 115 && s[at
            + 4] == 101 {
            Some((Json::Bool(false), at + 5))
        } else {
            None
        }
    } else if b == 34 {
        match string_close_at(s, at + 1) {
            Some(close) => Some((Json::Text(copy_range(s, at + 1, close)), close + 1)),
            None => None,
        }
    } else if b == 45 || (48 <= b && b <= 57) {
        let end = number_end_at(s, at + 1);
        Some((Json::Number(copy_range(s, at, end)), end))
    } else if b == 91 {
        if depth == 0 {
            return None;
        }
        let first = skip_space_at(s, at + 1);
        if first < s.len() && s[first] == 93 {
            let items: Vec<Json> = Vec::new();
            proof {
                lemma_array_view(items);
                assert(items_view(items@) =~= Seq::empty());
            }
            return Some((Json::Array(items), first + 1));
        }
        match read_items(s, at + 1, depth - 1) {
            Some(pair) => {
                let (items, end) = pair;
                proof {
                    lemma_array_view(items);
                }
                Some((Json::Array(items), end))
            },
            None => None,
        }
    } else if b == 123 {
        if depth == 0 {
            return None;
        }
        let first = skip_space_at(s, at + 1);
        if first < s.len() && s[first] == 125 {
            let members: Vec<Member> = Vec::new();
            proof {
                lemma_object_view(members);
                assert(members_view(members@) =~= Seq::empty());
            }
            return Some((Json::Object(members), first + 1));
        }
        match read_members(s, at + 1, depth - 1) {
            Some(pair) => {
                let (members, end) = pair;
                proof {
                    lemma_object_view(members);
                }
                Some((Json::Object(members), end))
            },
            None => None,
        }
    } else {
        None
    }
}

/// Reads the items of an array from `i` on, up to and with the closing
/// bracket.
pub fn read_items(s: &[u8], i: usize, depth: usize) -> (read: Option<(Vec<Json>, usize)>)
    requires
        i <= s.len(),
    ensures
        items_read(parse_items(s@, i as int, depth as nat), read),
        read matches Some(pair) ==> pair.1 <= s.len(),
    decreases s.len() - i, 1int,
{
    let mut items: Vec<Json> = Vec::new();
    let mut cur = i;
    assert(items_view(items@) =~= Seq::empty());
    assert(items_after(Seq::empty(), parse_items(s@, i as int, depth as nat)) == parse_items(
        s@,
        i as int,
        depth as nat,
    )) by {
        if let Some((rest, end)) = parse_items(s@, i as int, depth as nat) {
            assert(Seq::<JsonView>::empty() + rest =~= rest);
        }
    }
    loop
        invariant
            i <= cur <= s.len(),
            parse_items(s@, i as int, depth as nat) == items_after(
                items_view(items@),
                parse_items(s@, cur as int, depth as nat),
            ),
        decreases s.len() - cur,
    {
        let (value, end) = match read_value(s, cur, depth) {
            Some(pair) => pair,
            None => {
                return None;
            },
        };
        if end <= cur {
            return None;
        }
        let at = skip_space_at(s, end);
        if at >= s.len() {
            return None;
        }
        let ghost before = items_view(items@);
        let ghost v = value@;
        if s[at] == 44 {
            items.push(value);
            proof {
                assert(items_view(items@) =~= before.push(v));
                if let Some((rest, e)) = parse_items(s@, at + 1, depth as nat) {
                    assert(before + (seq![v] + rest) =~= before.push(v) + rest);
                }
            }
            cur = at + 1;
        } else if s[at] == 93 {
            items.push(value);
            proof {
                assert(items_view(items@) =~= before + seq![v]);
            }
            return Some((items, at + 1));
        } else {
            return None;
        }
    }
}

/// Reads the members of an object from `i` on, up to and with the closing
/// brace.
pub fn read_members(s: &[u8], i: usize, depth: usize) -> (read: Option<(Vec<Member>, usize)>)
    requires
        i <= s.len(),
    ensures
        members_read(parse_members(s@, i as int, depth as nat), read),
        read matches Some(pair) ==> pair.1 <= s.len(),
    decreases s.len() - i, 1int,
{
    let mut members: Vec<Member> = Vec::new();
    let mut cur = i;
    assert(members_view(members@) =~= Seq::empty());
    assert(members_after(Seq::empty(), parse_members(s@, i as int, depth as nat))
        == parse_members(s@, i as int, depth as nat)) by {
        if let Some((rest, end)) = parse_members(s@, i as int, depth as nat) {
            assert(Seq::<MemberView>::empty() + rest =~= rest);
        }
    }
    loop
        invariant
            i <= cur <= s.len(),
            parse_members(s@, i as int, depth as nat) == members_after(
                members_view(members@),
                parse_members(s@, cur as int, depth as nat),
            ),
        decreases s.len() - cur,
    {
        let open = skip_space_at(s, cur);
        if open >= s.len() || s[open] != 34 {
            return None;
        }
        let close = match string_close_at(s, open + 1) {
            Some(close) => close,
            None => {
                return None;
            },
        };
        let colon = skip_space_at(s, close + 1);
        if colon >= s.len() || s[colon] != 58 {
            return None;
        }
        let (value, end) = match read_value(s, colon + 1, depth) {
            Some(pair) => pair,
            None => {
                return None;
            },
        };
        if end <= colon {
            return None;
        }
        let at = skip_space_at(s, end);
        if at >= s.len() {
            return None;
        }
        let key = copy_range(s, open + 1, close);
        let ghost before = members_view(members@);
        let ghost m = MemberView { key: key@, value: value@ };
        if s[at] == 44 {
            members.push(Member { key, value });
            proof {
                assert(members_view(members@) =~= before.push(m));
                if let Some((rest, e)) = parse_members(s@, at + 1, depth as nat) {
                    assert(before + (seq![m] + rest) =~= before.push(m) + rest);
                }
            }
            cur = at + 1;
        } else if s[at] == 125 {
            members.push(Member { key, value });
            proof {
                assert(members_view(members@) =~= before + seq![m]);
            }
            return Some((members, at + 1));
        } else {
            return None;
        }
    }
}

/// Reads `s` as one JSON value with nothing but white space around it.
pub fn read_document(s: &[u8]) -> (read: Option<Json>)
    ensures
        match parse_document(s@) {
            Some(value) => read matches Some(json) && json@ == value,
            None => read is None,
        },
{
    match read_value(s, 0, MAX_DEPTH) {
        Some(pair) => {
            let (value, end) = pair;
            if skip_space_at(s, end) >= s.len() {
                Some(value)
            } else {
                None
            }
        },
        None => None,
    }
}

/// Compares two JSON values; see `same_json`.
#[verifier::loop_isolation(false)]
pub fn same_value(a: &Json, b: &Json) -> (r: bool)
    ensures
        r == same_json(a@, b@),
    decreases a,
{
    match a {
        Json::Null => match b {
            Json::Null => true,
            _ => false,
        },
        Json::Bool(x) => match b {
            Json::Bool(y) => *x == *y,
            _ => false,
        },
        Json::Number(x) => match b {
            Json::Number(y) => same_bytes(x.as_slice(), y.as_slice()),
            _ => false,
        },
        Json::Text(x) => match b {
            Json::Text(y) => same_bytes(x.as_slice(), y.as_slice()),
            _ => false,
        },
        Json::Array(xs) => match b {
            Json::Array(ys) => {
                proof {
                    lemma_array_view(*xs);
                    lemma_array_view(*ys);
                }
                if xs.len() != ys.len() {
                    return false;
                }
                let mut i: usize = 0;
                while i < xs.len()
                    invariant
                        i <= xs.len(),
                        forall|k: int|
                            0 <= k < i ==> same_json(
                                #[trigger] items_view(xs@)[k],
                                items_view(ys@)[k],
                            ),
                    decreases xs.len() - i,
                {
                    if !same_value(&xs[i], &ys[i]) {
                        assert(!same_json(items_view(xs@)[i as int], items_view(ys@)[i as int]));
                        return false;
                    }
                    i += 1;
                }
                true
            },
            _ => false,
        },
        Json::Object(ms) => match b {
            Json::Object(ns) => {
                proof {
                    lemma_object_view(*ms);
                    lemma_object_view(*ns);
                }
                let ghost mv = members_view(ms@);
                let ghost nv = members_view(ns@);
                if ms.len() != ns.len() {
                    return false;
                }
                let mut i: usize = 0;
                while i < ms.len()
                    invariant
                        i <= ms.len(),
                        forall|k: int|
                            0 <= k < i ==> has_member(nv, (#[trigger] mv[k]).key, mv[k].value),
                    decreases ms.len() - i,
                {
                    let mut found = false;
                    let mut j: usize = 0;
                    while j < ns.len() && !found
                        invariant
                            j <= ns.len(),
                            i < ms.len(),
                            found ==> has_member(nv, mv[i as int].key, mv[i as int].value),
                            !found ==> forall|l: int|
                                0 <= l < j ==> !((#[trigger] nv[l]).key == mv[i as int].key
                                    && same_json(mv[i as int].value, nv[l].value)),
                        decreases ns.len() - j,
                    {
                        if same_bytes(ms[i].key.as_slice(), ns[j].key.as_slice()) && same_value(
                            &ms[i].value,
                            &ns[j].value,
                        ) {
                            assert(nv[j as int].key == mv[i as int].key && same_json(
                                mv[i as int].value,
                                nv[j as int].value,
                            ));
                            found = true;
                        }
                        j += 1;
                    }
                    if !found {
                        assert(!has_member(nv, mv[i as int].key, mv[i as int].value));
                        return false;
                    }
                    i += 1;
                }
                let mut j: usize = 0;
                while j < ns.len()
                    invariant
                        j <= ns.len(),
                        forall|k: int|
                            0 <= k < j ==> is_member(mv, (#[trigger] nv[k]).key, nv[k].value),
                    decreases ns.len() - j,
                {
                    let mut found = false;
                    let mut i: usize = 0;
                    while i < ms.len() && !found
                        invariant
                            i <= ms.len(),
                            j < ns.len(),
                            found ==> is_member(mv, nv[j as int].key, nv[j as int].value),
                            !found ==> forall|l: int|
                                0 <= l < i ==> !((#[trigger] mv[l]).key == nv[j as int].key
                                    && same_json(mv[l].value, nv[j as int].value)),
                        decreases ms.len() - i,
                    {
                        if same_bytes(ms[i].key.as_slice(), ns[j].key.as_slice()) && same_value(
                            &ms[i].value,
                            &ns[j].value,
                        ) {
                            assert(mv[i as int].key == nv[j as int].key && same_json(
                                mv[i as int].value,
                                nv[j as int].value,
                            ));
                            found = true;
                        }
                        i += 1;
                    }
                    if !found {
                        assert(!is_member(mv, nv[j as int].key, nv[j as int].value));
                        return false;
                    }
                    j += 1;
                }
                true
            },
            _ => false,
        },
    }
}

/// Every value is the same as itself.
pub proof fn lemma_same_json_reflexive(a: JsonView)
    ensures
        same_json(a, a),
    decreases a,
{
    match a {
        JsonView::Array(xs) => {
            assert forall|i: int| 0 <= i < xs.len() implies same_json(#[trigger] xs[i], xs[i]) by {
                lemma_same_json_reflexive(xs[i]);
            }
        },
        JsonView::Object(ms) => {
            assert forall|i: int| 0 <= i < ms.len() implies has_member(
                ms,
                (#[trigger] ms[i]).key,
                ms[i].value,
            ) && is_member(ms, ms[i].key, ms[i].value) by {
                lemma_same_json_reflexive(ms[i].value);
            }
        },
        _ => {},
    }
}

/// Being the same value goes both ways.
pub proof fn lemma_same_json_symmetric(a: JsonView, b: JsonView)
    requires
        same_json(a, b),
    ensures
        same_json(b, a),
    decreases a,
{
    match a {
        JsonView::Array(xs) => {
            let ys = b->Array_0;
            assert forall|i: int| 0 <= i < ys.len() implies same_json(#[trigger] ys[i], xs[i]) by {
                assert(same_json(xs[i], ys[i]));
                lemma_same_json_symmetric(xs[i], ys[i]);
            }
        },
        JsonView::Object(ms) => {
            let ns = b->Object_0;
            assert forall|j: int| 0 <= j < ns.len() implies has_member(
                ms,
                (#[trigger] ns[j]).key,
                ns[j].value,
            ) by {
                assert(is_member(ms, ns[j].key, ns[j].value));
                let i = choose|i: int|
                    0 <= i < ms.len() && (#[trigger] ms[i]).key == ns[j].key && same_json(
                        ms[i].value,
                        ns[j].value,
                    );
                lemma_same_json_symmetric(ms[i].value, ns[j].value);
            }
            assert forall|i: int| 0 <= i < ms.len() implies is_member(
                ns,
                (#[trigger] ms[i]).key,
                ms[i].value,
            ) by {
                assert(has_member(ns, ms[i].key, ms[i].value));
                let j = choose|j: int|
                    0 <= j < ns.len() && (#[trigger] ns[j]).key == ms[i].key && same_json(
                        ms[i].value,
                        ns[j].value,
                    );
                lemma_same_json_symmetric(ms[i].value, ns[j].value);
            }
        },
        _ => {},
    }
}

/// Being the same value carries over.
pub proof fn lemma_same_json_transitive(a: JsonView, b: JsonView, c: JsonView)
    requires
        same_json(a, b),
        same_json(b, c),
    ensures
        same_json(a, c),
    decreases a,
{
    match a {
        JsonView::Array(xs) => {
            let ys = b->Array_0;
            let zs = c->Array_0;
            assert forall|i: int| 0 <= i < xs.len() implies same_json(#[trigger] xs[i], zs[i]) by {
                assert(same_json(xs[i], ys[i]));
                assert(same_json(ys[i], zs[i]));
                lemma_same_json_transitive(xs[i], ys[i], zs[i]);
            }
        },
        JsonView::Object(ms) => {
            let ns = b->Object_0;
            let ps = c->Object_0;
            assert forall|i: int| 0 <= i < ms.len() implies has_member(
                ps,
                (#[trigger] ms[i]).key,
                ms[i].value,
            ) by {
                assert(has_member(ns, ms[i].key, ms[i].value));
                let j = choose|j: int|
                    0 <= j < ns.len() && (#[trigger] ns[j]).key == ms[i].key && same_json(
                        ms[i].value,
                        ns[j].value,
                    );
                assert(has_member(ps, ns[j].key, ns[j].value));
                let l = choose|l: int|
                    0 <= l < ps.len() && (#[trigger] ps[l]).key == ns[j].key && same_json(
                        ns[j].value,
                        ps[l].value,
                    );
                lemma_same_json_transitive(ms[i].value, ns[j].value, ps[l].value);
            }
            assert forall|l: int| 0 <= l < ps.len() implies is_member(
                ms,
                (#[trigger] ps[l]).key,
                ps[l].value,
            ) by {
                assert(is_member(ns, ps[l].key, ps[l].value));
                let j = choose|j: int|
                    0 <= j < ns.len() && (#[trigger] ns[j]).key == ps[l].key && same_json(
                        ns[j].value,
                        ps[l].value,
                    );
                assert(is_member(ms, ns[j].key, ns[j].value));
                let i = choose|i: int|
                    0 <= i < ms.len() && (#[trigger] ms[i]).key == ns[j].key && same_json(
                        ms[i].value,
                        ns[j].value,
                    );
                lemma_same_json_transitive(ms[i].value, ns[j].value, ps[l].value);
            }
        },
        _ => {},
    }
}

} // verus!

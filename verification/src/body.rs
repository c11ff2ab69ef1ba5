//! How the body of a response is compared with the body that was expected.
//!
//! A target that serializes JSON again rarely reproduces an example byte for
//! byte: it lays the text out differently and may order the members of an
//! object differently. The rule of comparison is therefore a choice. By
//! default two bodies that are JSON match when they stand for the same value,
//! and other bodies match when they are the same bytes.

use crate::json::{is_space, parse_document, read_document, same_json, same_value};
use crate::raw::same_bytes;
use vstd::prelude::*;

verus! {

/// The rule by which two bodies are compared.
#[derive(Clone, Copy, Debug, PartialEq, Eq, Structural)]
pub enum BodyComparison {
    /// The bodies are the same bytes.
    Exact,
    /// The bodies are the same once the white space between JSON tokens is
    /// taken out. White space inside string literals counts, and so does the
    /// order of an object's members.
    JsonLayout,
    /// The bodies are JSON texts for the same value: neither the white space
    /// between tokens nor the order of an object's members counts, and
    /// numbers and strings are compared as they are spelled. Where one of
    /// the bodies is not JSON, the bodies are the same bytes.
    JsonValue,
}

impl Default for BodyComparison {
    fn default() -> (out: Self)
        ensures
            out == BodyComparison::JsonValue,
    {
        BodyComparison::JsonValue
    }
}

/// Where a scan of JSON text stands: outside a string literal, inside one,
/// or inside one right after a backslash.
#[derive(Clone, Copy, Debug, PartialEq, Eq, Structural)]
pub enum Scan {
    Outside,
    InString,
    Escaped,
}

/// Whether the byte `b`, met in the state `scan`, belongs to the compact form.
/// Only white space outside string literals does not.
pub open spec fn kept(scan: Scan, b: u8) -> bool {
    scan != Scan::Outside || !is_space(b)
}

/// The state of the scan after the byte `b` was met in the state `scan`. A
/// double quote opens and closes a string literal, except after a backslash
/// inside one.
pub open spec fn scan_after(scan: Scan, b: u8) -> Scan {
    match scan {
        Scan::Outside => if b == 34 {
            Scan::InString
        } else {
            Scan::Outside
        },
        Scan::InString => if b == 92 {
            Scan::Escaped
        } else if b == 34 {
            Scan::Outside
        } else {
            Scan::InString
        },
        Scan::Escaped => Scan::InString,
    }
}

/// The compact form of the part of `s` that starts at `i`, where the scan
/// arrives in the state `scan`.
pub open spec fn compact_from(s: Seq<u8>, i: int, scan: Scan) -> Seq<u8>
    decreases s.len() - i,
{
    if i < 0 || i >= s.len() {
        Seq::empty()
    } else if kept(scan, s[i]) {
        seq![s[i]] + compact_from(s, i + 1, scan_after(scan, s[i]))
    } else {
        compact_from(s, i + 1, scan_after(scan, s[i]))
    }
}

/// The compact form of `s`: `s` without the white space outside string
/// literals.
pub open spec fn json_compact(s: Seq<u8>) -> Seq<u8> {
    compact_from(s, 0, Scan::Outside)
}

/// Whether `actual` matches `expected` under `comparison`.
pub open spec fn body_matches(
    expected: Seq<u8>,
    actual: Seq<u8>,
    comparison: BodyComparison,
) -> bool {
    match comparison {
        BodyComparison::Exact => expected == actual,
        BodyComparison::JsonLayout => json_compact(expected) == json_compact(actual),
        BodyComparison::JsonValue => match (parse_document(expected), parse_document(actual)) {
            (Some(e), Some(a)) => same_json(e, a),
            _ => expected == actual,
        },
    }
}

/// The state in which a scan of `s` from its start arrives at position `k`.
pub open spec fn scan_before(s: Seq<u8>, k: int) -> Scan
    decreases k,
{
    if k <= 0 || k > s.len() {
        Scan::Outside
    } else {
        scan_after(scan_before(s, k - 1), s[k - 1])
    }
}

/// The compact form of `bytes`.
pub fn compact(bytes: &[u8]) -> (out: Vec<u8>)
    ensures
        out@ == json_compact(bytes@),
{
    let mut out: Vec<u8> = Vec::new();
    let mut scan = Scan::Outside;
    let mut i: usize = 0;
    assert(out@ + compact_from(bytes@, 0, scan) =~= json_compact(bytes@));
    while i < bytes.len()
        invariant
            i <= bytes.len(),
            json_compact(bytes@) == out@ + compact_from(bytes@, i as int, scan),
        decreases bytes.len() - i,
    {
        let b = bytes[i];
        let space = b == 32 || b == 9 || b == 10 || b == 13;
        let next = match scan {
            Scan::Outside => if b == 34 {
                Scan::InString
            } else {
                Scan::Outside
            },
            Scan::InString => if b == 92 {
                Scan::Escaped
            } else if b == 34 {
                Scan::Outside
            } else {
                Scan::InString
            },
            Scan::Escaped => Scan::InString,
        };
        let ghost before = out@;
        let ghost rest = compact_from(bytes@, i + 1, next);
        if scan != Scan::Outside || !space {
            out.push(b);
            assert(before + (seq![b] + rest) =~= before.push(b) + rest);
        }
        scan = next;
        i += 1;
    }
    assert(out@ + Seq::<u8>::empty() =~= out@);
    out
}

/// Compares the body `actual` with the body `expected` under `comparison`.
pub fn bodies_match(expected: &[u8], actual: &[u8], comparison: BodyComparison) -> (r: bool)
    ensures
        r == body_matches(expected@, actual@, comparison),
{
    match comparison {
        BodyComparison::Exact => same_bytes(expected, actual),
        BodyComparison::JsonLayout => {
            let e = compact(expected);
            let a = compact(actual);
            same_bytes(e.as_slice(), a.as_slice())
        },
        BodyComparison::JsonValue => {
            match read_document(expected) {
                Some(e) => match read_document(actual) {
                    Some(a) => same_value(&e, &a),
                    None => same_bytes(expected, actual),
                },
                None => same_bytes(expected, actual),
            }
        },
    }
}

} // verus!

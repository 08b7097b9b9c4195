//! Null-tolerant decoding of string fields.
//!
//! The backend may transmit any string-typed field as JSON `null` instead of
//! an absent or empty value. Decoding substitutes the empty string for
//! `null`, so that downstream code never handles an optional string; a
//! literal string value is kept exactly. This widens acceptance of the null
//! case only: a document of any other shape is still rejected.

use vstd::prelude::*;

use crate::json::JsonValue;
use crate::json::spec_arr_elems;

verus! {

/// What a null-tolerant string field decodes to: the empty string for
/// `null`, the characters themselves for a string, nothing for any other
/// document.
pub open spec fn spec_string_or_empty(v: JsonValue) -> Option<Seq<char>> {
    match v {
        JsonValue::Null => Some(Seq::empty()),
        JsonValue::Str(s) => Some(s@),
        _ => None,
    }
}

/// Every element of the sequence decodes as a null-tolerant string.
pub open spec fn spec_all_nullable_strings(elems: Seq<JsonValue>) -> bool {
    forall|i: int| 0 <= i < elems.len() ==> spec_string_or_empty(#[trigger] elems[i]) is Some
}

/// The element-wise decoding of a sequence of null-tolerant strings;
/// meaningful when `spec_all_nullable_strings` holds of the sequence.
pub open spec fn spec_decoded_strings(elems: Seq<JsonValue>) -> Seq<Seq<char>> {
    Seq::new(elems.len(), |i: int| spec_string_or_empty(elems[i])->0)
}

/// Decodes one null-tolerant string field: `null` becomes the empty string,
/// a string value is kept exactly, and any other document is rejected.
pub fn parse_null_string(v: &JsonValue) -> (r: Option<String>)
    ensures
        r is Some <==> spec_string_or_empty(*v) is Some,
        r is Some ==> r->0@ == spec_string_or_empty(*v)->0,
{
    match v {
        JsonValue::Null => Some(String::new()),
        JsonValue::Str(s) => Some(s.clone()),
        _ => None,
    }
}

/// Decodes a string-array field element-wise: each element may be `null`
/// (becoming the empty string) or a string; any other element, or a
/// document that is not an array, is rejected.
pub fn parse_null_string_vec(v: &JsonValue) -> (r: Option<Vec<String>>)
    ensures
        r is Some <==> (*v is Arr && spec_all_nullable_strings(spec_arr_elems(*v))),
        r is Some ==> r->0.deep_view() == spec_decoded_strings(spec_arr_elems(*v)),
{
    match v {
        JsonValue::Arr(elems) => {
            let n = elems.len();
            let mut out: Vec<String> = Vec::new();
            let mut i: usize = 0;
            while i < n
                invariant
                    *v is Arr && spec_arr_elems(*v) == elems@,
                    n == elems@.len(),
                    i <= n,
                    out@.len() == i,
                    forall|j: int|
                        0 <= j < i ==> spec_string_or_empty(#[trigger] elems@[j]) is Some,
                    forall|j: int|
                        0 <= j < i ==> out@[j]@ == spec_string_or_empty(#[trigger] elems@[j])->0,
                decreases n - i,
            {
                match parse_null_string(&elems[i]) {
                    Some(s) => out.push(s),
                    None => {
                        return None;
                    },
                }
                i += 1;
            }
            proof {
                assert(out.deep_view() =~= spec_decoded_strings(elems@));
            }
            Some(out)
        },
        _ => None,
    }
}

} // verus!

//! The JSON bodies of the LED endpoint: the request `{"is_on": bool}` and
//! the response `{"success": true}`.
//!
//! The accepted request grammar is exactly one object with the single
//! member `"is_on"` whose value is the literal `true` or `false`, with
//! JSON whitespace (space, tab, line feed, carriage return) allowed
//! around the tokens. Anything else — a missing member, another member
//! name, a value of another type, trailing text — is malformed.

use vstd::prelude::*;

use crate::bytes::{json_ws_end, json_ws_end_exec, matches_at, matches_at_exec};
use vstd::string::StringSliceAdditionalSpecFns;

verus! {

/// The quoted member name the request must carry.
pub open spec fn led_key() -> Seq<u8> {
    "\"is_on\"".spec_bytes()
}

/// The literal `true`.
pub open spec fn true_lit() -> Seq<u8> {
    "true".spec_bytes()
}

/// The literal `false`.
pub open spec fn false_lit() -> Seq<u8> {
    "false".spec_bytes()
}

/// The response body every successful LED request gets.
pub open spec fn success_body() -> Seq<u8> {
    "{\"success\":true}".spec_bytes()
}

/// Whether, from `i` on, `s` holds only the closing brace and JSON
/// whitespace around it.
pub open spec fn led_close_ok(s: Seq<u8>, i: int) -> bool {
    let j = json_ws_end(s, i);
    &&& j < s.len()
    &&& s[j] == '}' as u8
    &&& json_ws_end(s, j + 1) == s.len()
}

/// The LED intent denoted by the body `s`, or `None` where `s` is
/// malformed.
pub open spec fn parse_led_body_spec(s: Seq<u8>) -> Option<bool> {
    let i0 = json_ws_end(s, 0);
    if !(i0 < s.len() && s[i0] == '{' as u8) {
        None
    } else {
        let i1 = json_ws_end(s, i0 + 1);
        if !matches_at(s, i1, led_key()) {
            None
        } else {
            let i2 = json_ws_end(s, i1 + led_key().len());
            if !(i2 < s.len() && s[i2] == ':' as u8) {
                None
            } else {
                let i3 = json_ws_end(s, i2 + 1);
                if matches_at(s, i3, true_lit()) && led_close_ok(s, i3 + true_lit().len()) {
                    Some(true)
                } else if matches_at(s, i3, false_lit()) && led_close_ok(
                    s,
                    i3 + false_lit().len(),
                ) {
                    Some(false)
                } else {
                    None
                }
            }
        }
    }
}

/// Whether only the closing brace (and whitespace) follows at `i`.
fn led_close_ok_exec(s: &[u8], i: usize) -> (r: bool)
    requires
        i <= s@.len(),
    ensures
        r == led_close_ok(s@, i as int),
{
    let j = json_ws_end_exec(s, i);
    if j >= s.len() || s[j] != '}' as u8 {
        return false;
    }
    let k = json_ws_end_exec(s, j + 1);
    k == s.len()
}

/// Parse the LED request body: `Some` of the requested value where the
/// body is well-formed, `None` where it is malformed.
pub fn parse_led_body(s: &[u8]) -> (r: Option<bool>)
    ensures
        r == parse_led_body_spec(s@),
{
    let i0 = json_ws_end_exec(s, 0);
    if i0 >= s.len() || s[i0] != '{' as u8 {
        return None;
    }
    let i1 = json_ws_end_exec(s, i0 + 1);
    let key = "\"is_on\"".as_bytes();
    if !matches_at_exec(s, i1, key) {
        return None;
    }
    let i2 = json_ws_end_exec(s, i1 + key.len());
    if i2 >= s.len() || s[i2] != ':' as u8 {
        return None;
    }
    let i3 = json_ws_end_exec(s, i2 + 1);
    let t = "true".as_bytes();
    let f = "false".as_bytes();
    if matches_at_exec(s, i3, t) && led_close_ok_exec(s, i3 + t.len()) {
        Some(true)
    } else if matches_at_exec(s, i3, f) && led_close_ok_exec(s, i3 + f.len()) {
        Some(false)
    } else {
        None
    }
}

/// The success response body, as bytes.
pub fn success_body_bytes() -> (v: Vec<u8>)
    ensures
        v@ == success_body(),
{
    vstd::slice::slice_to_vec("{\"success\":true}".as_bytes())
}

} // verus!

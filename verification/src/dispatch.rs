use vstd::prelude::*;
use vstd::string::*;
use vstd::utf8::*;
use crate::text::{find_bytes, find_bytes_exec, lowercase, to_lowercase, trim, trim_str};

verus! {

/// The UTF-8 bytes of "role:", the marker that opens a request from one agent to another.
pub open spec fn role_marker() -> Seq<u8> {
    seq![114u8, 111u8, 108u8, 101u8, 58u8]
}

/// The UTF-8 bytes of ", msg:", the marker that separates the addressed role from the message.
pub open spec fn msg_marker() -> Seq<u8> {
    seq![44u8, 32u8, 109u8, 115u8, 103u8, 58u8]
}

/// The byte positions of the first "role:" and the first ", msg:" in the
/// lower-cased form of `text`, where both occur.
pub open spec fn request_positions(text: Seq<char>) -> Option<(int, int)> {
    let low = encode_utf8(lowercase(text));
    match (find_bytes(low, role_marker()), find_bytes(low, msg_marker())) {
        (Some(r), Some(m)) => Some((r, m)),
        _ => None,
    }
}

/// Whether `text` can be cut where its request parts lie: the positions found in
/// the lower-cased form, taken as byte offsets into `text`, run forwards, stay
/// within it and fall on character boundaries. On other text the cut fails.
pub open spec fn request_sliceable(text: Seq<char>) -> bool {
    let b = encode_utf8(text);
    match request_positions(text) {
        Some((r, m)) => {
            &&& r + 5 <= m
            &&& m + 6 <= b.len()
            &&& is_char_boundary(b, r + 5)
            &&& is_char_boundary(b, m)
            &&& is_char_boundary(b, m + 6)
        },
        None => true,
    }
}

/// The request that `text` addresses to another agent, in the form
/// "role: <Role>, msg: <Message>" (markers in any case): the markers are looked
/// for in the lower-cased text, and `text` is cut at the byte offsets found there.
/// The role and the message, trimmed, when both markers occur and neither part is
/// empty.
pub open spec fn inter_agent_request(text: Seq<char>) -> Option<(Seq<char>, Seq<char>)> {
    let b = encode_utf8(text);
    match request_positions(text) {
        Some((r, m)) => {
            let role = trim(decode_utf8(b.subrange(r + 5, m)));
            let msg = trim(decode_utf8(b.subrange(m + 6, b.len() as int)));
            if role.len() > 0 && msg.len() > 0 {
                Some((role, msg))
            } else {
                None
            }
        },
        None => None,
    }
}

fn role_marker_bytes() -> (r: Vec<u8>)
    ensures
        r@ == role_marker(),
{
    let r: Vec<u8> = vec![114, 111, 108, 101, 58];
    assert(r@ =~= role_marker());
    r
}

fn msg_marker_bytes() -> (r: Vec<u8>)
    ensures
        r@ == msg_marker(),
{
    let r: Vec<u8> = vec![44, 32, 109, 115, 103, 58];
    assert(r@ =~= msg_marker());
    r
}

/// A character boundary at or after `from` in valid UTF-8 is one of the bytes
/// from `from` on.
proof fn lemma_boundary_in_tail(b: Seq<u8>, from: int, i: int)
    requires
        valid_utf8(b),
        is_char_boundary(b, from),
        is_char_boundary(b, i),
        0 <= from <= i <= b.len(),
    ensures
        valid_utf8(b.subrange(from, b.len() as int)),
        is_char_boundary(b.subrange(from, b.len() as int), i - from),
{
    valid_utf8_split(b, from);
    let t = b.subrange(from, b.len() as int);
    if i == b.len() {
        is_char_boundary_start_end_of_seq(t);
    } else {
        is_char_boundary_iff_not_is_continuation_byte(b, i);
        is_char_boundary_iff_not_is_continuation_byte(t, i - from);
        assert(t[i - from] == b[i]);
    }
}

/// Whether a request in `text` can be cut where its parts lie.
pub fn request_sliceable_exec(text: &str) -> (r: bool)
    ensures
        r == request_sliceable(text@),
{
    let lower = to_lowercase(text);
    let low = lower.as_str().as_bytes();
    let role_m = role_marker_bytes();
    let msg_m = msg_marker_bytes();
    match (find_bytes_exec(low, &role_m), find_bytes_exec(low, &msg_m)) {
        (Some(r), Some(m)) => {
            let n = text.as_bytes().len();
            r + 5 <= m && m + 6 <= n && text.is_char_boundary(r + 5)
                && text.is_char_boundary(m) && text.is_char_boundary(m + 6)
        },
        _ => true,
    }
}

/// Reads a request to another agent out of `text`: "role: <Role>, msg: <Message>".
/// The markers are found in the lower-cased text and `text` is cut at those byte
/// offsets. Returns the trimmed role and message, or `None` where a marker is
/// missing or a part is empty.
pub fn detect_inter_agent_request(text: &str) -> (r: Option<(String, String)>)
    requires
        request_sliceable(text@),
    ensures
        match r {
            Some((role, msg)) => inter_agent_request(text@) == Some((role@, msg@)),
            None => inter_agent_request(text@) is None,
        },
{
    let lower = to_lowercase(text);
    let low = lower.as_str().as_bytes();
    let role_m = role_marker_bytes();
    let msg_m = msg_marker_bytes();
    match find_bytes_exec(low, &role_m) {
        Some(r) => match find_bytes_exec(low, &msg_m) {
            Some(m) => {
                let ghost b = encode_utf8(text@);
                proof {
                    encode_utf8_valid_utf8(text@);
                    lemma_boundary_in_tail(b, r + 5, m as int);
                }
                let (_, tail) = text.split_at(r + 5);
                let (role_part, _) = tail.split_at(m - (r + 5));
                let (_, msg_part) = text.split_at(m + 6);
                proof {
                    assert(role_part.spec_bytes() =~= b.subrange(r + 5, m as int));
                    encode_utf8_decode_utf8(role_part@);
                    encode_utf8_decode_utf8(msg_part@);
                }
                let role = trim_str(role_part);
                let msg = trim_str(msg_part);
                if !role.as_str().is_empty() && !msg.as_str().is_empty() {
                    Some((role, msg))
                } else {
                    None
                }
            },
            None => None,
        },
        None => None,
    }
}

/// Reads a request to another agent out of `text` where `text` can be cut at the
/// markers found: `None` where the cut would fail, else what
/// `detect_inter_agent_request` reads.
pub fn read_inter_agent_request(text: &str) -> (r: Option<Option<(String, String)>>)
    ensures
        r is None <==> !request_sliceable(text@),
        r matches Some(found) ==> match found {
            Some((role, msg)) => inter_agent_request(text@) == Some((role@, msg@)),
            None => inter_agent_request(text@) is None,
        },
{
    if request_sliceable_exec(text) {
        Some(detect_inter_agent_request(text))
    } else {
        None
    }
}

} // verus!

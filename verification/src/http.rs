//! The telemetry reply: fixed header block and JSON body with the latest
//! distance, printed to exactly two decimal places.
//!
//! The body text is derived character by character from the sample's
//! canonical value in hundredths of a centimeter, so the printed decimals
//! are exact.  The reply is assembled in a bounded buffer
//! (see [`crate::textbuf`]); the proofs here show that every piece fits.

use vstd::prelude::*;
use vstd::string::StringExecFns;
use vstd::utf8::is_ascii_chars;
use vstd::utf8::is_ascii_chars_concat;

use crate::distance::MAX_RANGE_CM_X100;
use crate::textbuf::RESPONSE_CAPACITY;
use crate::textbuf::buffer_chars;
use crate::textbuf::buffer_new;
use crate::textbuf::buffer_push_str;

verus! {

/// The character of one decimal digit.
pub open spec fn digit_char(d: int) -> char {
    if d == 0 {
        '0'
    } else if d == 1 {
        '1'
    } else if d == 2 {
        '2'
    } else if d == 3 {
        '3'
    } else if d == 4 {
        '4'
    } else if d == 5 {
        '5'
    } else if d == 6 {
        '6'
    } else if d == 7 {
        '7'
    } else if d == 8 {
        '8'
    } else {
        '9'
    }
}

/// Decimal text of a whole number below 1000, without leading zeros.
pub open spec fn spec_whole_chars(w: int) -> Seq<char> {
    if w >= 100 {
        seq![digit_char(w / 100), digit_char(w / 10 % 10), digit_char(w % 10)]
    } else if w >= 10 {
        seq![digit_char(w / 10), digit_char(w % 10)]
    } else {
        seq![digit_char(w)]
    }
}

/// Text of a distance in hundredths of a centimeter: the whole centimeters,
/// a dot, and exactly two decimals.
pub open spec fn spec_distance_chars(cm_x100: int) -> Seq<char> {
    spec_whole_chars(cm_x100 / 100) + seq!['.', digit_char(cm_x100 / 10 % 10), digit_char(
        cm_x100 % 10,
    )]
}

/// The slice holding one decimal digit.
fn digit_str(d: u64) -> (s: &'static str)
    requires
        d < 10,
    ensures
        s@ =~= seq![digit_char(d as int)],
{
    proof {
        reveal_strlit("0");
        reveal_strlit("1");
        reveal_strlit("2");
        reveal_strlit("3");
        reveal_strlit("4");
        reveal_strlit("5");
        reveal_strlit("6");
        reveal_strlit("7");
        reveal_strlit("8");
        reveal_strlit("9");
    }
    if d == 0 {
        "0"
    } else if d == 1 {
        "1"
    } else if d == 2 {
        "2"
    } else if d == 3 {
        "3"
    } else if d == 4 {
        "4"
    } else if d == 5 {
        "5"
    } else if d == 6 {
        "6"
    } else if d == 7 {
        "7"
    } else if d == 8 {
        "8"
    } else {
        "9"
    }
}

/// Every character of a printed distance is ASCII (a digit or the dot).
pub proof fn lemma_distance_chars_ascii(cm_x100: int)
    ensures
        is_ascii_chars(spec_distance_chars(cm_x100)),
        4 <= spec_distance_chars(cm_x100).len() <= 6,
{
}

/// Prints a distance in hundredths of a centimeter as centimeters with
/// exactly two decimal places.
#[verifier::rlimit(60)]
pub fn format_distance(cm_x100: u64) -> (s: String)
    requires
        cm_x100 <= MAX_RANGE_CM_X100,
    ensures
        s@ == spec_distance_chars(cm_x100 as int),
{
    proof {
        reveal_strlit(".");
    }
    let whole = cm_x100 / 100;
    let frac = cm_x100 % 100;
    let mut s = String::new();
    if whole >= 100 {
        s.append(digit_str(whole / 100));
        s.append(digit_str(whole / 10 % 10));
        s.append(digit_str(whole % 10));
    } else if whole >= 10 {
        s.append(digit_str(whole / 10));
        s.append(digit_str(whole % 10));
    } else {
        s.append(digit_str(whole));
    }
    s.append(".");
    s.append(digit_str(frac / 10));
    s.append(digit_str(frac % 10));
    proof {
        assert(s@ =~= spec_distance_chars(cm_x100 as int));
    }
    s
}

/// The full reply owed for a distance: the status line, the fixed headers
/// declaring JSON content, connection-close and unrestricted cross-origin
/// access, a blank line, and the JSON body with the printed distance.
pub open spec fn spec_response_chars(cm_x100: int) -> Seq<char> {
    "HTTP/1.1 200 OK\r\n"@ + "Content-Type: application/json\r\n"@ + "Connection: close\r\n"@
        + "Access-Control-Allow-Origin: *\r\n"@ + "\r\n"@
        + "{\"object\": \"detected\", \"distance\": "@ + spec_distance_chars(cm_x100) + "}\r\n"@
}

/// Appends one ASCII piece that is known to fit within the buffer's
/// remaining capacity.
fn push_piece(buf: &mut heapless::String<256>, piece: &str)
    requires
        is_ascii_chars(buffer_chars(*old(buf))),
        is_ascii_chars(piece@),
        buffer_chars(*old(buf)).len() + piece@.len() <= RESPONSE_CAPACITY,
    ensures
        buffer_chars(*final(buf)) == buffer_chars(*old(buf)) + piece@,
        is_ascii_chars(buffer_chars(*final(buf))),
{
    let r = buffer_push_str(buf, piece);
    proof {
        assert(r is Ok);
        is_ascii_chars_concat(buffer_chars(*buf), buffer_chars(*old(buf)), piece@);
    }
}

/// Builds the reply for the latest sample in a bounded buffer.  Every piece
/// is proved to fit within the buffer's capacity, so assembly cannot fail.
pub fn build_http_response(cm_x100: u64) -> (r: heapless::String<256>)
    requires
        cm_x100 <= MAX_RANGE_CM_X100,
    ensures
        buffer_chars(r) == spec_response_chars(cm_x100 as int),
        is_ascii_chars(buffer_chars(r)),
{
    proof {
        reveal_strlit("HTTP/1.1 200 OK\r\n");
        reveal_strlit("Content-Type: application/json\r\n");
        reveal_strlit("Connection: close\r\n");
        reveal_strlit("Access-Control-Allow-Origin: *\r\n");
        reveal_strlit("\r\n");
        reveal_strlit("{\"object\": \"detected\", \"distance\": ");
        reveal_strlit("}\r\n");
        lemma_distance_chars_ascii(cm_x100 as int);
    }
    let mut buf = buffer_new();
    push_piece(&mut buf, "HTTP/1.1 200 OK\r\n");
    push_piece(&mut buf, "Content-Type: application/json\r\n");
    push_piece(&mut buf, "Connection: close\r\n");
    push_piece(&mut buf, "Access-Control-Allow-Origin: *\r\n");
    push_piece(&mut buf, "\r\n");
    push_piece(&mut buf, "{\"object\": \"detected\", \"distance\": ");
    let distance = format_distance(cm_x100);
    push_piece(&mut buf, distance.as_str());
    push_piece(&mut buf, "}\r\n");
    proof {
        assert(buffer_chars(buf) =~= spec_response_chars(cm_x100 as int));
    }
    buf
}

} // verus!

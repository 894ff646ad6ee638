//! Helpers shared by the server parts.

use vstd::prelude::*;
use vstd::string::StringSliceAdditionalSpecFns;

use crate::text::{decimal, push_char, push_decimal, push_str};

verus! {

/// The character a URI byte stands for in a D-Bus object path: ASCII letters,
/// digits and `_` stay, every other byte becomes `_`.
pub open spec fn track_id_char(b: u8) -> char {
    if (65 <= b <= 90) || (97 <= b <= 122) || (48 <= b <= 57) || b == 95 {
        b as char
    } else {
        '_'
    }
}

pub open spec fn track_id_chars(b: Seq<u8>) -> Seq<char> {
    b.map_values(|x: u8| track_id_char(x))
}

/// Turns the URI into a valid D-Bus object path: `/foksal/<id>_` followed by
/// one character per byte of the URI.
pub fn uri_to_track_id(uri: &str, id: usize) -> (r: String)
    ensures
        r@ == "/foksal/"@ + decimal(id as nat) + "_"@ + track_id_chars(uri.spec_bytes()),
{
    let mut safe_uri = String::new();
    push_str(&mut safe_uri, "/foksal/");
    push_decimal(&mut safe_uri, id as u64);
    push_str(&mut safe_uri, "_");
    let ghost prefix = safe_uri@;
    let bytes = uri.as_bytes();
    let mut i: usize = 0;
    while i < bytes.len()
        invariant
            i <= bytes.len(),
            bytes@ == uri.spec_bytes(),
            safe_uri@ == prefix + track_id_chars(bytes@.take(i as int)),
        decreases bytes.len() - i,
    {
        let c = bytes[i];
        let ch: char = if (65u8 <= c && c <= 90u8) || (97u8 <= c && c <= 122u8) || (48u8 <= c && c <= 57u8) || c == 95u8 {
            c as char
        } else {
            '_'
        };
        push_char(&mut safe_uri, ch);
        assert(track_id_chars(bytes@.take(i + 1)) =~= track_id_chars(bytes@.take(i as int)).push(track_id_char(c)));
        i = i + 1;
    }
    assert(bytes@.take(bytes.len() as int) =~= bytes@);
    safe_uri
}

} // verus!

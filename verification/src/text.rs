//! Conversions between error-message strings and their UTF-8 wire bytes.

use vstd::prelude::*;
use vstd::string::StrSliceExecFns;
use vstd::utf8::{encode_utf8, encode_utf8_decode_utf8, valid_utf8};

verus! {

/// The UTF-8 bytes of `s`, as a fresh vector.
pub fn string_bytes(s: &String) -> (r: Vec<u8>)
    ensures
        r@ == encode_utf8(s@),
{
    s.as_str().as_bytes_vec()
}

/// Relies on `String::from_utf8`: it succeeds exactly on valid UTF-8 input,
/// and then returns the string whose UTF-8 encoding is that input.
#[verifier::external_body]
pub fn string_from_utf8(b: Vec<u8>) -> (r: Option<String>)
    ensures
        match r {
            Some(s) => b@ == encode_utf8(s@),
            None => !valid_utf8(b@),
        },
{
    String::from_utf8(b).ok()
}

/// UTF-8 encoding is injective: two strings with the same bytes are the same
/// string. This is what lets a decoded error message be traced back to the
/// one the server sent.
pub proof fn lemma_encode_utf8_injective(s1: Seq<char>, s2: Seq<char>)
    requires
        encode_utf8(s1) == encode_utf8(s2),
    ensures
        s1 == s2,
{
    encode_utf8_decode_utf8(s1);
    encode_utf8_decode_utf8(s2);
}

} // verus!

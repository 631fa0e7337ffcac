//! Strings across the host boundary: the host takes and hands back
//! NUL-terminated bytes.
use vstd::prelude::*;
use vstd::utf8::*;
use crate::error::{ByondError, ByondResult};

verus! {

/// What `String::from_utf8_lossy` makes of `b`.
pub uninterp spec fn utf8_lossy(b: Seq<u8>) -> Seq<char>;

/// Relies on `std::str::from_utf8`: it succeeds exactly on valid UTF-8, and
/// the string it gives has those bytes.
#[verifier::external_body]
fn decode_utf8_strict(bytes: &[u8]) -> (r: Option<String>)
    ensures
        r is Some <==> valid_utf8(bytes@),
        r is Some ==> encode_utf8(r->Some_0@) == bytes@,
{
    std::str::from_utf8(bytes).ok().map(|s| s.to_owned())
}

/// Relies on `String::from_utf8_lossy`, which replaces each invalid sequence
/// by U+FFFD and keeps valid UTF-8 as it is.
#[verifier::external_body]
fn decode_utf8_lossy(bytes: &[u8]) -> (r: String)
    ensures
        r@ == utf8_lossy(bytes@),
        valid_utf8(bytes@) ==> encode_utf8(r@) == bytes@,
{
    String::from_utf8_lossy(bytes).into_owned()
}

/// `p` is the position of the first NUL byte of `b`.
pub open spec fn is_first_nul(b: Seq<u8>, p: int) -> bool {
    0 <= p < b.len() && b[p] == 0 && forall|i: int| 0 <= i < p ==> b[i] != 0
}

/// `b` holds no NUL byte.
pub open spec fn nul_free(b: Seq<u8>) -> bool {
    forall|i: int| 0 <= i < b.len() ==> b[i] != 0
}

/// The bytes handed to the host to make a string of `bytes`: the bytes and a
/// terminating NUL.
pub fn string_payload(bytes: &[u8]) -> (r: Vec<u8>)
    ensures
        r@ == bytes@.push(0),
{
    let mut r: Vec<u8> = Vec::new();
    let mut i: usize = 0;
    while i < bytes.len()
        invariant
            i <= bytes@.len(),
            r@ == bytes@.take(i as int),
        decreases bytes@.len() - i,
    {
        r.push(bytes[i]);
        i = i + 1;
        assert(r@ =~= bytes@.take(i as int));
    }
    assert(bytes@.take(i as int) =~= bytes@);
    r.push(0);
    r
}

/// The position of the first NUL byte of `buffer`, if it has one.
pub fn find_nul(buffer: &[u8]) -> (r: Option<usize>)
    ensures
        match r {
            Some(p) => is_first_nul(buffer@, p as int),
            None => nul_free(buffer@),
        },
{
    let mut i: usize = 0;
    while i < buffer.len()
        invariant
            i <= buffer@.len(),
            forall|j: int| 0 <= j < i ==> buffer@[j] != 0,
        decreases buffer@.len() - i,
    {
        if buffer[i] == 0 {
            return Some(i);
        }
        i = i + 1;
    }
    None
}

/// The string that a host buffer holds: the bytes before its first NUL,
/// decoded as UTF-8. A buffer with no NUL, or (unless `lossy`) with invalid
/// UTF-8 before it, gives `NonUtf8String`; with `lossy`, invalid sequences
/// become U+FFFD.
pub fn buffer_to_string(buffer: &[u8], lossy: bool) -> (r: ByondResult<String>)
    ensures
        nul_free(buffer@) ==> r matches Err(ByondError::NonUtf8String),
        forall|p: int| #[trigger] is_first_nul(buffer@, p) ==> {
            let text = buffer@.take(p);
            &&& lossy ==> r is Ok && r->Ok_0@ == utf8_lossy(text)
            &&& !lossy && valid_utf8(text) ==> r is Ok && encode_utf8(r->Ok_0@) == text
            &&& !lossy && !valid_utf8(text) ==> r matches Err(ByondError::NonUtf8String)
        },
{
    match find_nul(buffer) {
        None => Err(ByondError::NonUtf8String),
        Some(p) => {
            let text = take_bytes(buffer, p);
            proof {
                assert forall|q: int| is_first_nul(buffer@, q) implies q == p as int by {
                    if q < p as int {
                        assert(buffer@[q] == 0);
                    } else if q > p as int {
                        assert(buffer@[p as int] != 0);
                    }
                }
            }
            if lossy {
                Ok(decode_utf8_lossy(text.as_slice()))
            } else {
                match decode_utf8_strict(text.as_slice()) {
                    Some(s) => Ok(s),
                    None => Err(ByondError::NonUtf8String),
                }
            }
        },
    }
}

fn take_bytes(buffer: &[u8], len: usize) -> (r: Vec<u8>)
    requires
        len <= buffer@.len(),
    ensures
        r@ == buffer@.take(len as int),
{
    let mut r: Vec<u8> = Vec::with_capacity(len);
    let mut i: usize = 0;
    while i < len
        invariant
            i <= len,
            len <= buffer@.len(),
            r@ == buffer@.take(i as int),
        decreases len - i,
    {
        r.push(buffer[i]);
        i = i + 1;
        assert(r@ =~= buffer@.take(i as int));
    }
    r
}

proof fn encode_scalar_nonzero(c: char)
    requires
        c != '\0',
    ensures
        nul_free(encode_scalar(c as u32)),
{
    let v = c as u32;
    assert(v != 0);
    if has_width_1_encoding(v) {
        assert(v <= 0x7F && v != 0 ==> (v & 0x7F) as u8 != 0) by (bit_vector);
    } else if has_width_2_encoding(v) {
        assert(0xC0u8 | ((v >> 6) & 0x1F) as u8 != 0) by (bit_vector);
        assert(0x80u8 | (v & 0x3F) as u8 != 0) by (bit_vector);
    } else if has_width_3_encoding(v) {
        assert(0xE0u8 | ((v >> 12) & 0x0F) as u8 != 0) by (bit_vector);
        assert(0x80u8 | ((v >> 6) & 0x3F) as u8 != 0) by (bit_vector);
        assert(0x80u8 | (v & 0x3F) as u8 != 0) by (bit_vector);
    } else {
        assert(0xF0u8 | ((v >> 18) & 0x7) as u8 != 0) by (bit_vector);
        assert(0x80u8 | ((v >> 12) & 0x3F) as u8 != 0) by (bit_vector);
        assert(0x80u8 | ((v >> 6) & 0x3F) as u8 != 0) by (bit_vector);
        assert(0x80u8 | (v & 0x3F) as u8 != 0) by (bit_vector);
    }
}

proof fn encode_utf8_nul_free(chars: Seq<char>)
    requires
        forall|i: int| 0 <= i < chars.len() ==> chars[i] != '\0',
    ensures
        nul_free(encode_utf8(chars)),
    decreases chars.len(),
{
    if chars.len() > 0 {
        encode_scalar_nonzero(chars[0]);
        let rest = chars.drop_first();
        assert forall|i: int| 0 <= i < rest.len() implies rest[i] != '\0' by {
            assert(rest[i] == chars[i + 1]);
        }
        encode_utf8_nul_free(rest);
    }
}

/// A string without NUL characters, handed to the host as its payload and
/// read back from the host's buffer, comes back unchanged: the payload's
/// first NUL is its terminator, the text before it is valid UTF-8, and the
/// only text with those bytes is the string itself.
pub proof fn string_round_trip(s: Seq<char>)
    requires
        forall|i: int| 0 <= i < s.len() ==> s[i] != '\0',
    ensures
        is_first_nul(encode_utf8(s).push(0), encode_utf8(s).len() as int),
        encode_utf8(s).push(0).take(encode_utf8(s).len() as int) == encode_utf8(s),
        valid_utf8(encode_utf8(s)),
        forall|t: Seq<char>| #[trigger] encode_utf8(t) == encode_utf8(s) ==> t == s,
{
    assert forall|t: Seq<char>| #[trigger] encode_utf8(t) == encode_utf8(s) implies t == s by {
        encode_utf8_decode_utf8(t);
        encode_utf8_decode_utf8(s);
    }
    encode_utf8_nul_free(s);
    encode_utf8_valid_utf8(s);
    assert(encode_utf8(s).push(0).take(encode_utf8(s).len() as int) =~= encode_utf8(s));
}

} // verus!

//! Names and texts as they cross the native boundary.
//!
//! A name goes out as a C string: its bytes and a closing zero. A text comes
//! back as bytes that end at the first zero, and counts only where those bytes
//! are well-formed UTF-8.

use vstd::prelude::*;
use vstd::slice::*;
use vstd::string::*;
use vstd::utf8::*;

verus! {

/// Whether `bytes` holds a zero byte.
pub open spec fn has_nul(bytes: Seq<u8>) -> bool {
    exists|i: int| 0 <= i < bytes.len() && bytes[i] == 0
}

/// The C string that stands for `bytes`: the bytes and a closing zero. Bytes
/// that hold a zero themselves have no C string.
pub open spec fn c_string_of(bytes: Seq<u8>) -> Option<Seq<u8>> {
    if has_nul(bytes) {
        None
    } else {
        Some(bytes.push(0u8))
    }
}

/// The C string of a text.
pub open spec fn c_string_for(text: &str) -> Option<Seq<u8>> {
    c_string_of(text.spec_bytes())
}

/// The name argument of a native call: the C string of the name. An absent
/// name, and one that has no C string, go out as the null pointer.
pub open spec fn c_name_of(name: Option<&str>) -> Option<Seq<u8>> {
    match name {
        Some(s) => c_string_for(s),
        None => None,
    }
}

/// The bytes of an optional buffer.
pub open spec fn bytes_view(c: Option<Vec<u8>>) -> Option<Seq<u8>> {
    match c {
        Some(v) => Some(v@),
        None => None,
    }
}

/// The characters of an optional string.
pub open spec fn chars_view(t: Option<String>) -> Option<Seq<char>> {
    match t {
        Some(s) => Some(s@),
        None => None,
    }
}

/// Whether the text in `buf` is `n` bytes long: no zero among its first `n`
/// bytes, and then the buffer ends or a zero follows.
pub open spec fn is_text_len(buf: Seq<u8>, n: int) -> bool {
    &&& 0 <= n <= buf.len()
    &&& forall|i: int| 0 <= i < n ==> buf[i] != 0
    &&& n < buf.len() ==> buf[n] == 0
}

/// The length of the text in `buf`.
pub open spec fn text_len(buf: Seq<u8>) -> int {
    choose|n: int| is_text_len(buf, n)
}

/// The bytes of the text in `buf`: all that stand before the first zero.
pub open spec fn c_text(buf: Seq<u8>) -> Seq<u8> {
    buf.take(text_len(buf))
}

/// The text in `buf`, where its bytes are well-formed UTF-8.
pub open spec fn text_in(buf: Seq<u8>) -> Option<Seq<char>> {
    if valid_utf8(c_text(buf)) {
        Some(decode_utf8(c_text(buf)))
    } else {
        None
    }
}

/// The text that a native function returned, if it returned any.
pub open spec fn text_in_reply(reply: Option<&[u8]>) -> Option<Seq<char>> {
    match reply {
        Some(buf) => text_in(buf@),
        None => None,
    }
}

/// A buffer has one text length.
pub proof fn lemma_text_len_unique(buf: Seq<u8>, n: int)
    requires
        is_text_len(buf, n),
    ensures
        text_len(buf) == n,
{
    let m: int = text_len(buf);
    assert(is_text_len(buf, m));
    if m < n {
        assert(buf[m] == 0);
    }
    if n < m {
        assert(buf[n] == 0);
    }
}

/// Every buffer has a text length.
pub proof fn lemma_text_len_is(buf: Seq<u8>)
    ensures
        is_text_len(buf, text_len(buf)),
    decreases buf.len(),
{
    if buf.len() == 0 || buf[0] == 0 {
        assert(is_text_len(buf, 0));
    } else {
        let rest = buf.drop_first();
        lemma_text_len_is(rest);
        let n = text_len(rest);
        assert forall|i: int| 0 <= i < n + 1 implies buf[i] != 0 by {
            if i > 0 {
                assert(buf[i] == rest[i - 1]);
            }
        }
        if n + 1 < buf.len() {
            assert(buf[n + 1] == rest[n]);
        }
        assert(is_text_len(buf, n + 1));
    }
}

/// A text that goes out as a C string comes back as the same text: the bytes
/// before the closing zero are its bytes, and they are well-formed.
pub proof fn lemma_c_string_round_trip(chars: Seq<char>)
    requires
        !has_nul(encode_utf8(chars)),
    ensures
        c_string_of(encode_utf8(chars)) matches Some(c) && text_in(c) == Some(chars),
{
    let bytes = encode_utf8(chars);
    let c = bytes.push(0u8);
    assert forall|i: int| 0 <= i < bytes.len() implies c[i] != 0 by {
        assert(c[i] == bytes[i]);
    }
    assert(c[bytes.len() as int] == 0);
    lemma_text_len_unique(c, bytes.len() as int);
    assert(c_text(c) == bytes);
    encode_utf8_valid_utf8(chars);
    encode_utf8_decode_utf8(chars);
}

/// `String::from_utf8`: bytes that are well-formed UTF-8 become the string
/// that is encoded by exactly these bytes; other bytes are refused.
#[verifier::external_body]
fn string_from_utf8(bytes: Vec<u8>) -> (text: Option<String>)
    ensures
        text is Some <==> valid_utf8(bytes@),
        text matches Some(s) ==> encode_utf8(s@) == bytes@,
{
    match String::from_utf8(bytes) {
        Ok(s) => Some(s),
        Err(_) => None,
    }
}

/// The C string of `text`, or nothing where `text` holds a zero byte.
pub fn c_string(text: &str) -> (c: Option<Vec<u8>>)
    ensures
        bytes_view(c) == c_string_for(text),
{
    let bytes: &[u8] = text.as_bytes();
    let mut out: Vec<u8> = Vec::new();
    let mut i: usize = 0;
    while i < bytes.len()
        invariant
            bytes@ == text.spec_bytes(),
            i <= bytes@.len(),
            out@ == bytes@.take(i as int),
            forall|j: int| 0 <= j < i ==> bytes@[j] != 0,
        decreases bytes@.len() - i,
    {
        let b: u8 = bytes[i];
        if b == 0 {
            assert(bytes@[i as int] == 0);
            return None;
        }
        out.push(b);
        assert(bytes@.take(i + 1) == bytes@.take(i as int).push(b));
        i += 1;
    }
    assert(bytes@.take(i as int) == bytes@);
    out.push(0u8);
    Some(out)
}

/// The name argument of a native call, see [`c_name_of`].
pub fn c_name(name: Option<&str>) -> (c: Option<Vec<u8>>)
    ensures
        bytes_view(c) == c_name_of(name),
{
    match name {
        Some(s) => c_string(s),
        None => None,
    }
}

/// The text in a buffer that native code filled: the bytes before the first
/// zero, read as UTF-8. Bytes that are no UTF-8 give no text.
pub fn text_of(buf: &[u8]) -> (text: Option<String>)
    ensures
        chars_view(text) == text_in(buf@),
{
    let mut n: usize = 0;
    while n < buf.len() && buf[n] != 0
        invariant
            n <= buf@.len(),
            forall|j: int| 0 <= j < n ==> buf@[j] != 0,
        decreases buf@.len() - n,
    {
        n += 1;
    }
    proof {
        lemma_text_len_unique(buf@, n as int);
    }
    let bytes: Vec<u8> = slice_to_vec(slice_subrange(buf, 0, n));
    assert(bytes@ == c_text(buf@));
    let text: Option<String> = string_from_utf8(bytes);
    proof {
        if text is Some {
            encode_utf8_decode_utf8(text->0@);
        }
    }
    text
}

/// The text that a native function returned. A null reply is no text.
pub fn text_of_reply(reply: Option<&[u8]>) -> (text: Option<String>)
    ensures
        chars_view(text) == text_in_reply(reply),
{
    match reply {
        Some(buf) => text_of(buf),
        None => None,
    }
}

} // verus!

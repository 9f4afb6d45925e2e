//! Turning a borrowed, null-terminated byte buffer into checked text.
//!
//! A raw string is `None` for a null pointer, and otherwise the bytes that may
//! be read behind the pointer. Its text is what precedes the first zero byte,
//! provided those bytes are well-formed UTF-8.

use vstd::prelude::*;
use vstd::slice::slice_subrange;
use vstd::string::StringSliceAdditionalSpecFns;
use vstd::utf8::*;

verus! {

/// `n` is the position of the first zero byte of `buf`.
pub open spec fn is_terminator_at(buf: Seq<u8>, n: int) -> bool {
    &&& 0 <= n < buf.len()
    &&& buf[n] == 0
    &&& forall|j: int| 0 <= j < n ==> buf[j] != 0
}

/// `buf` holds a zero byte.
pub open spec fn has_terminator(buf: Seq<u8>) -> bool {
    exists|n: int| is_terminator_at(buf, n)
}

/// The position of the first zero byte of a buffer that has one.
pub open spec fn terminator_index(buf: Seq<u8>) -> int
    recommends
        has_terminator(buf),
{
    choose|n: int| is_terminator_at(buf, n)
}

/// The bytes of `buf` that precede its terminator.
pub open spec fn payload(buf: Seq<u8>) -> Seq<u8>
    recommends
        has_terminator(buf),
{
    buf.take(terminator_index(buf))
}

/// The bytes behind a raw string, if its pointer is not null.
pub open spec fn raw_bytes(raw: Option<&[u8]>) -> Option<Seq<u8>> {
    match raw {
        Some(buf) => Some(buf@),
        None => None,
    }
}

/// The text that a raw string stands for: `None` for a null pointer, for a
/// buffer without a terminator, and for a payload that is not UTF-8.
pub open spec fn text_of(raw: Option<Seq<u8>>) -> Option<Seq<char>> {
    match raw {
        Some(buf) => if has_terminator(buf) && valid_utf8(payload(buf)) {
            Some(decode_utf8(payload(buf)))
        } else {
            None
        },
        None => None,
    }
}

/// A buffer has at most one first zero byte.
pub proof fn lemma_terminator_unique(buf: Seq<u8>, n: int)
    requires
        is_terminator_at(buf, n),
    ensures
        has_terminator(buf),
        terminator_index(buf) == n,
        payload(buf) == buf.take(n),
{
    let m = terminator_index(buf);
    assert(is_terminator_at(buf, m));
    if m < n {
        assert(buf[m] != 0);
    }
    if n < m {
        assert(buf[n] != 0);
    }
}

/// A payload without a zero byte, followed by a zero byte and by anything at
/// all, is read back whole: the raw string stands for the payload's text if
/// the payload is well-formed UTF-8, and for no text if it is not.
pub proof fn lemma_text_of_terminated(head: Seq<u8>, tail: Seq<u8>)
    requires
        forall|j: int| 0 <= j < head.len() ==> head[j] != 0,
    ensures
        payload(head + seq![0u8] + tail) == head,
        valid_utf8(head) ==> text_of(Some(head + seq![0u8] + tail)) == Some(decode_utf8(head)),
        !valid_utf8(head) ==> text_of(Some(head + seq![0u8] + tail)).is_none(),
{
    let buf = head + seq![0u8] + tail;
    lemma_terminator_unique(buf, head.len() as int);
    assert(buf.take(head.len() as int) =~= head);
}

/// A null pointer stands for no text, and so does a buffer in which no zero
/// byte is found.
pub proof fn lemma_text_of_unterminated(buf: Seq<u8>)
    requires
        forall|j: int| 0 <= j < buf.len() ==> buf[j] != 0,
    ensures
        text_of(None).is_none(),
        text_of(Some(buf)).is_none(),
{
    assert forall|n: int| !is_terminator_at(buf, n) by {
        if 0 <= n < buf.len() {
            assert(buf[n] != 0);
        }
    }
}

/// The encoding of a scalar other than zero holds no zero byte.
proof fn lemma_encode_scalar_nonzero(scalar: u32)
    requires
        scalar != 0,
    ensures
        forall|j: int| 0 <= j < encode_scalar(scalar).len() ==> encode_scalar(scalar)[j] != 0,
{
    assert(0 < scalar <= 0x7F ==> (scalar & 0x7F) as u8 != 0) by (bit_vector);
    assert(forall|b: u8| 0xC0u8 | b != 0) by (bit_vector);
    assert(forall|b: u8| 0xE0u8 | b != 0) by (bit_vector);
    assert(forall|b: u8| 0xF0u8 | b != 0) by (bit_vector);
    assert(forall|b: u8| 0x80u8 | b != 0) by (bit_vector);
}

/// The encoding of text without the character NUL holds no zero byte.
pub proof fn lemma_encoding_has_no_terminator(text: Seq<char>)
    requires
        forall|i: int| 0 <= i < text.len() ==> text[i] != '\0',
    ensures
        forall|j: int| 0 <= j < encode_utf8(text).len() ==> encode_utf8(text)[j] != 0,
    decreases text.len(),
{
    if text.len() > 0 {
        let first = encode_scalar(text[0] as u32);
        let rest = encode_utf8(text.drop_first());
        char_is_scalar(text[0]);
        if text[0] as u32 == 0 {
            char_u32_cast(text[0], 0);
            char_u32_cast('\0', 0);
        }
        lemma_encode_scalar_nonzero(text[0] as u32);
        assert forall|i: int| 0 <= i < text.drop_first().len() implies text.drop_first()[i]
            != '\0' by {
            assert(text.drop_first()[i] == text[i + 1]);
        }
        lemma_encoding_has_no_terminator(text.drop_first());
        assert forall|j: int| 0 <= j < encode_utf8(text).len() implies encode_utf8(text)[j]
            != 0 by {
            if j < first.len() {
                assert(encode_utf8(text)[j] == first[j]);
            } else {
                assert(encode_utf8(text)[j] == rest[j - first.len()]);
            }
        }
    }
}

/// Text without the character NUL survives the crossing: encoded, closed by
/// a zero byte and followed by anything at all, it is read back as itself.
pub proof fn lemma_text_round_trip(text: Seq<char>, tail: Seq<u8>)
    requires
        forall|i: int| 0 <= i < text.len() ==> text[i] != '\0',
    ensures
        text_of(Some(encode_utf8(text) + seq![0u8] + tail)) == Some(text),
{
    lemma_encoding_has_no_terminator(text);
    encode_utf8_valid_utf8(text);
    encode_utf8_decode_utf8(text);
    lemma_text_of_terminated(encode_utf8(text), tail);
}

/// Finds the first zero byte of `buf`.
pub fn find_terminator(buf: &[u8]) -> (res: Option<usize>)
    ensures
        match res {
            Some(n) => is_terminator_at(buf@, n as int),
            None => !has_terminator(buf@),
        },
{
    let mut i: usize = 0;
    while i < buf.len()
        invariant
            i <= buf@.len(),
            forall|j: int| 0 <= j < i ==> buf@[j] != 0,
        decreases buf@.len() - i,
    {
        if buf[i] == 0 {
            return Some(i);
        }
        i += 1;
    }
    assert forall|n: int| !is_terminator_at(buf@, n) by {
        if 0 <= n < buf@.len() {
            assert(buf@[n] != 0);
        }
    }
    None
}

/// Checks that `bytes` are well-formed UTF-8 and hands them back as text.
///
/// Trusted: `core::str::from_utf8` succeeds exactly on well-formed UTF-8, and
/// the string slice it gives covers the very bytes it was given.
#[verifier::external_body]
fn utf8_text<'a>(bytes: &'a [u8]) -> (res: Option<&'a str>)
    ensures
        res.is_some() <==> valid_utf8(bytes@),
        res matches Some(s) ==> s.spec_bytes() == bytes@,
{
    match core::str::from_utf8(bytes) {
        Ok(s) => Some(s),
        Err(_) => None,
    }
}

/// Validates a raw string and borrows its text.
///
/// Every failure is a plain `None`: a null pointer, a buffer without a
/// terminator, a payload that is not UTF-8. On success the text is the
/// payload, decoded, and it is encoded by exactly the payload's bytes.
pub fn validate_and_borrow<'a>(raw: Option<&'a [u8]>) -> (res: Option<&'a str>)
    ensures
        match res {
            Some(s) => text_of(raw_bytes(raw)) == Some(s@) && s.spec_bytes() == payload(
                raw.unwrap()@,
            ),
            None => text_of(raw_bytes(raw)).is_none(),
        },
{
    let buf = match raw {
        Some(buf) => buf,
        None => { return None; },
    };
    let n = match find_terminator(buf) {
        Some(n) => n,
        None => { return None; },
    };
    proof {
        lemma_terminator_unique(buf@, n as int);
    }
    let res = utf8_text(slice_subrange(buf, 0, n));
    proof {
        if let Some(s) = res {
            encode_utf8_decode_utf8(s@);
        }
    }
    res
}

} // verus!

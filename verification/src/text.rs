//! From a null-padded byte buffer to text.
//!
//! The platform hands out paths and names in buffers of a fixed size, filled up
//! with zero bytes. The text is what stands before that padding, read as UTF-8.

use vstd::prelude::*;
use vstd::utf8::{decode_utf8, valid_utf8};
use crate::error::{DecodeError, NEXMemoryError};

verus! {

/// How many bytes of `bytes` are left once the zero bytes at its end are dropped.
pub open spec fn text_len(bytes: Seq<u8>) -> nat
    decreases bytes.len(),
{
    if bytes.len() > 0 && bytes.last() == 0 {
        text_len(bytes.drop_last())
    } else {
        bytes.len()
    }
}

/// `bytes` without the zero bytes at its end. Zero bytes before the last byte
/// that is not zero stay.
pub open spec fn stripped(bytes: Seq<u8>) -> Seq<u8> {
    bytes.take(text_len(bytes) as int)
}

/// `n` is where the padding of `bytes` begins: from `n` on every byte is zero,
/// and the byte before `n`, if there is one, is not.
pub open spec fn padding_starts_at(bytes: Seq<u8>, n: int) -> bool {
    &&& 0 <= n <= bytes.len()
    &&& n > 0 ==> bytes[n - 1] != 0
    &&& forall|i: int| n <= i < bytes.len() ==> bytes[i] == 0
}

/// What is stripped is the padding and nothing else: the text ends where the
/// zero bytes at the end of the buffer begin, and there is one such place.
pub proof fn law_text_ends_where_padding_starts(bytes: Seq<u8>, n: int)
    ensures
        padding_starts_at(bytes, text_len(bytes) as int),
        padding_starts_at(bytes, n) ==> n == text_len(bytes),
    decreases bytes.len(),
{
    if bytes.len() > 0 && bytes.last() == 0 {
        let shorter = bytes.drop_last();
        law_text_ends_where_padding_starts(shorter, n);
        let k: int = text_len(shorter) as int;
        assert(k > 0 ==> shorter[k - 1] == bytes[k - 1]);
        assert forall|i: int| k <= i < bytes.len() implies bytes[i] == 0 by {
            if i < shorter.len() {
                assert(shorter[i] == bytes[i]);
            }
        }
        if padding_starts_at(bytes, n) {
            assert(n < bytes.len());
            assert(n > 0 ==> shorter[n - 1] == bytes[n - 1]);
            assert forall|i: int| n <= i < shorter.len() implies shorter[i] == 0 by {
                assert(shorter[i] == bytes[i]);
            }
            assert(padding_starts_at(shorter, n));
        }
    } else if padding_starts_at(bytes, n) && n < bytes.len() {
        assert(bytes[bytes.len() - 1] == 0);
    }
}

/// `n` is the length of the longest prefix of `bytes` that is well-formed UTF-8.
pub open spec fn is_valid_up_to(bytes: Seq<u8>, n: int) -> bool {
    &&& 0 <= n <= bytes.len()
    &&& valid_utf8(bytes.take(n))
    &&& forall|m: int| n < m <= bytes.len() ==> !valid_utf8(#[trigger] bytes.take(m))
}

/// The length of the longest prefix of `bytes` that is well-formed UTF-8.
pub open spec fn valid_up_to(bytes: Seq<u8>) -> int {
    choose|n: int| is_valid_up_to(bytes, n)
}

/// There is at most one longest prefix.
pub proof fn lemma_valid_up_to_unique(bytes: Seq<u8>, n: int)
    requires
        is_valid_up_to(bytes, n),
    ensures
        valid_up_to(bytes) == n,
{
    let k: int = valid_up_to(bytes);
    assert(is_valid_up_to(bytes, k));
    if k < n {
        assert(!valid_utf8(bytes.take(n)));
    } else if n < k {
        assert(!valid_utf8(bytes.take(k)));
    }
}

/// What a buffer decodes to: the text before its padding, or the reason why
/// the bytes before its padding are no text.
pub open spec fn decoded(bytes: Seq<u8>) -> Result<Seq<char>, NEXMemoryError> {
    let text = stripped(bytes);
    if valid_utf8(text) {
        Ok(decode_utf8(text))
    } else {
        Err(NEXMemoryError::Other(DecodeError { valid_up_to: valid_up_to(text) as usize }))
    }
}

/// Drops the zero bytes at the end of a buffer.
pub fn strip_padding(bytes: Vec<u8>) -> (text: Vec<u8>)
    ensures
        text@ == stripped(bytes@),
{
    let mut text = bytes;
    let mut n: usize = text.len();
    assert(bytes@.take(n as int) =~= bytes@);
    while n > 0 && text[n - 1] == 0
        invariant
            text@ == bytes@,
            n <= text.len(),
            text_len(bytes@) == text_len(bytes@.take(n as int)),
        decreases n,
    {
        assert(bytes@.take(n as int).drop_last() =~= bytes@.take(n - 1));
        n -= 1;
    }
    text.truncate(n);
    text
}

/// `String::from_utf8` of the standard library, with the failure reduced to
/// the one number this library keeps of it (`Utf8Error::valid_up_to`).
///
/// Trusted, as the documentation of the two has it: the call succeeds exactly
/// on well-formed UTF-8, and the string then holds the characters that the
/// bytes encode; on failure the number is the largest index up to which the
/// input is well-formed.
#[verifier::external_body]
fn string_from_utf8(bytes: Vec<u8>) -> (res: Result<String, usize>)
    ensures
        res is Ok <==> valid_utf8(bytes@),
        res matches Ok(text) ==> text@ == decode_utf8(bytes@),
        res matches Err(n) ==> is_valid_up_to(bytes@, n as int),
{
    match String::from_utf8(bytes) {
        Ok(text) => Ok(text),
        Err(e) => Err(e.utf8_error().valid_up_to()),
    }
}

/// Reads a null-padded buffer as text.
///
/// The zero bytes at the end are dropped. What is left must be well-formed
/// UTF-8; if it is not, the failure says how far it was.
pub fn decode_text(bytes: Vec<u8>) -> (res: Result<String, NEXMemoryError>)
    ensures
        match res {
            Ok(text) => decoded(bytes@) == Ok::<Seq<char>, NEXMemoryError>(text@),
            Err(e) => decoded(bytes@) == Err::<Seq<char>, NEXMemoryError>(e),
        },
{
    let text = strip_padding(bytes);
    match string_from_utf8(text) {
        Ok(s) => Ok(s),
        Err(n) => {
            proof {
                lemma_valid_up_to_unique(stripped(bytes@), n as int);
            }
            Err(NEXMemoryError::Other(DecodeError { valid_up_to: n }))
        },
    }
}

} // verus!

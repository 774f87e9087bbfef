use crate::error::Error;
use vstd::prelude::*;
use vstd::string::StringSliceAdditionalSpecFns;
use vstd::utf8::{
    decode_utf8, encode_utf8, encode_utf8_decode_utf8, encode_utf8_valid_utf8, valid_utf8,
};

verus! {

/// Size of the buffer that the engine fills with an index's text form:
/// fifteen hexadecimal digits and NUL padding.
pub const H3_STRING_BUFFER_LEN: usize = 17;

/// Whether `b` holds a NUL byte.
pub open spec fn holds_nul(b: Seq<u8>) -> bool {
    exists|i: int| 0 <= i < b.len() && b[i] == 0
}

/// `b` without its trailing NUL bytes.
pub open spec fn trim_nuls(b: Seq<u8>) -> Seq<u8>
    decreases b.len(),
{
    if b.len() > 0 && b.last() == 0 {
        trim_nuls(b.drop_last())
    } else {
        b
    }
}

/// The text that stands in for an index whose text form does not decode.
pub open spec fn fallback_text() -> Seq<char> {
    seq!['<', 'i', 'n', 'v', 'a', 'l', 'i', 'd', '>']
}

/// The text form held in the engine's buffer `b`.
pub open spec fn text_of_buffer(b: Seq<u8>) -> Seq<char> {
    if valid_utf8(trim_nuls(b)) {
        decode_utf8(trim_nuls(b))
    } else {
        fallback_text()
    }
}

/// `n` NUL bytes.
pub open spec fn nul_padding(n: nat) -> Seq<u8> {
    Seq::new(n, |i: int| 0u8)
}

proof fn lemma_trim_padding(b: Seq<u8>, n: nat)
    ensures
        trim_nuls(b + nul_padding(n)) == trim_nuls(b),
    decreases n,
{
    if n > 0 {
        let padded = b + nul_padding(n);
        assert(padded.last() == 0);
        assert(padded.drop_last() =~= b + nul_padding((n - 1) as nat));
        lemma_trim_padding(b, (n - 1) as nat);
    } else {
        assert(b + nul_padding(n) =~= b);
    }
}

/// A text free of NUL, encoded as it is handed to the engine's parser and then
/// padded with NULs as the engine pads its text buffer, reads back as the same
/// text.
pub proof fn lemma_padded_text_round_trip(s: Seq<char>, n: nat)
    requires
        !holds_nul(encode_utf8(s)),
    ensures
        text_of_buffer(encode_utf8(s) + nul_padding(n)) == s,
{
    let b = encode_utf8(s);
    lemma_trim_padding(b, n);
    if b.len() > 0 {
        assert(b[b.len() - 1] != 0);
    }
    assert(trim_nuls(b) == b);
    encode_utf8_valid_utf8(s);
    encode_utf8_decode_utf8(s);
}

/// Relies on String::from_utf8: it succeeds exactly on well-formed UTF-8, and
/// the string then holds the characters that the bytes encode.
#[verifier::external_body]
fn decode_utf8_bytes(b: Vec<u8>) -> (r: Option<String>)
    ensures
        r is Some <==> valid_utf8(b@),
        r is Some ==> r->Some_0@ == decode_utf8(b@),
{
    String::from_utf8(b).ok()
}

/// The bytes to hand to the engine's parser for the text `s`: its UTF-8
/// encoding, which the engine reads up to the first NUL. A text holding a NUL
/// is refused.
pub fn engine_text(s: &str) -> (r: Result<Vec<u8>, Error>)
    ensures
        r is Ok <==> !holds_nul(s.spec_bytes()),
        r is Ok ==> r->Ok_0@ == s.spec_bytes(),
        r is Err ==> (r matches Err(Error::InvalidString { value }) && value@ == s@),
{
    let bytes = s.as_bytes();
    let mut out: Vec<u8> = Vec::new();
    let mut i: usize = 0;
    while i < bytes.len()
        invariant
            bytes@ == s.spec_bytes(),
            i <= bytes@.len(),
            out@ == bytes@.subrange(0, i as int),
            !holds_nul(out@),
        decreases bytes@.len() - i,
    {
        if bytes[i] == 0 {
            assert(s.spec_bytes()[i as int] == 0);
            return Err(Error::InvalidString { value: s.to_owned() });
        }
        out.push(bytes[i]);
        i = i + 1;
        assert(out@ == bytes@.subrange(0, i as int));
    }
    assert(out@ == bytes@);
    Ok(out)
}

/// Decodes the buffer that the engine filled with an index's text form:
/// trailing NUL padding is dropped and the rest read as UTF-8; should it not
/// decode, a fixed fallback text stands in, so that the text form never fails.
pub fn text_from_buffer(buf: &[u8]) -> (r: String)
    ensures
        r@ == text_of_buffer(buf@),
{
    let mut n: usize = buf.len();
    assert(buf@.subrange(0, n as int) =~= buf@);
    while n > 0 && buf[n - 1] == 0
        invariant
            n <= buf@.len(),
            trim_nuls(buf@.subrange(0, n as int)) == trim_nuls(buf@),
        decreases n,
    {
        assert(buf@.subrange(0, n as int).drop_last() == buf@.subrange(0, n - 1));
        n = n - 1;
    }
    let mut kept: Vec<u8> = Vec::new();
    let mut i: usize = 0;
    while i < n
        invariant
            n <= buf@.len(),
            i <= n,
            kept@ == buf@.subrange(0, i as int),
        decreases n - i,
    {
        kept.push(buf[i]);
        i = i + 1;
        assert(kept@ == buf@.subrange(0, i as int));
    }
    assert(trim_nuls(kept@) == kept@);
    match decode_utf8_bytes(kept) {
        Some(text) => text,
        None => {
            proof {
                reveal_strlit("<invalid>");
            }
            let fallback = "<invalid>".to_owned();
            assert(fallback@ == fallback_text());
            fallback
        },
    }
}

} // verus!

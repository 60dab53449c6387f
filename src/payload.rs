//! The exported document: decoding it from its transport encoding, the cheap
//! signature check, and its content digest.
use vstd::prelude::*;
use base64::Engine;
use sha2::Digest;
use crate::text::string_of;

verus! {

/// The bytes that standard base64 (with padding) decodes `s` to, where it is
/// valid base64.
pub uninterp spec fn base64_decoded(s: Seq<char>) -> Option<Seq<u8>>;

/// The SHA-256 digest of `data`.
pub uninterp spec fn sha256_of(data: Seq<u8>) -> Seq<u8>;

/// Relies on `base64::engine::general_purpose::STANDARD.decode`: the decoded
/// bytes, or an error where the text is not valid standard base64.
#[verifier::external_body]
pub(crate) fn decode_b64(s: &str) -> (r: Option<Vec<u8>>)
    ensures
        match r {
            Some(v) => base64_decoded(s@) == Some(v@),
            None => base64_decoded(s@) is None,
        },
{
    base64::engine::general_purpose::STANDARD.decode(s.as_bytes()).ok()
}

/// Relies on `sha2::Sha256::digest`: the 32-byte SHA-256 digest of `data`.
#[verifier::external_body]
fn sha256(data: &[u8]) -> (r: Vec<u8>)
    ensures
        r@ == sha256_of(data@),
        r@.len() == 32,
{
    sha2::Sha256::digest(data).to_vec()
}

/// Whether `needle` occurs in `hay` starting at position `i`.
pub open spec fn bytes_at(hay: Seq<u8>, needle: Seq<u8>, i: int) -> bool {
    0 <= i && i + needle.len() <= hay.len() && hay.subrange(i, i + needle.len()) == needle
}

/// Relies on `memchr::memmem::find`: the index of the first occurrence of
/// `needle` in `hay`, if any.
#[verifier::external_body]
fn find_bytes(hay: &[u8], needle: &[u8]) -> (r: Option<usize>)
    ensures
        match r {
            Some(i) => bytes_at(hay@, needle@, i as int) && forall|j: int|
                0 <= j < i ==> !bytes_at(hay@, needle@, j),
            None => forall|j: int| !bytes_at(hay@, needle@, j),
        },
{
    memchr::memmem::find(hay, needle)
}

/// `%PDF-`, which a document starts with.
pub open spec fn header_mark() -> Seq<u8> {
    seq![37u8, 80u8, 68u8, 70u8, 45u8]
}

/// `%%EOF`, which ends a document.
pub open spec fn trailer_mark() -> Seq<u8> {
    seq![37u8, 37u8, 69u8, 79u8, 70u8]
}

/// How many final bytes are searched for the trailer mark.
pub const TRAILER_WINDOW: usize = 4096;

/// The final bytes of a document, where its trailer mark must be.
pub open spec fn tail_window(b: Seq<u8>) -> Seq<u8> {
    if b.len() <= TRAILER_WINDOW {
        b
    } else {
        b.subrange(b.len() - TRAILER_WINDOW, b.len() as int)
    }
}

/// Whether the bytes look like a document: at least eight bytes, the header
/// mark at the start, and the trailer mark within the final window.
pub open spec fn plausible_pdf(b: Seq<u8>) -> bool {
    &&& b.len() >= 8
    &&& b.subrange(0, 5) == header_mark()
    &&& exists|i: int| bytes_at(tail_window(b), trailer_mark(), i)
}

/// Checks the header and trailer marks.
pub fn is_plausible_pdf(bytes: &Vec<u8>) -> (r: bool)
    ensures
        r == plausible_pdf(bytes@),
{
    if bytes.len() < 8 {
        return false;
    }
    let head_ok = bytes[0] == 37u8 && bytes[1] == 80u8 && bytes[2] == 68u8 && bytes[3] == 70u8
        && bytes[4] == 45u8;
    assert(head_ok == (bytes@.subrange(0, 5) =~= header_mark()));
    let start: usize = if bytes.len() > TRAILER_WINDOW {
        bytes.len() - TRAILER_WINDOW
    } else {
        0
    };
    let all = bytes.as_slice();
    let tail = &all[start..bytes.len()];
    assert(tail@ =~= tail_window(bytes@));
    let needle: Vec<u8> = vec![37u8, 37u8, 69u8, 79u8, 70u8];
    assert(needle@ =~= trailer_mark());
    let found = find_bytes(tail, needle.as_slice());
    head_ok && found.is_some()
}

/// The hexadecimal digit for `d < 16`, lower case.
pub open spec fn hex_digit(d: nat) -> char {
    if d < 10 {
        ((48 + d) as u8) as char
    } else {
        ((87 + d) as u8) as char
    }
}

/// Two lower-case hexadecimal digits per byte.
pub open spec fn hex_of(b: Seq<u8>) -> Seq<char>
    decreases b.len(),
{
    if b.len() == 0 {
        Seq::empty()
    } else {
        hex_of(b.drop_last()) + seq![hex_digit(b.last() as nat / 16), hex_digit(b.last() as nat % 16)]
    }
}

fn hex_digit_exec(d: u8) -> (r: char)
    requires
        d < 16,
    ensures
        r == hex_digit(d as nat),
{
    if d < 10 {
        (48u8 + d) as char
    } else {
        (87u8 + d) as char
    }
}

/// The bytes in lower-case hexadecimal.
pub fn hex_lower(bytes: &[u8]) -> (r: String)
    ensures
        r@ == hex_of(bytes@),
{
    let mut out: Vec<char> = Vec::new();
    let mut i: usize = 0;
    while i < bytes.len()
        invariant
            i <= bytes@.len(),
            out@ == hex_of(bytes@.subrange(0, i as int)),
        decreases bytes@.len() - i,
    {
        let b = bytes[i];
        assert(bytes@.subrange(0, i + 1).drop_last() =~= bytes@.subrange(0, i as int));
        out.push(hex_digit_exec(b / 16));
        out.push(hex_digit_exec(b % 16));
        i = i + 1;
    }
    assert(bytes@.subrange(0, i as int) =~= bytes@);
    string_of(&out)
}

/// The content digest of exported bytes: their SHA-256 in lower-case hex.
pub open spec fn content_digest(data: Seq<u8>) -> Seq<char> {
    hex_of(sha256_of(data))
}

/// The content digest of `data`.
pub fn hex_sha256(data: &[u8]) -> (r: String)
    ensures
        r@ == content_digest(data@),
        r@.len() == 64,
{
    let d = sha256(data);
    let r = hex_lower(d.as_slice());
    proof {
        lemma_hex_len(d@);
    }
    r
}

proof fn lemma_hex_len(b: Seq<u8>)
    ensures
        hex_of(b).len() == 2 * b.len(),
    decreases b.len(),
{
    if b.len() > 0 {
        lemma_hex_len(b.drop_last());
    }
}

} // verus!

//! SHA-256 digests and their Base64 text, as passwords are kept.
use vstd::prelude::*;
use vstd::utf8::*;

use base64::Engine;
use sha2::Digest;

verus! {

/// The SHA-256 digest of the bytes, as the `sha2` crate computes it.
pub uninterp spec fn sha256_digest(data: Seq<u8>) -> Seq<u8>;

/// The bytes that the standard Base64 alphabet, with padding, decodes the
/// input to (`base64::engine::general_purpose::STANDARD.decode`), or `None`
/// where it refuses the input.
pub uninterp spec fn base64_decoded(data: Seq<u8>) -> Option<Seq<u8>>;

/// The character of the standard Base64 alphabet for a six-bit value.
pub open spec fn base64_char(v: int) -> char {
    if v < 26 {
        (65 + v) as char
    } else if v < 52 {
        (97 + v - 26) as char
    } else if v < 62 {
        (48 + v - 52) as char
    } else if v == 62 {
        '+'
    } else {
        '/'
    }
}

/// The standard Base64 text of the bytes, with `=` padding: each three bytes
/// become four characters of six bits each, most significant bits first.
pub open spec fn base64_text(data: Seq<u8>) -> Seq<char>
    decreases data.len(),
{
    if data.len() == 0 {
        Seq::empty()
    } else if data.len() == 1 {
        let b0 = data[0] as int;
        seq![base64_char(b0 / 4), base64_char((b0 % 4) * 16), '=', '=']
    } else if data.len() == 2 {
        let b0 = data[0] as int;
        let b1 = data[1] as int;
        seq![base64_char(b0 / 4), base64_char((b0 % 4) * 16 + b1 / 16), base64_char((b1 % 16) * 4), '=']
    } else {
        let b0 = data[0] as int;
        let b1 = data[1] as int;
        let b2 = data[2] as int;
        seq![
            base64_char(b0 / 4),
            base64_char((b0 % 4) * 16 + b1 / 16),
            base64_char((b1 % 16) * 4 + b2 / 64),
            base64_char(b2 % 64),
        ] + base64_text(data.subrange(3, data.len() as int))
    }
}

/// Base64 text has four characters for every three bytes or part of three.
pub proof fn lemma_base64_text_len(data: Seq<u8>)
    ensures
        base64_text(data).len() == 4 * ((data.len() + 2) / 3),
    decreases data.len(),
{
    if data.len() >= 3 {
        lemma_base64_text_len(data.subrange(3, data.len() as int));
    }
}

/// Calls `sha2::Sha256::digest`. Claimed: the digest depends on the bytes
/// alone and has 32 bytes.
#[verifier::external_body]
pub(crate) fn sha256(data: &[u8]) -> (r: Vec<u8>)
    ensures
        r@ == sha256_digest(data@),
        r@.len() == 32,
{
    sha2::Sha256::digest(data).to_vec()
}

/// Calls `base64::engine::general_purpose::STANDARD.encode`. Claimed: the
/// text is the standard padded Base64 of the bytes, as `base64_text` spells
/// it out.
#[verifier::external_body]
pub(crate) fn base64_encode(data: &[u8]) -> (r: String)
    ensures
        r@ == base64_text(data@),
{
    base64::engine::general_purpose::STANDARD.encode(data)
}

/// Calls `base64::engine::general_purpose::STANDARD.decode`. Claimed: the
/// result depends on the input alone, and the bytes of the Base64 text of
/// some data decode to that data.
#[verifier::external_body]
pub(crate) fn base64_decode(data: &[u8]) -> (r: Option<Vec<u8>>)
    ensures
        r matches Some(v) ==> base64_decoded(data@) == Some(v@),
        r is None <==> base64_decoded(data@) is None,
        forall|x: Seq<u8>|
            data@ == encode_utf8(#[trigger] base64_text(x)) ==> (r is Some && r->0@ == x),
{
    base64::engine::general_purpose::STANDARD.decode(data).ok()
}

/// Whether two byte strings are the same.
pub(crate) fn same_bytes(a: &[u8], b: &[u8]) -> (r: bool)
    ensures
        r == (a@ == b@),
{
    if a.len() != b.len() {
        return false;
    }
    let mut i: usize = 0;
    while i < a.len()
        invariant
            a.len() == b.len(),
            i <= a.len(),
            forall|j: int| 0 <= j < i ==> a@[j] == b@[j],
        decreases a.len() - i,
    {
        if a[i] != b[i] {
            return false;
        }
        i = i + 1;
    }
    assert(a@ =~= b@);
    true
}

} // verus!

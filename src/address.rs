//! Content addresses: stable, URL-safe identifiers derived from origin URLs.

use base64::engine::general_purpose::URL_SAFE;
use base64::Engine;
use blake2::{Blake2s256, Digest};
use vstd::prelude::*;
use vstd::utf8::encode_utf8;

verus! {

/// What BLAKE2s-256 makes of a byte string.
pub uninterp spec fn blake2s256_of(bytes: Seq<u8>) -> Seq<u8>;

/// The character of the URL-safe base64 alphabet for a six-bit value.
pub open spec fn base64_url_char(v: u8) -> char {
    if v < 26 {
        (v + 65) as char
    } else if v < 52 {
        (v + 71) as char
    } else if v < 62 {
        (v - 4) as char
    } else if v == 62 {
        '-'
    } else {
        '_'
    }
}

/// Padded base64 over the URL-safe alphabet: each group of three bytes
/// becomes four characters, and a short last group is filled up with `=`.
pub open spec fn base64_url(b: Seq<u8>) -> Seq<char>
    decreases b.len(),
{
    if b.len() == 0 {
        Seq::empty()
    } else if b.len() == 1 {
        seq![base64_url_char(b[0] >> 2), base64_url_char((b[0] & 3) << 4), '=', '=']
    } else if b.len() == 2 {
        seq![
            base64_url_char(b[0] >> 2),
            base64_url_char(((b[0] & 3) << 4) | (b[1] >> 4)),
            base64_url_char((b[1] & 15) << 2),
            '=',
        ]
    } else {
        seq![
            base64_url_char(b[0] >> 2),
            base64_url_char(((b[0] & 3) << 4) | (b[1] >> 4)),
            base64_url_char(((b[1] & 15) << 2) | (b[2] >> 6)),
            base64_url_char(b[2] & 63),
        ] + base64_url(b.subrange(3, b.len() as int))
    }
}

/// The content address of an origin URL: the URL-safe base64 text of the
/// BLAKE2s-256 digest of its UTF-8 bytes.
pub open spec fn content_address(url: Seq<char>) -> Seq<char> {
    base64_url(blake2s256_of(encode_utf8(url)))
}

/// Relies on `blake2::Blake2s256::digest`: the 32-byte BLAKE2s-256 digest of
/// the input.
#[verifier::external_body]
fn blake2s256(bytes: &[u8]) -> (r: Vec<u8>)
    ensures
        r@ == blake2s256_of(bytes@),
        r@.len() == 32,
{
    Blake2s256::digest(bytes).to_vec()
}

/// Relies on `base64::engine::general_purpose::URL_SAFE.encode`: padded
/// base64 over the alphabet `A-Z a-z 0-9 - _`.
#[verifier::external_body]
fn encode_url_safe(bytes: &[u8]) -> (r: String)
    ensures
        r@ == base64_url(bytes@),
{
    URL_SAFE.encode(bytes)
}

/// Computes the content address of `url`.
pub fn address(url: &str) -> (r: String)
    ensures
        r@ == content_address(url@),
{
    let digest = blake2s256(url.as_bytes());
    encode_url_safe(digest.as_slice())
}

proof fn lemma_char_injective(a: u8, b: u8)
    requires
        a < 64,
        b < 64,
        base64_url_char(a) == base64_url_char(b),
    ensures
        a == b,
{
}

proof fn lemma_char_not_pad(v: u8)
    requires
        v < 64,
    ensures
        base64_url_char(v) != '=',
{
}

proof fn lemma_sextets(x0: u8, x1: u8, x2: u8)
    ensures
        x0 >> 2 < 64,
        ((x0 & 3) << 4) | (x1 >> 4) < 64,
        ((x1 & 15) << 2) | (x2 >> 6) < 64,
        x2 & 63 < 64,
        (x0 & 3) << 4 < 64,
        (x1 & 15) << 2 < 64,
{
    assert(x0 >> 2 < 64) by (bit_vector);
    assert(((x0 & 3) << 4) | (x1 >> 4) < 64) by (bit_vector);
    assert(((x1 & 15) << 2) | (x2 >> 6) < 64) by (bit_vector);
    assert(x2 & 63 < 64) by (bit_vector);
    assert((x0 & 3) << 4 < 64) by (bit_vector);
    assert((x1 & 15) << 2 < 64) by (bit_vector);
}

proof fn lemma_one_byte(a0: u8, b0: u8)
    requires
        a0 >> 2 == b0 >> 2,
        (a0 & 3) << 4 == (b0 & 3) << 4,
    ensures
        a0 == b0,
{
    assert(a0 == b0) by (bit_vector)
        requires
            a0 >> 2 == b0 >> 2,
            (a0 & 3) << 4 == (b0 & 3) << 4,
    ;
}

proof fn lemma_two_bytes(a0: u8, a1: u8, b0: u8, b1: u8)
    requires
        a0 >> 2 == b0 >> 2,
        ((a0 & 3) << 4) | (a1 >> 4) == ((b0 & 3) << 4) | (b1 >> 4),
        (a1 & 15) << 2 == (b1 & 15) << 2,
    ensures
        a0 == b0,
        a1 == b1,
{
    assert(a0 == b0 && a1 == b1) by (bit_vector)
        requires
            a0 >> 2 == b0 >> 2,
            ((a0 & 3) << 4) | (a1 >> 4) == ((b0 & 3) << 4) | (b1 >> 4),
            (a1 & 15) << 2 == (b1 & 15) << 2,
    ;
}

proof fn lemma_three_bytes(a0: u8, a1: u8, a2: u8, b0: u8, b1: u8, b2: u8)
    requires
        a0 >> 2 == b0 >> 2,
        ((a0 & 3) << 4) | (a1 >> 4) == ((b0 & 3) << 4) | (b1 >> 4),
        ((a1 & 15) << 2) | (a2 >> 6) == ((b1 & 15) << 2) | (b2 >> 6),
        a2 & 63 == b2 & 63,
    ensures
        a0 == b0,
        a1 == b1,
        a2 == b2,
{
    assert(a0 == b0 && a1 == b1 && a2 == b2) by (bit_vector)
        requires
            a0 >> 2 == b0 >> 2,
            ((a0 & 3) << 4) | (a1 >> 4) == ((b0 & 3) << 4) | (b1 >> 4),
            ((a1 & 15) << 2) | (a2 >> 6) == ((b1 & 15) << 2) | (b2 >> 6),
            a2 & 63 == b2 & 63,
    ;
}

/// What the first four characters of the encoding reveal of the length:
/// the third is padding only for one byte, the fourth only for fewer than
/// three.
proof fn lemma_head(b: Seq<u8>)
    requires
        b.len() > 0,
    ensures
        base64_url(b).len() >= 4,
        (base64_url(b)[2] == '=') == (b.len() == 1),
        (base64_url(b)[3] == '=') == (b.len() <= 2),
{
    if b.len() == 1 {
        lemma_sextets(b[0], 0, 0);
        lemma_char_not_pad(b[0] >> 2);
    } else if b.len() == 2 {
        lemma_sextets(b[0], b[1], 0);
        lemma_char_not_pad((b[1] & 15) << 2);
    } else {
        lemma_sextets(b[0], b[1], b[2]);
        lemma_char_not_pad(((b[1] & 15) << 2) | (b[2] >> 6));
        lemma_char_not_pad(b[2] & 63);
    }
}

/// Distinct byte strings have distinct encodings.
pub proof fn lemma_base64_url_injective(a: Seq<u8>, b: Seq<u8>)
    requires
        base64_url(a) == base64_url(b),
    ensures
        a == b,
    decreases a.len(),
{
    if a.len() == 0 || b.len() == 0 {
        if a.len() > 0 {
            lemma_head(a);
        }
        if b.len() > 0 {
            lemma_head(b);
        }
        assert(a =~= b);
    } else {
        lemma_head(a);
        lemma_head(b);
        let e = base64_url(a);
        assert(e[0] == base64_url(b)[0]);
        assert(e[1] == base64_url(b)[1]);
        if a.len() == 1 {
            lemma_sextets(a[0], 0, 0);
            lemma_sextets(b[0], 0, 0);
            lemma_char_injective(a[0] >> 2, b[0] >> 2);
            lemma_char_injective((a[0] & 3) << 4, (b[0] & 3) << 4);
            lemma_one_byte(a[0], b[0]);
            assert(a =~= b);
        } else if a.len() == 2 {
            lemma_sextets(a[0], a[1], 0);
            lemma_sextets(b[0], b[1], 0);
            assert(e[2] == base64_url(b)[2]);
            lemma_char_injective(a[0] >> 2, b[0] >> 2);
            lemma_char_injective(((a[0] & 3) << 4) | (a[1] >> 4), ((b[0] & 3) << 4) | (b[1] >> 4));
            lemma_char_injective((a[1] & 15) << 2, (b[1] & 15) << 2);
            lemma_two_bytes(a[0], a[1], b[0], b[1]);
            assert(a =~= b);
        } else {
            lemma_sextets(a[0], a[1], a[2]);
            lemma_sextets(b[0], b[1], b[2]);
            assert(e[2] == base64_url(b)[2]);
            assert(e[3] == base64_url(b)[3]);
            lemma_char_injective(a[0] >> 2, b[0] >> 2);
            lemma_char_injective(((a[0] & 3) << 4) | (a[1] >> 4), ((b[0] & 3) << 4) | (b[1] >> 4));
            lemma_char_injective(
                ((a[1] & 15) << 2) | (a[2] >> 6),
                ((b[1] & 15) << 2) | (b[2] >> 6),
            );
            lemma_char_injective(a[2] & 63, b[2] & 63);
            lemma_three_bytes(a[0], a[1], a[2], b[0], b[1], b[2]);
            let ra = a.subrange(3, a.len() as int);
            let rb = b.subrange(3, b.len() as int);
            assert(base64_url(ra) =~= e.subrange(4, e.len() as int));
            assert(base64_url(rb) =~= base64_url(b).subrange(4, e.len() as int));
            lemma_base64_url_injective(ra, rb);
            assert(a.len() == b.len());
            assert forall|i: int| 0 <= i < a.len() implies a[i] == b[i] by {
                if i >= 3 {
                    assert(a[i] == ra[i - 3]);
                    assert(b[i] == rb[i - 3]);
                }
            }
            assert(a =~= b);
        }
    }
}

/// Content addresses are a function of the URL text alone, so computing one
/// twice gives the same address; and URLs whose BLAKE2s-256 digests differ
/// get different addresses. (That distinct URLs have distinct digests is the
/// hash's collision resistance, which is assumed, not proved.)
pub proof fn lemma_address_determinism(u1: Seq<char>, u2: Seq<char>)
    ensures
        u1 == u2 ==> content_address(u1) == content_address(u2),
        blake2s256_of(encode_utf8(u1)) != blake2s256_of(encode_utf8(u2)) ==> content_address(u1)
            != content_address(u2),
{
    if content_address(u1) == content_address(u2) {
        lemma_base64_url_injective(
            blake2s256_of(encode_utf8(u1)),
            blake2s256_of(encode_utf8(u2)),
        );
    }
}

} // verus!

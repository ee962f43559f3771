//! Cover art cache naming. A cover is stored under the hash of its bytes,
//! so every track of an album, which embeds the same picture, shares one file.

use vstd::prelude::*;
use sha2::{Digest, Sha256};
use crate::text::{chars_of, string_from_chars};

verus! {

/// The picture formats the cache tells apart.
#[derive(Clone, Copy, Debug, PartialEq, Eq)]
pub enum CoverFormat {
    Png,
    /// Any other picture, and pictures of no stated format; stored as `.jpg`.
    Other,
}

/// The extension a cached cover gets.
pub open spec fn cover_extension(format: CoverFormat) -> Seq<char> {
    match format {
        CoverFormat::Png => seq!['p', 'n', 'g'],
        CoverFormat::Other => seq!['j', 'p', 'g'],
    }
}

/// The lowercase hex digit for `n` in `0..16`.
pub open spec fn hex_digit(n: int) -> char {
    if n < 10 {
        (48 + n) as char
    } else {
        (87 + n) as char
    }
}

/// Lowercase hex of bytes: two digits per byte, high half first.
pub open spec fn hex_lower(bytes: Seq<u8>) -> Seq<char>
    decreases bytes.len(),
{
    if bytes.len() == 0 {
        Seq::empty()
    } else {
        seq![hex_digit(bytes[0] as int / 16), hex_digit(bytes[0] as int % 16)] + hex_lower(bytes.skip(1))
    }
}

/// SHA-256 of `data`, as computed by the `sha2` crate.
pub uninterp spec fn sha256(data: Seq<u8>) -> Seq<u8>;

/// The name of the cached file for a cover with hash `digest`.
pub open spec fn spec_cover_name(digest: Seq<u8>, format: CoverFormat) -> Seq<char> {
    hex_lower(digest) + seq!['.'] + cover_extension(format)
}

/// `Sha256::digest` of the `sha2` crate. Its result is named `sha256`; the
/// crate fixes the output size at 32 bytes.
#[verifier::external_body]
fn sha256_digest(data: &[u8]) -> (r: Vec<u8>)
    ensures
        r@ == sha256(data@),
        r@.len() == 32,
{
    Sha256::digest(data).to_vec()
}

/// `hex::encode` of the `hex` crate: each byte as two lowercase hex
/// digits, high half first (its table lookup of `byte >> 4`, then `byte & 0x0F`).
#[verifier::external_body]
fn hex_encode(bytes: &[u8]) -> (r: String)
    ensures
        r@ == hex_lower(bytes@),
{
    hex::encode(bytes)
}

proof fn lemma_hex_lower_len(bytes: Seq<u8>)
    ensures
        hex_lower(bytes).len() == 2 * bytes.len(),
    decreases bytes.len(),
{
    if bytes.len() > 0 {
        lemma_hex_lower_len(bytes.skip(1));
    }
}

/// True of `0`..`9` and `a`..`f`.
pub open spec fn is_lower_hex_digit(c: char) -> bool {
    ('0' <= c <= '9') || ('a' <= c <= 'f')
}

/// Lowercase hex holds only hex digits.
pub proof fn law_hex_is_digits(bytes: Seq<u8>)
    ensures
        forall|i: int| 0 <= i < hex_lower(bytes).len() ==> is_lower_hex_digit(#[trigger] hex_lower(bytes)[i]),
    decreases bytes.len(),
{
    if bytes.len() > 0 {
        law_hex_is_digits(bytes.skip(1));
        let h = hex_lower(bytes);
        let rest = hex_lower(bytes.skip(1));
        assert forall|i: int| 0 <= i < h.len() implies is_lower_hex_digit(#[trigger] h[i]) by {
            if i >= 2 {
                assert(h[i] == rest[i - 2]);
            }
        }
    }
}

/// Two covers with the same bytes and format get the same file, whichever
/// track they came from.
pub proof fn law_same_art_same_file(a: Seq<u8>, b: Seq<u8>, format: CoverFormat)
    requires
        a == b,
    ensures
        spec_cover_name(sha256(a), format) == spec_cover_name(sha256(b), format),
{
}

/// A cover name is a plain file name: hex digits, a `.` and an extension,
/// with no path separator in it.
pub proof fn law_cover_name_is_plain(digest: Seq<u8>, format: CoverFormat)
    ensures
        forall|i: int| 0 <= i < spec_cover_name(digest, format).len() ==> {
            let c = #[trigger] spec_cover_name(digest, format)[i];
            c != '/' && c != '\\'
        },
{
    law_hex_is_digits(digest);
    let h = hex_lower(digest);
    let n = spec_cover_name(digest, format);
    assert forall|i: int| 0 <= i < n.len() implies n[i] != '/' && n[i] != '\\' by {
        if i < h.len() {
            assert(n[i] == h[i]);
        }
    }
}

/// The cached file name for a cover whose hash is `digest`.
pub fn cover_name_for_digest(digest: &[u8], format: CoverFormat) -> (r: String)
    ensures
        r@ == spec_cover_name(digest@, format),
        r@.len() == 2 * digest@.len() + 4,
{
    let hex = hex_encode(digest);
    let mut cs = chars_of(hex.as_str());
    cs.push('.');
    match format {
        CoverFormat::Png => {
            cs.push('p');
            cs.push('n');
            cs.push('g');
        },
        CoverFormat::Other => {
            cs.push('j');
            cs.push('p');
            cs.push('g');
        },
    }
    proof {
        lemma_hex_lower_len(digest@);
    }
    assert(cs@ =~= spec_cover_name(digest@, format));
    string_from_chars(&cs)
}

/// The cached file name for a cover with bytes `data`: the lowercase hex of
/// its SHA-256, then `.png` or `.jpg`.
pub fn cover_file_name(data: &[u8], format: CoverFormat) -> (r: String)
    ensures
        r@ == spec_cover_name(sha256(data@), format),
        r@.len() == 68,
{
    let digest = sha256_digest(data);
    cover_name_for_digest(digest.as_slice(), format)
}

} // verus!

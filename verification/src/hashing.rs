//! Content fingerprinting for filename disambiguation: a 64-bit digest of
//! the file bytes, rendered as the first 8 of 16 lowercase hex digits.

use vstd::prelude::*;
use crate::text::{hex_char, hex_char_x, is_lower_hex_char, push_char};

verus! {

/// The 64-bit xxHash3 digest of a byte sequence; it depends on the bytes
/// alone.
pub uninterp spec fn xxh3_64_of(bytes: Seq<u8>) -> u64;

/// Relies on twox_hash::XxHash3_64::oneshot: the digest is a pure function
/// of the input bytes.
#[verifier::external_body]
fn xxh3_64(bytes: &[u8]) -> (h: u64)
    ensures
        h == xxh3_64_of(bytes@),
{
    twox_hash::XxHash3_64::oneshot(bytes)
}

/// The first 8 characters of the 16-digit lowercase hex rendering of `h`:
/// its 8 most significant nibbles, most significant first.
pub open spec fn hex8_of(h: u64) -> Seq<char> {
    Seq::new(8, |i: int| hex_char(((h >> ((15 - i) * 4) as u64) & 0xf) as nat))
}

proof fn lemma_nibble_bound(h: u64, sh: u64)
    ensures
        (h >> sh) & 0xf < 16,
{
    assert((h >> sh) & 0xf < 16) by (bit_vector);
}

/// The disambiguation suffix is always exactly 8 lowercase hex characters.
pub proof fn lemma_hex8_of_props(h: u64)
    ensures
        hex8_of(h).len() == 8,
        forall|i: int| 0 <= i < 8 ==> is_lower_hex_char(#[trigger] hex8_of(h)[i]),
{
    assert forall|i: int| 0 <= i < 8 implies is_lower_hex_char(#[trigger] hex8_of(h)[i]) by {
        lemma_nibble_bound(h, ((15 - i) * 4) as u64);
        crate::text::lemma_hex_char_is_lower_hex((((h >> ((15 - i) * 4) as u64) & 0xf) as nat));
    }
}

/// The content hash used to disambiguate filenames: the 8 leading lowercase
/// hex digits of the 64-bit digest of `bytes`.
pub fn content_hash(bytes: &[u8]) -> (r: String)
    ensures
        r@ == hex8_of(xxh3_64_of(bytes@)),
{
    let h = xxh3_64(bytes);
    let mut out = String::new();
    let mut i: usize = 0;
    while i < 8
        invariant
            i <= 8,
            out@ =~= hex8_of(h).subrange(0, i as int),
        decreases 8 - i,
    {
        let sh: u64 = (15 - (i as u64)) * 4;
        let d: u64 = (h >> sh) & 0xf;
        proof {
            lemma_nibble_bound(h, sh);
        }
        push_char(&mut out, hex_char_x(d));
        proof {
            assert(out@ =~= hex8_of(h).subrange(0, i + 1));
        }
        i += 1;
    }
    assert(out@ =~= hex8_of(h));
    out
}

} // verus!

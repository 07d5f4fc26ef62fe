//! Content hashes of decoded wallpaper pixels, as lowercase hex.

use vstd::prelude::*;

verus! {

/// The 32-byte BLAKE3 digest of `data`.
pub uninterp spec fn blake3_digest(data: Seq<u8>) -> Seq<u8>;

/// Calls `blake3::hash` and hands out the digest bytes. The contract
/// claims that the bytes are the value named `blake3_digest` of the input
/// and that there are 32 of them (`blake3::OUT_LEN`).
#[verifier::external_body]
fn blake3_hash(data: &[u8]) -> (r: Vec<u8>)
    ensures
        r@ == blake3_digest(data@),
        r@.len() == 32,
{
    blake3::hash(data).as_bytes().to_vec()
}

/// The lowercase hexadecimal digit for `v` (0..16).
pub open spec fn hex_digit(v: int) -> char {
    seq!['0', '1', '2', '3', '4', '5', '6', '7', '8', '9', 'a', 'b', 'c', 'd', 'e', 'f'][v]
}

/// Lowercase hexadecimal encoding, two digits per byte, high nibble first.
pub open spec fn spec_hex_lower(bytes: Seq<u8>) -> Seq<char>
    decreases bytes.len(),
{
    if bytes.len() == 0 {
        seq![]
    } else {
        spec_hex_lower(bytes.drop_last()) + seq![
            hex_digit(bytes.last() as int / 16),
            hex_digit(bytes.last() as int % 16),
        ]
    }
}

/// The encoding has two characters per byte.
pub proof fn lemma_hex_lower_len(bytes: Seq<u8>)
    ensures
        spec_hex_lower(bytes).len() == 2 * bytes.len(),
    decreases bytes.len(),
{
    if bytes.len() > 0 {
        lemma_hex_lower_len(bytes.drop_last());
    }
}

/// Lowercase hexadecimal encoding of `bytes`.
pub fn hex_lower(bytes: &[u8]) -> (r: String)
    ensures
        r@ == spec_hex_lower(bytes@),
{
    let digits = "0123456789abcdef";
    proof {
        reveal_strlit("0123456789abcdef");
        assert(digits@ =~= seq!['0', '1', '2', '3', '4', '5', '6', '7', '8', '9', 'a', 'b', 'c', 'd', 'e', 'f']);
    }
    let mut out = String::new();
    let n = bytes.len();
    let mut i: usize = 0;
    while i < n
        invariant
            n == bytes@.len(),
            i <= n,
            digits@ =~= seq!['0', '1', '2', '3', '4', '5', '6', '7', '8', '9', 'a', 'b', 'c', 'd', 'e', 'f'],
            out@ == spec_hex_lower(bytes@.subrange(0, i as int)),
        decreases n - i,
    {
        let b = bytes[i];
        let hi = (b / 16) as usize;
        let lo = (b % 16) as usize;
        let h = digits.substring_char(hi, hi + 1);
        let l = digits.substring_char(lo, lo + 1);
        out.append(h);
        out.append(l);
        proof {
            let pre = bytes@.subrange(0, i as int);
            let next = bytes@.subrange(0, i + 1);
            assert(next.drop_last() =~= pre);
            assert(next.last() == b);
            assert(h@ =~= seq![hex_digit(b as int / 16)]);
            assert(l@ =~= seq![hex_digit(b as int % 16)]);
        }
        i = i + 1;
    }
    assert(bytes@.subrange(0, n as int) =~= bytes@);
    out
}

/// Lowercase hex BLAKE3 digest of `data`: 64 characters.
pub fn content_hash(data: &[u8]) -> (r: String)
    ensures
        r@ == spec_hex_lower(blake3_digest(data@)),
        r@.len() == 64,
{
    let d = blake3_hash(data);
    proof {
        lemma_hex_lower_len(d@);
    }
    hex_lower(d.as_slice())
}

} // verus!

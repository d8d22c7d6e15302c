//! Content digests in the form that registries use: "sha256:" followed by
//! the SHA-256 hash in lowercase hexadecimal. The hash itself is computed by
//! the `sha2` crate; the encoding is proved here.

use vstd::prelude::*;
use vstd::string::*;

verus! {

/// The SHA-256 hash of `data`, as computed by the `sha2` crate.
pub uninterp spec fn sha256_digest(data: Seq<u8>) -> Seq<u8>;

/// Calls `sha2::Sha256::digest` on `data`. Its result is named by
/// `sha256_digest` of the input; the hash of SHA-256 is 32 bytes long.
#[verifier::external_body]
fn sha256(data: &[u8]) -> (r: Vec<u8>)
    ensures
        r@ == sha256_digest(data@),
        r@.len() == 32,
{
    <sha2::Sha256 as sha2::Digest>::digest(data).to_vec()
}

/// The lowercase hexadecimal digits.
pub open spec fn hex_digits() -> Seq<char> {
    "0123456789abcdef"@
}

/// The two lowercase hexadecimal digits of a byte, high nibble first.
pub open spec fn byte_hex(b: u8) -> Seq<char> {
    seq![hex_digits()[(b / 16) as int], hex_digits()[(b % 16) as int]]
}

/// The lowercase hexadecimal text of a byte sequence.
pub open spec fn hex_of(bytes: Seq<u8>) -> Seq<char>
    decreases bytes.len(),
{
    if bytes.len() == 0 {
        Seq::empty()
    } else {
        hex_of(bytes.drop_last()) + byte_hex(bytes.last())
    }
}

/// The hexadecimal text has two digits per byte.
pub proof fn lemma_hex_len(bytes: Seq<u8>)
    ensures
        hex_of(bytes).len() == 2 * bytes.len(),
    decreases bytes.len(),
{
    if bytes.len() > 0 {
        lemma_hex_len(bytes.drop_last());
    }
}

proof fn lemma_byte_hex_injective(a: u8, b: u8)
    requires
        byte_hex(a) == byte_hex(b),
    ensures
        a == b,
{
    reveal_strlit("0123456789abcdef");
    let d = hex_digits();
    assert(d.len() == 16);
    assert forall|i: int, j: int| 0 <= i < 16 && 0 <= j < 16 && d[i] == d[j] implies i == j by {
        assert(d[0] == '0' && d[1] == '1' && d[2] == '2' && d[3] == '3' && d[4] == '4' && d[5] == '5'
            && d[6] == '6' && d[7] == '7' && d[8] == '8' && d[9] == '9' && d[10] == 'a' && d[11] == 'b'
            && d[12] == 'c' && d[13] == 'd' && d[14] == 'e' && d[15] == 'f');
    }
    assert(byte_hex(a)[0] == byte_hex(b)[0]);
    assert(byte_hex(a)[1] == byte_hex(b)[1]);
    assert(a / 16 == b / 16);
    assert(a % 16 == b % 16);
}

/// Different byte sequences have different hexadecimal texts, so a digest
/// text names exactly one hash.
pub proof fn law_hex_is_injective(a: Seq<u8>, b: Seq<u8>)
    requires
        hex_of(a) == hex_of(b),
    ensures
        a == b,
    decreases a.len(),
{
    lemma_hex_len(a);
    lemma_hex_len(b);
    if a.len() > 0 {
        let n = a.len() as int;
        lemma_hex_len(a.drop_last());
        lemma_hex_len(b.drop_last());
        let ha = hex_of(a.drop_last());
        let hb = hex_of(b.drop_last());
        assert(hex_of(a) == ha + byte_hex(a.last()));
        assert(hex_of(b) == hb + byte_hex(b.last()));
        assert(ha =~= hex_of(a).subrange(0, 2 * n - 2));
        assert(hb =~= hex_of(b).subrange(0, 2 * n - 2));
        assert(byte_hex(a.last()) =~= hex_of(a).subrange(2 * n - 2, 2 * n));
        assert(byte_hex(b.last()) =~= hex_of(b).subrange(2 * n - 2, 2 * n));
        lemma_byte_hex_injective(a.last(), b.last());
        law_hex_is_injective(a.drop_last(), b.drop_last());
        assert(a =~= a.drop_last().push(a.last()));
        assert(b =~= b.drop_last().push(b.last()));
    } else {
        assert(a =~= b);
    }
}

/// The digest text of some content: "sha256:" and the hexadecimal hash.
pub open spec fn sha256_text(data: Seq<u8>) -> Seq<char> {
    "sha256:"@ + hex_of(sha256_digest(data))
}

/// The lowercase hexadecimal text of `bytes`.
pub fn hex_lower(bytes: &[u8]) -> (r: String)
    ensures
        r@ == hex_of(bytes@),
{
    let table = "0123456789abcdef";
    proof {
        reveal_strlit("0123456789abcdef");
    }
    let mut r = String::new();
    let mut i: usize = 0;
    while i < bytes.len()
        invariant
            0 <= i <= bytes.len(),
            table@ == hex_digits(),
            table@.len() == 16,
            r@ == hex_of(bytes@.take(i as int)),
        decreases bytes.len() - i,
    {
        let b = bytes[i];
        let hi = (b / 16) as usize;
        let lo = (b % 16) as usize;
        let high = table.substring_char(hi, hi + 1);
        let low = table.substring_char(lo, lo + 1);
        proof {
            assert(bytes@.take(i as int + 1).drop_last() =~= bytes@.take(i as int));
            assert(bytes@.take(i as int + 1).last() == b);
            assert(high@ + low@ =~= byte_hex(b));
        }
        r.append(high);
        r.append(low);
        i = i + 1;
    }
    proof {
        assert(bytes@.take(bytes@.len() as int) =~= bytes@);
    }
    r
}

/// The digest of `data`: "sha256:" and 64 lowercase hexadecimal digits.
pub fn sha256_digest_text(data: &[u8]) -> (r: String)
    ensures
        r@ == sha256_text(data@),
        r@.len() == 71,
{
    let hash = sha256(data);
    let hex = hex_lower(hash.as_slice());
    proof {
        lemma_hex_len(hash@);
        reveal_strlit("sha256:");
    }
    crate::text::concat2("sha256:", hex.as_str())
}

} // verus!

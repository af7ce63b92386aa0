//! Content fingerprints: the lowercase hexadecimal SHA-256 digest of a
//! file's bytes, or the `empty` sentinel for a file that does not exist.

use sha2::Digest;
use vstd::prelude::*;

verus! {

/// The SHA-256 digest of a byte sequence.
pub uninterp spec fn sha256_of(data: Seq<u8>) -> Seq<u8>;

/// Relies on `sha2::Sha256::digest`: the 32-byte SHA-256 digest of `data`.
#[verifier::external_body]
pub(crate) fn sha256(data: &[u8]) -> (r: Vec<u8>)
    ensures
        r@ == sha256_of(data@),
        r@.len() == 32,
{
    sha2::Sha256::digest(data).to_vec()
}

/// The sixteen lowercase hexadecimal digits, in order.
pub open spec fn hex_digits() -> Seq<char> {
    seq!['0', '1', '2', '3', '4', '5', '6', '7', '8', '9', 'a', 'b', 'c', 'd', 'e', 'f']
}

/// Lowercase hexadecimal text of a byte sequence: two digits per byte,
/// high half first.
pub open spec fn hex_lower(bytes: Seq<u8>) -> Seq<char>
    decreases bytes.len(),
{
    if bytes.len() == 0 {
        seq![]
    } else {
        let b = bytes.last();
        hex_lower(bytes.drop_last()) + seq![hex_digits()[(b / 16) as int], hex_digits()[(b % 16) as int]]
    }
}

/// The fingerprint recorded for a store file that does not exist.
pub open spec fn empty_fingerprint() -> Seq<char> {
    seq!['e', 'm', 'p', 't', 'y']
}

/// The fingerprint of a store file: `None` stands for a missing file.
pub open spec fn fingerprint_of(contents: Option<Seq<u8>>) -> Seq<char> {
    match contents {
        Some(bytes) => hex_lower(sha256_of(bytes)),
        None => empty_fingerprint(),
    }
}

proof fn lemma_hex_lower_len(bytes: Seq<u8>)
    ensures
        hex_lower(bytes).len() == 2 * bytes.len(),
    decreases bytes.len(),
{
    if bytes.len() > 0 {
        lemma_hex_lower_len(bytes.drop_last());
    }
}

/// Hex text has an even number of digits, and every character is a digit.
proof fn lemma_hex_lower_digits(bytes: Seq<u8>)
    ensures
        forall|i: int| 0 <= i < hex_lower(bytes).len() ==> hex_digits().contains(#[trigger] hex_lower(bytes)[i]),
    decreases bytes.len(),
{
    if bytes.len() > 0 {
        let b = bytes.last();
        lemma_hex_lower_digits(bytes.drop_last());
        let prev = hex_lower(bytes.drop_last());
        let tail = seq![hex_digits()[(b / 16) as int], hex_digits()[(b % 16) as int]];
        assert forall|i: int| 0 <= i < hex_lower(bytes).len() implies hex_digits().contains(#[trigger] hex_lower(bytes)[i]) by {
            if i < prev.len() {
                assert(hex_lower(bytes)[i] == prev[i]);
            } else {
                assert(hex_lower(bytes)[i] == tail[i - prev.len()]);
            }
        }
    }
}

/// The hex digit text of one value below sixteen.
fn hex_digit_text(n: u8) -> (r: &'static str)
    requires
        n < 16,
    ensures
        r@ == seq![hex_digits()[n as int]],
{
    let digits: &'static str = "0123456789abcdef";
    proof {
        reveal_strlit("0123456789abcdef");
    }
    assert(digits@ =~= hex_digits());
    digits.substring_char(n as usize, n as usize + 1)
}

/// Lowercase hexadecimal text of `bytes`.
pub fn to_hex_lower(bytes: &[u8]) -> (r: String)
    ensures
        r@ == hex_lower(bytes@),
{
    let mut r = String::new();
    let mut i: usize = 0;
    assert(bytes@.take(0) =~= Seq::<u8>::empty());
    while i < bytes.len()
        invariant
            i <= bytes@.len(),
            r@ == hex_lower(bytes@.take(i as int)),
        decreases bytes@.len() - i,
    {
        let b = bytes[i];
        let high = hex_digit_text(b / 16);
        let low = hex_digit_text(b % 16);
        r.append(high);
        r.append(low);
        assert(bytes@.take(i + 1).drop_last() =~= bytes@.take(i as int));
        assert(bytes@.take(i + 1).last() == b);
        i = i + 1;
    }
    assert(bytes@.take(bytes@.len() as int) =~= bytes@);
    r
}

/// The fingerprint of a store file whose contents are `contents`, or of a
/// missing file when `contents` is `None`.
pub fn fingerprint(contents: Option<&[u8]>) -> (r: String)
    ensures
        r@ == fingerprint_of(
            match contents {
                Some(b) => Some(b@),
                None => None,
            },
        ),
        contents is Some ==> r@.len() == 64,
{
    match contents {
        Some(bytes) => {
            let d = sha256(bytes);
            proof {
                lemma_hex_lower_len(d@);
            }
            to_hex_lower(d.as_slice())
        },
        None => {
            proof {
                reveal_strlit("empty");
            }
            let r = String::from_str("empty");
            assert(r@ =~= empty_fingerprint());
            r
        },
    }
}

/// Distinct values below sixteen have distinct digits.
proof fn lemma_hex_digit_distinct(x: u8, y: u8)
    requires
        x < 16,
        y < 16,
        hex_digits()[x as int] == hex_digits()[y as int],
    ensures
        x == y,
{
    let d = hex_digits();
    assert(d[0] == '0' && d[1] == '1' && d[2] == '2' && d[3] == '3' && d[4] == '4' && d[5] == '5'
        && d[6] == '6' && d[7] == '7' && d[8] == '8' && d[9] == '9' && d[10] == 'a' && d[11] == 'b'
        && d[12] == 'c' && d[13] == 'd' && d[14] == 'e' && d[15] == 'f');
}

/// Hex text determines the bytes it was written from.
proof fn lemma_hex_lower_injective(a: Seq<u8>, b: Seq<u8>)
    requires
        hex_lower(a) == hex_lower(b),
    ensures
        a == b,
    decreases a.len(),
{
    lemma_hex_lower_len(a);
    lemma_hex_lower_len(b);
    if a.len() > 0 {
        let (x, y) = (a.last(), b.last());
        let (pa, pb) = (hex_lower(a.drop_last()), hex_lower(b.drop_last()));
        lemma_hex_lower_len(a.drop_last());
        lemma_hex_lower_len(b.drop_last());
        let n: int = pa.len() as int;
        assert(hex_lower(a)[n] == hex_digits()[(x / 16) as int]);
        assert(hex_lower(b)[n] == hex_digits()[(y / 16) as int]);
        assert(hex_lower(a)[n + 1] == hex_digits()[(x % 16) as int]);
        assert(hex_lower(b)[n + 1] == hex_digits()[(y % 16) as int]);
        lemma_hex_digit_distinct(x / 16, y / 16);
        lemma_hex_digit_distinct(x % 16, y % 16);
        assert(x == y) by (nonlinear_arith)
            requires
                x / 16 == y / 16,
                x % 16 == y % 16,
        ;
        assert(pa =~= hex_lower(a).subrange(0, n));
        assert(pb =~= hex_lower(b).subrange(0, n));
        lemma_hex_lower_injective(a.drop_last(), b.drop_last());
        assert(a =~= a.drop_last().push(x));
        assert(b =~= b.drop_last().push(y));
    } else {
        assert(a =~= b);
    }
}

/// A missing store file has the `empty` fingerprint, and no existing file
/// has it, whatever its bytes.
pub proof fn lemma_missing_file_fingerprint(contents: Seq<u8>)
    ensures
        fingerprint_of(None) == empty_fingerprint(),
        fingerprint_of(Some(contents)) != empty_fingerprint(),
{
    let h = fingerprint_of(Some(contents));
    lemma_hex_lower_digits(sha256_of(contents));
    lemma_hex_lower_len(sha256_of(contents));
    if h == empty_fingerprint() {
        assert(hex_digits().contains(h[1]));
        assert(h[1] == 'm');
        let d = hex_digits();
        assert(d[0] == '0' && d[1] == '1' && d[2] == '2' && d[3] == '3' && d[4] == '4' && d[5] == '5'
            && d[6] == '6' && d[7] == '7' && d[8] == '8' && d[9] == '9' && d[10] == 'a' && d[11] == 'b'
            && d[12] == 'c' && d[13] == 'd' && d[14] == 'e' && d[15] == 'f');
        assert(false);
    }
}

/// Two existing store files have the same fingerprint exactly when their
/// SHA-256 digests are equal: the fingerprint tells contents apart as far
/// as the digest does.
pub proof fn lemma_fingerprint_matches_digest(a: Seq<u8>, b: Seq<u8>)
    ensures
        (fingerprint_of(Some(a)) == fingerprint_of(Some(b))) <==> (sha256_of(a) == sha256_of(b)),
{
    if fingerprint_of(Some(a)) == fingerprint_of(Some(b)) {
        lemma_hex_lower_injective(sha256_of(a), sha256_of(b));
    }
}

} // verus!

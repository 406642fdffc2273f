//! Lower-case hexadecimal rendering and `sha256:`-prefixed digest strings.

use vstd::prelude::*;
use sha2::Digest;
use vstd::string::StringExecFns;

verus! {

/// The lower-case hexadecimal digit for a nibble `0..16`.
pub open spec fn nibble_char(n: int) -> char {
    if n < 10 {
        (n + 48) as char
    } else {
        (n + 87) as char
    }
}

/// The `i`-th character of the hexadecimal rendering of `bytes`:
/// even positions hold the high nibble of a byte, odd positions the low one.
pub open spec fn hex_char_at(bytes: Seq<u8>, i: int) -> char {
    if i % 2 == 0 {
        nibble_char((bytes[i / 2] / 16) as int)
    } else {
        nibble_char((bytes[i / 2] % 16) as int)
    }
}

/// Lower-case hexadecimal rendering of a byte sequence, two characters per byte,
/// high nibble first.
pub open spec fn hex_spec(bytes: Seq<u8>) -> Seq<char> {
    Seq::new(2 * bytes.len(), |i: int| hex_char_at(bytes, i))
}

/// A lower-case hexadecimal digit.
pub open spec fn is_lower_hex_char(c: char) -> bool {
    ('0' <= c && c <= '9') || ('a' <= c && c <= 'f')
}

fn nibble_to_char(n: u8) -> (c: char)
    requires
        n < 16,
    ensures
        c == nibble_char(n as int),
{
    if n < 10 {
        (n + 48) as char
    } else {
        (n + 87) as char
    }
}

/// Appends one character to a string (`String::push`).
/// Trusted: std documents that `push` appends the given `char` to the end of the string.
#[verifier::external_body]
pub(crate) fn string_push(s: &mut String, c: char)
    ensures
        final(s)@ == old(s)@.push(c),
{
    s.push(c)
}

/// Renders `bytes` as lower-case hexadecimal, two digits per byte, high nibble first.
pub fn hex(bytes: &[u8]) -> (out: String)
    ensures
        out@ == hex_spec(bytes@),
        out@.len() == 2 * bytes@.len(),
        forall|k: int|
            0 <= k < bytes@.len() ==> #[trigger] out@[2 * k] == nibble_char((bytes@[k] / 16) as int)
                && out@[2 * k + 1] == nibble_char((bytes@[k] % 16) as int),
{
    let mut out = String::new();
    let n = bytes.len();
    let mut i: usize = 0;
    while i < n
        invariant
            n == bytes@.len(),
            i <= n,
            out@.len() == 2 * i,
            forall|j: int| 0 <= j < 2 * i ==> out@[j] == hex_char_at(bytes@, j),
        decreases n - i,
    {
        let byte = bytes[i];
        let hi = byte >> 4;
        let lo = byte & 0x0f;
        assert(byte >> 4 == byte / 16 && byte & 0x0f == byte % 16) by (bit_vector);
        string_push(&mut out, nibble_to_char(hi));
        string_push(&mut out, nibble_to_char(lo));
        assert((2 * i) / 2 == i as int);
        assert((2 * i + 1) / 2 == i as int);
        i = i + 1;
    }
    assert(out@ =~= hex_spec(bytes@));
    proof {
        lemma_hex_high_nibble_first(bytes@);
    }
    out
}


/// Names the SHA-256 digest of a byte sequence (what `sha2::Sha256::digest` returns).
pub uninterp spec fn sha256_digest(data: Seq<u8>) -> Seq<u8>;

/// Calls `sha2::Sha256::digest`.
/// Trusted: the result is the digest named by `sha256_digest` of the input bytes, and it is
/// 32 bytes long (`Sha256` has output size `U32` in the sha2 source).
#[verifier::external_body]
fn sha256(data: &[u8]) -> (digest: Vec<u8>)
    ensures
        digest@ == sha256_digest(data@),
        digest@.len() == 32,
{
    sha2::Sha256::digest(data).to_vec()
}

/// The `sha256:`-prefixed lower-case hexadecimal rendering of a digest.
pub open spec fn digest_text(digest: Seq<u8>) -> Seq<char> {
    "sha256:"@ + hex_spec(digest)
}

/// The evidence string for a byte sequence: `sha256:` followed by the hexadecimal SHA-256 digest.
pub open spec fn sha256_text(data: Seq<u8>) -> Seq<char> {
    digest_text(sha256_digest(data))
}

/// Renders an already computed digest as `sha256:<lower-case hex>`.
pub fn format_sha256_digest(digest: &[u8]) -> (out: String)
    ensures
        out@ == digest_text(digest@),
{
    let mut out = "sha256:".to_owned();
    let h = hex(digest);
    out.append(h.as_str());
    out
}

/// Digests `bytes` with SHA-256 and renders the digest as `sha256:<lower-case hex>`.
pub fn sha256_bytes(bytes: &[u8]) -> (out: String)
    ensures
        out@ == sha256_text(bytes@),
        out@.len() == 71,
{
    let digest = sha256(bytes);
    proof {
        lemma_digest_text_shape(digest@);
    }
    format_sha256_digest(digest.as_slice())
}


proof fn lemma_nibble_char(n: int, m: int)
    requires
        0 <= n < 16,
        0 <= m < 16,
    ensures
        is_lower_hex_char(nibble_char(n)),
        nibble_char(n) == nibble_char(m) ==> n == m,
{
}

/// Law: the hexadecimal rendering has two characters per byte, each a lower-case
/// hexadecimal digit.
pub proof fn lemma_hex_shape(bytes: Seq<u8>)
    ensures
        hex_spec(bytes).len() == 2 * bytes.len(),
        forall|i: int| 0 <= i < hex_spec(bytes).len() ==> is_lower_hex_char(#[trigger] hex_spec(bytes)[i]),
{
    assert forall|i: int| 0 <= i < hex_spec(bytes).len() implies is_lower_hex_char(#[trigger] hex_spec(bytes)[i]) by {
        let b = bytes[i / 2];
        lemma_nibble_char((b / 16) as int, 0);
        lemma_nibble_char((b % 16) as int, 0);
    }
}

/// Law: the hexadecimal rendering is injective; two byte sequences with the same
/// rendering are equal.
pub proof fn lemma_hex_injective(a: Seq<u8>, b: Seq<u8>)
    requires
        hex_spec(a) == hex_spec(b),
    ensures
        a == b,
{
    assert(hex_spec(a).len() == 2 * a.len());
    assert(hex_spec(b).len() == 2 * b.len());
    assert forall|k: int| 0 <= k < a.len() implies a[k] == b[k] by {
        assert(hex_spec(a)[2 * k] == hex_spec(b)[2 * k]);
        assert(hex_spec(a)[2 * k + 1] == hex_spec(b)[2 * k + 1]);
        assert((2 * k) % 2 == 0 && (2 * k) / 2 == k);
        assert((2 * k + 1) % 2 == 1 && (2 * k + 1) / 2 == k);
        let x = a[k];
        let y = b[k];
        assert(hex_spec(a)[2 * k] == nibble_char((x / 16) as int));
        assert(hex_spec(b)[2 * k] == nibble_char((y / 16) as int));
        assert(hex_spec(a)[2 * k + 1] == nibble_char((x % 16) as int));
        assert(hex_spec(b)[2 * k + 1] == nibble_char((y % 16) as int));
        assert(0 <= x / 16 < 16 && 0 <= y / 16 < 16);
        lemma_nibble_char((x / 16) as int, (y / 16) as int);
        lemma_nibble_char((x % 16) as int, (y % 16) as int);
        assert(x / 16 == y / 16 && x % 16 == y % 16 ==> x == y) by (nonlinear_arith);
    }
    assert(a =~= b);
}

/// Law: a rendered 32-byte digest is `sha256:` followed by 64 lower-case hexadecimal
/// digits, 71 characters in all.
pub proof fn lemma_digest_text_shape(digest: Seq<u8>)
    requires
        digest.len() == 32,
    ensures
        digest_text(digest).len() == 71,
        digest_text(digest).subrange(0, 7) == "sha256:"@,
        forall|i: int| 7 <= i < 71 ==> is_lower_hex_char(#[trigger] digest_text(digest)[i]),
{
    reveal_strlit("sha256:");
    lemma_hex_shape(digest);
    assert forall|i: int| 7 <= i < 71 implies is_lower_hex_char(#[trigger] digest_text(digest)[i]) by {
        assert(digest_text(digest)[i] == hex_spec(digest)[i - 7]);
    }
    assert(digest_text(digest).subrange(0, 7) =~= "sha256:"@);
}

/// Law: two evidence strings are equal exactly when the SHA-256 digests they render are equal.
pub proof fn lemma_sha256_text_injective(a: Seq<u8>, b: Seq<u8>)
    ensures
        sha256_text(a) == sha256_text(b) <==> sha256_digest(a) == sha256_digest(b),
{
    if sha256_text(a) == sha256_text(b) {
        reveal_strlit("sha256:");
        let p = "sha256:"@;
        let ha = hex_spec(sha256_digest(a));
        let hb = hex_spec(sha256_digest(b));
        assert((p + ha).subrange(7, (p + ha).len() as int) =~= ha);
        assert((p + hb).subrange(7, (p + hb).len() as int) =~= hb);
        lemma_hex_injective(sha256_digest(a), sha256_digest(b));
    }
}

/// Law: the nibble digits are `0`-`9` for 0 to 9 and `a`-`f` for 10 to 15.
pub proof fn lemma_nibble_digits(n: int)
    requires
        0 <= n < 16,
    ensures
        n < 10 ==> nibble_char(n) as int == n + '0' as int,
        n >= 10 ==> nibble_char(n) as int == n - 10 + 'a' as int,
{
}

/// Law: the rendering of a byte sequence has two characters per byte, and at positions
/// `2k` and `2k + 1` stand the high and the low nibble digit of byte `k`, whatever the
/// other bytes and the length are.
pub proof fn lemma_hex_high_nibble_first(bytes: Seq<u8>)
    ensures
        hex_spec(bytes).len() == 2 * bytes.len(),
        forall|k: int|
            0 <= k < bytes.len() ==> #[trigger] hex_spec(bytes)[2 * k] == nibble_char((bytes[k] / 16) as int)
                && hex_spec(bytes)[2 * k + 1] == nibble_char((bytes[k] % 16) as int),
{
    assert forall|k: int| 0 <= k < bytes.len() implies #[trigger] hex_spec(bytes)[2 * k] == nibble_char(
        (bytes[k] / 16) as int,
    ) && hex_spec(bytes)[2 * k + 1] == nibble_char((bytes[k] % 16) as int) by {
        assert((2 * k) % 2 == 0 && (2 * k) / 2 == k);
        assert((2 * k + 1) % 2 == 1 && (2 * k + 1) / 2 == k);
    }
}

/// Law: a digest string is `sha256:` followed, for each digest byte `k`, by its high nibble
/// digit at `7 + 2k` and its low nibble digit at `8 + 2k`.
pub proof fn lemma_digest_text_digits(digest: Seq<u8>)
    ensures
        digest_text(digest).len() == 7 + 2 * digest.len(),
        digest_text(digest).subrange(0, 7) == "sha256:"@,
        forall|k: int|
            0 <= k < digest.len() ==> #[trigger] digest_text(digest)[7 + 2 * k] == nibble_char(
                (digest[k] / 16) as int,
            ) && digest_text(digest)[8 + 2 * k] == nibble_char((digest[k] % 16) as int),
{
    reveal_strlit("sha256:");
    lemma_hex_high_nibble_first(digest);
    assert(digest_text(digest).subrange(0, 7) =~= "sha256:"@);
    assert forall|k: int| 0 <= k < digest.len() implies #[trigger] digest_text(digest)[7 + 2 * k]
        == nibble_char((digest[k] / 16) as int) && digest_text(digest)[8 + 2 * k] == nibble_char(
        (digest[k] % 16) as int,
    ) by {
        assert(digest_text(digest)[7 + 2 * k] == hex_spec(digest)[2 * k]);
        assert(digest_text(digest)[8 + 2 * k] == hex_spec(digest)[2 * k + 1]);
    }
}

} // verus!

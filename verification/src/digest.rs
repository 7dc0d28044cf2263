//! Content digests: the `algorithm:encoded` identifiers of blobs and manifests.

use vstd::prelude::*;
use vstd::string::StringExecFns;

verus! {

/// A lower-case hexadecimal digit.
pub open spec fn is_lower_hex(c: char) -> bool {
    ('0' <= c && c <= '9') || ('a' <= c && c <= 'f')
}

/// The lower-case hexadecimal digit that stands for `n`, for `0 <= n < 16`.
pub open spec fn hex_digit(n: int) -> char {
    if n < 10 {
        ('0' as u8 + n) as char
    } else {
        ('a' as u8 + (n - 10)) as char
    }
}

/// The lower-case hexadecimal text of `bytes`: two digits per byte, the high
/// nibble first.
pub open spec fn hex_lower(bytes: Seq<u8>) -> Seq<char> {
    Seq::new(
        2 * bytes.len(),
        |i: int|
            if i % 2 == 0 {
                hex_digit(bytes[i / 2] as int / 16)
            } else {
                hex_digit(bytes[i / 2] as int % 16)
            },
    )
}

/// A character of an algorithm component: `[a-z0-9]`.
pub open spec fn is_algorithm_char(c: char) -> bool {
    ('a' <= c && c <= 'z') || ('0' <= c && c <= '9')
}

/// A character that separates two algorithm components: one of `+ . _ -`.
pub open spec fn is_algorithm_separator(c: char) -> bool {
    c == '+' || c == '.' || c == '_' || c == '-'
}

/// A character of the encoded part: `[a-zA-Z0-9=_-]`.
pub open spec fn is_encoded_char(c: char) -> bool {
    is_algorithm_char(c) || ('A' <= c && c <= 'Z') || c == '=' || c == '_' || c == '-'
}

/// The algorithm part is a non-empty list of non-empty components, joined by
/// single separators.
pub open spec fn algorithm_well_formed(a: Seq<char>) -> bool {
    &&& a.len() > 0
    &&& forall|i: int|
        0 <= i < a.len() ==> {
            ||| is_algorithm_char(#[trigger] a[i])
            ||| (is_algorithm_separator(a[i]) && 0 < i && i + 1 < a.len()
                && !is_algorithm_separator(a[i - 1]))
        }
}

/// The number of hexadecimal digits that a registered algorithm demands.
pub open spec fn registered_hex_len(a: Seq<char>) -> Option<nat> {
    if a == seq!['s', 'h', 'a', '2', '5', '6'] {
        Some(64)
    } else if a == seq!['s', 'h', 'a', '3', '8', '4'] {
        Some(96)
    } else if a == seq!['s', 'h', 'a', '5', '1', '2'] {
        Some(128)
    } else {
        None
    }
}

/// The encoded part is not empty and, under a registered algorithm, is
/// lower-case hexadecimal of the length that the algorithm demands.
pub open spec fn encoded_well_formed(a: Seq<char>, e: Seq<char>) -> bool {
    &&& e.len() > 0
    &&& forall|i: int| 0 <= i < e.len() ==> is_encoded_char(#[trigger] e[i])
    &&& registered_hex_len(a) matches Some(n) ==> {
        &&& e.len() == n
        &&& forall|i: int| 0 <= i < e.len() ==> is_lower_hex(#[trigger] e[i])
    }
}

/// `s` has a colon at `i` that parts a well-formed algorithm from a
/// well-formed encoded value. No character of either part is a colon, so at
/// most one `i` qualifies.
pub open spec fn digest_splits_at(s: Seq<char>, i: int) -> bool {
    &&& 0 <= i < s.len()
    &&& s[i] == ':'
    &&& algorithm_well_formed(s.subrange(0, i))
    &&& encoded_well_formed(s.subrange(0, i), s.subrange(i + 1, s.len() as int))
}

/// The grammar of a digest: `algorithm ':' encoded`.
pub open spec fn digest_well_formed(s: Seq<char>) -> bool {
    exists|i: int| digest_splits_at(s, i)
}

/// The SHA-256 hash of `data`.
pub uninterp spec fn sha256(data: Seq<u8>) -> Seq<u8>;

/// The prefix of a SHA-256 digest: `sha256:`.
pub open spec fn sha256_prefix() -> Seq<char> {
    seq!['s', 'h', 'a', '2', '5', '6', ':']
}

/// The digest text of `data`: `sha256:` and the 64 hexadecimal digits of its
/// SHA-256 hash.
pub open spec fn sha256_digest_text(data: Seq<u8>) -> Seq<char> {
    sha256_prefix() + hex_lower(sha256(data))
}

/// Calls `sha2::Sha256::digest`, which hashes `data` with SHA-256. The hash
/// depends on `data` alone and is 32 bytes long.
#[verifier::external_body]
fn sha256_bytes(data: &[u8]) -> (res: Vec<u8>)
    ensures
        res@ == sha256(data@),
        res@.len() == 32,
{
    <sha2::Sha256 as sha2::Digest>::digest(data).to_vec()
}

/// Calls `base16ct::lower::encode_string`, which writes two lower-case
/// hexadecimal digits for each byte, the high nibble first. It panics on an
/// input longer than half of `usize::MAX`.
#[verifier::external_body]
fn hex_lower_string(bytes: &[u8]) -> (res: String)
    requires
        bytes@.len() <= usize::MAX / 2,
    ensures
        res@ == hex_lower(bytes@),
{
    base16ct::lower::encode_string(bytes)
}

/// The error of `oci_spec`. It is passed on and never looked into.
#[verifier::external_type_specification]
#[verifier::external_body]
pub struct ExOciSpecError(oci_spec::OciSpecError);

/// Calls `oci_spec::image::Digest::from_str`, which accepts exactly the
/// texts of the digest grammar and keeps the text as it is.
#[verifier::external_body]
fn parse_digest_text(s: &str) -> (res: Result<String, oci_spec::OciSpecError>)
    ensures
        res is Ok <==> digest_well_formed(s@),
        res matches Ok(t) ==> t@ == s@,
{
    s.parse::<oci_spec::image::Digest>().map(|d| d.to_string())
}

/// Why a text is no digest.
#[derive(Debug, Clone, Copy, PartialEq, Eq, Structural)]
pub enum DigestError {
    /// The text does not follow the grammar `algorithm ':' encoded`.
    Malformed,
}

/// A content digest in its canonical text form, such as `sha256:` followed
/// by 64 hexadecimal digits. Every value follows the digest grammar.
#[derive(Debug, PartialEq, Eq, Hash)]
pub struct Digest {
    value: String,
}

impl View for Digest {
    type V = Seq<char>;

    closed spec fn view(&self) -> Seq<char> {
        self.value@
    }
}

impl DeepView for Digest {
    type V = Seq<char>;

    open spec fn deep_view(&self) -> Seq<char> {
        self@
    }
}

impl Clone for Digest {
    fn clone(&self) -> (res: Self)
        ensures
            res@ == self@,
    {
        proof {
            use_type_invariant(self);
        }
        Digest { value: self.value.clone() }
    }
}

impl Digest {
    #[verifier::type_invariant]
    spec fn well_formed(self) -> bool {
        digest_well_formed(self.value@)
    }

    /// Parses a digest. Succeeds exactly on the texts of the digest grammar.
    pub fn from_str(s: &str) -> (res: Result<Digest, DigestError>)
        ensures
            res is Ok <==> digest_well_formed(s@),
            res matches Ok(d) ==> d@ == s@,
            res matches Err(e) ==> e == DigestError::Malformed,
    {
        match parse_digest_text(s) {
            Ok(value) => Ok(Digest { value }),
            Err(_) => Err(DigestError::Malformed),
        }
    }

    /// The text of the digest.
    pub fn as_str(&self) -> (res: &str)
        ensures
            res@ == self@,
            digest_well_formed(res@),
    {
        proof {
            use_type_invariant(self);
        }
        self.value.as_str()
    }

    /// The text of the digest, owned.
    pub fn to_string(&self) -> (res: String)
        ensures
            res@ == self@,
            digest_well_formed(res@),
    {
        proof {
            use_type_invariant(self);
        }
        self.value.clone()
    }
}

/// Every hexadecimal text is made of lower-case hexadecimal digits, two for
/// each byte.
pub proof fn lemma_hex_lower(bytes: Seq<u8>)
    ensures
        hex_lower(bytes).len() == 2 * bytes.len(),
        forall|i: int| 0 <= i < hex_lower(bytes).len() ==> is_lower_hex(#[trigger] hex_lower(bytes)[i]),
{
    assert forall|i: int| 0 <= i < hex_lower(bytes).len() implies is_lower_hex(
        #[trigger] hex_lower(bytes)[i],
    ) by {
        let b = bytes[i / 2] as int;
        assert(0 <= b / 16 < 16);
        assert(0 <= b % 16 < 16);
    }
}

/// The text of a hash of 32 bytes behind `sha256:` follows the digest
/// grammar.
pub proof fn lemma_hash_text_well_formed(hash: Seq<u8>)
    requires
        hash.len() == 32,
    ensures
        digest_well_formed(sha256_prefix() + hex_lower(hash)),
        (sha256_prefix() + hex_lower(hash)).len() == 71,
{
    let s = sha256_prefix() + hex_lower(hash);
    let hex = hex_lower(hash);
    lemma_hex_lower(hash);
    let a = s.subrange(0, 6);
    let e = s.subrange(7, s.len() as int);
    assert(a =~= seq!['s', 'h', 'a', '2', '5', '6']);
    assert(e =~= hex);
    assert(algorithm_well_formed(a));
    assert(encoded_well_formed(a, e));
    assert(digest_splits_at(s, 6));
}

/// The digest that stands for the SHA-256 hash `hash`: its 64 hexadecimal
/// digits behind `sha256:`.
pub fn digest_of_hash(hash: &[u8]) -> (res: Digest)
    requires
        hash@.len() == 32,
    ensures
        res@ == sha256_prefix() + hex_lower(hash@),
{
    let hex = hex_lower_string(hash);
    let text = String::from_str("sha256:").concat(hex.as_str());
    proof {
        reveal_strlit("sha256:");
        assert("sha256:"@ =~= sha256_prefix());
        lemma_hash_text_well_formed(hash@);
    }
    match parse_digest_text(text.as_str()) {
        Ok(value) => Digest { value },
        Err(_) => vstd::pervasive::unreached(),
    }
}

/// The digest of `bytes`: its SHA-256 hash in hexadecimal, behind `sha256:`.
pub fn sha256_digest(bytes: &[u8]) -> (res: Digest)
    ensures
        res@ == sha256_digest_text(bytes@),
{
    let hash = sha256_bytes(bytes);
    digest_of_hash(hash.as_slice())
}

} // verus!

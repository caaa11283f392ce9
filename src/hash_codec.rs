//! Stored access-token hashes: generation in the current salted format and
//! verification against every format that may still be persisted.
use vstd::prelude::*;
use vstd::slice::slice_to_vec;
use vstd::string::*;
use crate::text::{chars_of, has_prefix, starts_with_chars};
use base64::Engine;
use rand::Rng;
use scrypt::password_hash::PasswordVerifier;
use sha2::Digest;
use subtle::ConstantTimeEq;

verus! {

/// What SHA-256 gives for `data`.
pub uninterp spec fn sha256_of(data: Seq<u8>) -> Seq<u8>;

/// Relies on `sha2::Sha256::digest`: a 32-byte digest, a function of the input alone.
#[verifier::external_body]
fn sha256(data: &[u8]) -> (r: Vec<u8>)
    ensures
        r@ == sha256_of(data@),
        r@.len() == 32,
{
    sha2::Sha256::digest(data).to_vec()
}

/// The URL-safe base64 text (with padding) of `bytes`.
pub uninterp spec fn b64_url_encoded(bytes: Seq<u8>) -> Seq<char>;

/// What URL-safe base64 decoding (padding required) gives for `text`, if it succeeds.
pub uninterp spec fn b64_url_decoded(text: Seq<char>) -> Option<Seq<u8>>;

/// Whether the scrypt password verifier accepts `password` against the PHC string `phc`.
pub uninterp spec fn scrypt_accepts(phc: Seq<char>, password: Seq<u8>) -> bool;

/// A character of the URL-safe base64 alphabet, or the padding character.
pub open spec fn is_b64_url_char(c: char) -> bool {
    ('A' <= c && c <= 'Z') || ('a' <= c && c <= 'z') || ('0' <= c && c <= '9') || c == '-'
        || c == '_' || c == '='
}

/// Relies on `base64`'s `URL_SAFE` engine `encode`: four characters for each started group
/// of three bytes (`encoded_len` with padding), drawn from the URL-safe alphabet and padding;
/// decoding the output with the same engine gives the input back.
#[verifier::external_body]
fn b64_url_encode(bytes: &[u8]) -> (r: String)
    ensures
        r@ == b64_url_encoded(bytes@),
        r@.len() == 4 * ((bytes@.len() + 2) / 3),
        forall|i: int| 0 <= i < r@.len() ==> is_b64_url_char(#[trigger] r@[i]),
        b64_url_decoded(r@) == Some(bytes@),
{
    base64::engine::general_purpose::URL_SAFE.encode(bytes)
}

/// Relies on `base64`'s `URL_SAFE` engine `decode`; a decoding error becomes `None`.
#[verifier::external_body]
fn b64_url_decode(text: &str) -> (r: Option<Vec<u8>>)
    ensures
        match r {
            Some(v) => b64_url_decoded(text@) == Some(v@),
            None => b64_url_decoded(text@) is None,
        },
{
    base64::engine::general_purpose::URL_SAFE.decode(text).ok()
}

/// Relies on `subtle`'s `ConstantTimeEq` for byte slices: true exactly when the slices are
/// equal, in time independent of where they first differ.
#[verifier::external_body]
fn constant_time_eq(a: &[u8], b: &[u8]) -> (r: bool)
    ensures
        r == (a@ == b@),
{
    a.ct_eq(b).into()
}

/// Relies on `rand::rng` and `Rng::fill`: sixteen bytes from the thread-local generator.
#[verifier::external_body]
fn random_salt() -> (r: Vec<u8>)
    ensures
        r@.len() == 16,
{
    let mut salt = [0u8; 16];
    rand::rng().fill(&mut salt);
    salt.to_vec()
}

/// Relies on `scrypt`'s `PasswordHash::new` and `Scrypt::verify_password`: the answer depends
/// on the PHC string and the password alone, and a PHC string that does not parse is not
/// accepted. The cost parameters come from the stored string, which the server wrote; the
/// memory they ask for is allocated.
#[verifier::external_body]
fn scrypt_verify(phc: &str, password: &[u8]) -> (r: bool)
    ensures
        r == scrypt_accepts(phc@, password@),
{
    match scrypt::password_hash::PasswordHash::new(phc) {
        Ok(hash) => scrypt::Scrypt.verify_password(password, &hash).is_ok(),
        Err(_) => false,
    }
}

/// The UTF-8 bytes of a secret.
pub open spec fn secret_bytes(secret: Seq<char>) -> Seq<u8> {
    vstd::utf8::encode_utf8(secret)
}

/// The digest of the current format: SHA-256 over the salt followed by the secret.
pub open spec fn salted_digest(salt: Seq<u8>, secret: Seq<char>) -> Seq<u8> {
    sha256_of(salt + secret_bytes(secret))
}

/// Computes SHA-256 over `salt` followed by the UTF-8 bytes of `token`.
pub fn compute_salted_hash(token: &str, salt: &[u8]) -> (r: Vec<u8>)
    ensures
        r@ == salted_digest(salt@, token@),
        r@.len() == 32,
{
    let mut input = slice_to_vec(salt);
    let bytes = token.as_bytes();
    let mut i: usize = 0;
    while i < bytes.len()
        invariant
            bytes@ == secret_bytes(token@),
            0 <= i <= bytes@.len(),
            input@ == salt@ + bytes@.subrange(0, i as int),
        decreases bytes@.len() - i,
    {
        input.push(bytes[i]);
        i = i + 1;
        assert(input@ =~= salt@ + bytes@.subrange(0, i as int));
    }
    assert(bytes@.subrange(0, bytes@.len() as int) =~= bytes@);
    sha256(input.as_slice())
}

/// Tag of the legacy memory-hard format, a PHC string: `$scrypt$...`.
pub open spec fn scrypt_tag() -> Seq<char> {
    seq!['$', 's', 'c', 'r', 'y', 'p', 't', '$']
}

/// Tag of the current format: `$sha256s$<salt>$<digest>`.
pub open spec fn salted_tag() -> Seq<char> {
    seq!['$', 's', 'h', 'a', '2', '5', '6', 's', '$']
}

/// Tag of the deprecated unsalted format: `$sha256$<digest>`.
pub open spec fn deprecated_tag() -> Seq<char> {
    seq!['$', 's', 'h', 'a', '2', '5', '6', '$']
}

pub open spec fn no_dollar(s: Seq<char>) -> bool {
    forall|i: int| 0 <= i < s.len() ==> s[i] != '$'
}

/// In a current-format string, `k` is the position of the `$` between salt and digest:
/// the string splits on `$` into exactly four segments.
pub open spec fn salted_separator_at(s: Seq<char>, k: int) -> bool {
    &&& salted_tag().len() <= k < s.len()
    &&& s[k] == '$'
    &&& no_dollar(s.subrange(salted_tag().len() as int, k))
    &&& no_dollar(s.subrange(k + 1, s.len() as int))
}

/// A decoded segment; one that does not decode counts as empty.
pub open spec fn decoded_or_empty(text: Seq<char>) -> Seq<u8> {
    match b64_url_decoded(text) {
        Some(b) => b,
        None => Seq::empty(),
    }
}

/// What a stored hash string holds, told apart by its tag.
pub ghost enum HashRecordModel {
    LegacyScrypt { phc: Seq<char> },
    SaltedSha256 { salt: Seq<u8>, digest: Seq<u8> },
    DeprecatedUnsaltedSha256 { text: Seq<char> },
    Unrecognized,
}

pub open spec fn hash_record_of(s: Seq<char>) -> HashRecordModel {
    if has_prefix(s, scrypt_tag()) {
        HashRecordModel::LegacyScrypt { phc: s }
    } else if has_prefix(s, salted_tag()) {
        if exists|k: int| salted_separator_at(s, k) {
            let k = choose|k: int| salted_separator_at(s, k);
            HashRecordModel::SaltedSha256 {
                salt: decoded_or_empty(s.subrange(salted_tag().len() as int, k)),
                digest: decoded_or_empty(s.subrange(k + 1, s.len() as int)),
            }
        } else {
            HashRecordModel::Unrecognized
        }
    } else if has_prefix(s, deprecated_tag()) {
        HashRecordModel::DeprecatedUnsaltedSha256 { text: s }
    } else {
        HashRecordModel::Unrecognized
    }
}

/// A stored hash string, dispatched once on its tag.
pub enum HashRecord {
    LegacyScrypt(String),
    SaltedSha256 { salt: Vec<u8>, digest: Vec<u8> },
    DeprecatedUnsaltedSha256(String),
    Unrecognized,
}

impl View for HashRecord {
    type V = HashRecordModel;

    open spec fn view(&self) -> HashRecordModel {
        match self {
            HashRecord::LegacyScrypt(phc) => HashRecordModel::LegacyScrypt { phc: phc@ },
            HashRecord::SaltedSha256 { salt, digest } => HashRecordModel::SaltedSha256 {
                salt: salt@,
                digest: digest@,
            },
            HashRecord::DeprecatedUnsaltedSha256(text) => {
                HashRecordModel::DeprecatedUnsaltedSha256 { text: text@ }
            },
            HashRecord::Unrecognized => HashRecordModel::Unrecognized,
        }
    }
}

/// The first position at or after `from` that holds `$`, or the length if there is none.
fn find_dollar(s: &Vec<char>, from: usize) -> (r: usize)
    requires
        from <= s@.len(),
    ensures
        from <= r <= s@.len(),
        r < s@.len() ==> s@[r as int] == '$',
        no_dollar(s@.subrange(from as int, r as int)),
{
    let mut i: usize = from;
    while i < s.len()
        invariant
            from <= i <= s@.len(),
            no_dollar(s@.subrange(from as int, i as int)),
        decreases s@.len() - i,
    {
        if s[i] == '$' {
            return i;
        }
        i = i + 1;
        assert forall|j: int| 0 <= j < s@.subrange(from as int, i as int).len() implies
            s@.subrange(from as int, i as int)[j] != '$' by {
            if j < i - 1 - from {
                assert(s@.subrange(from as int, i as int)[j] == s@.subrange(
                    from as int,
                    i - 1,
                )[j]);
            }
        }
    }
    i
}

proof fn lemma_salted_separator_unique(s: Seq<char>, k1: int, k2: int)
    requires
        salted_separator_at(s, k1),
        salted_separator_at(s, k2),
    ensures
        k1 == k2,
{
    if k1 < k2 {
        assert(s.subrange(k1 + 1, s.len() as int)[k2 - k1 - 1] == s[k2]);
    } else if k2 < k1 {
        assert(s.subrange(k2 + 1, s.len() as int)[k1 - k2 - 1] == s[k1]);
    }
}

/// Tells the format of a stored hash string by its tag and takes it apart.
pub fn parse_hash_record(stored: &str) -> (r: HashRecord)
    ensures
        r@ == hash_record_of(stored@),
{
    let chars = chars_of(stored);
    proof {
        reveal_strlit("$scrypt$");
        reveal_strlit("$sha256s$");
        reveal_strlit("$sha256$");
        assert("$scrypt$"@ =~= scrypt_tag());
        assert("$sha256s$"@ =~= salted_tag());
        assert("$sha256$"@ =~= deprecated_tag());
    }
    if starts_with_chars(&chars, "$scrypt$") {
        HashRecord::LegacyScrypt(String::from_str(stored))
    } else if starts_with_chars(&chars, "$sha256s$") {
        let n = chars.len();
        let k = find_dollar(&chars, 9);
        if k == n {
            proof {
                assert forall|j: int| !salted_separator_at(stored@, j) by {
                    if salted_separator_at(stored@, j) {
                        assert(stored@.subrange(9, k as int)[j - 9] == stored@[j]);
                    }
                }
            }
            return HashRecord::Unrecognized;
        }
        let e = find_dollar(&chars, k + 1);
        if e < n {
            proof {
                assert forall|j: int| !salted_separator_at(stored@, j) by {
                    if salted_separator_at(stored@, j) {
                        if j < k {
                            assert(stored@.subrange(j + 1, n as int)[k - j - 1] == stored@[k as int]);
                        } else if j == k {
                            assert(stored@.subrange(j + 1, n as int)[e - j - 1] == stored@[e as int]);
                        } else {
                            assert(stored@.subrange(9, j)[k - 9] == stored@[k as int]);
                        }
                    }
                }
            }
            return HashRecord::Unrecognized;
        }
        proof {
            assert(salted_separator_at(stored@, k as int));
            let c = choose|j: int| salted_separator_at(stored@, j);
            lemma_salted_separator_unique(stored@, k as int, c);
        }
        let salt_text = stored.substring_char(9, k);
        let digest_text = stored.substring_char(k + 1, n);
        let salt = match b64_url_decode(salt_text) {
            Some(v) => v,
            None => Vec::new(),
        };
        let digest = match b64_url_decode(digest_text) {
            Some(v) => v,
            None => Vec::new(),
        };
        HashRecord::SaltedSha256 { salt, digest }
    } else if starts_with_chars(&chars, "$sha256$") {
        HashRecord::DeprecatedUnsaltedSha256(String::from_str(stored))
    } else {
        HashRecord::Unrecognized
    }
}

/// The current-format text for a salt and a digest.
pub open spec fn salted_text(salt: Seq<u8>, digest: Seq<u8>) -> Seq<char> {
    salted_tag() + b64_url_encoded(salt) + seq!['$'] + b64_url_encoded(digest)
}

/// The deprecated unsalted text for a secret.
pub open spec fn deprecated_text(secret: Seq<char>) -> Seq<char> {
    deprecated_tag() + b64_url_encoded(sha256_of(secret_bytes(secret)))
}

/// `stored` is a current-format hash of `secret` under some 16-byte salt, 78 characters
/// long, and reads back as that salt and its 32-byte digest.
pub open spec fn is_current_hash_of(stored: Seq<char>, secret: Seq<char>) -> bool {
    exists|salt: Seq<u8>|
        {
            &&& salt.len() == 16
            &&& salted_digest(salt, secret).len() == 32
            &&& stored.len() == 78
            &&& stored == salted_text(salt, salted_digest(salt, secret))
            &&& hash_record_of(stored) == (HashRecordModel::SaltedSha256 {
                salt,
                digest: salted_digest(salt, secret),
            })
        }
}

/// Outcome of checking a secret against a stored hash.
#[derive(Clone, Copy, Debug, PartialEq, Eq, Structural)]
pub struct HashCheck {
    pub is_valid: bool,
    /// The record verified in an older format and should be rewritten in the current one.
    pub needs_upgrade: bool,
}

/// What checking `secret` against the stored string `stored` gives.
pub open spec fn hash_check_of(stored: Seq<char>, secret: Seq<char>) -> HashCheck {
    match hash_record_of(stored) {
        HashRecordModel::LegacyScrypt { phc } => {
            let ok = scrypt_accepts(phc, secret_bytes(secret));
            HashCheck { is_valid: ok, needs_upgrade: ok }
        },
        HashRecordModel::SaltedSha256 { salt, digest } => HashCheck {
            is_valid: digest == salted_digest(salt, secret),
            needs_upgrade: false,
        },
        HashRecordModel::DeprecatedUnsaltedSha256 { text } => {
            let ok = text == deprecated_text(secret);
            HashCheck { is_valid: ok, needs_upgrade: ok }
        },
        HashRecordModel::Unrecognized => HashCheck { is_valid: false, needs_upgrade: false },
    }
}

/// The deprecated unsalted format, `$sha256$<base64url(sha256(token))>`. Nothing writes it
/// any more; it is kept to verify and migrate old records.
pub fn hash_access_token(token: &str) -> (r: String)
    ensures
        r@ == deprecated_text(token@),
        r@.len() == 52,
{
    let digest = sha256(token.as_bytes());
    let encoded = b64_url_encode(digest.as_slice());
    proof {
        reveal_strlit("$sha256$");
        assert("$sha256$"@ =~= deprecated_tag());
    }
    let mut r = String::from_str("$sha256$");
    r.append(encoded.as_str());
    assert(encoded@.len() == 44);
    r
}

/// The current-format hash of `token` under a given salt.
pub fn generate_access_token_hash_with_salt(token: &str, salt: &[u8]) -> (r: String)
    ensures
        r@ == salted_text(salt@, salted_digest(salt@, token@)),
        salted_digest(salt@, token@).len() == 32,
        r@.len() == 54 + 4 * ((salt@.len() + 2) / 3),
        hash_record_of(r@) == (HashRecordModel::SaltedSha256 {
            salt: salt@,
            digest: salted_digest(salt@, token@),
        }),
{
    let digest = compute_salted_hash(token, salt);
    let salt_text = b64_url_encode(salt);
    let digest_text = b64_url_encode(digest.as_slice());
    proof {
        reveal_strlit("$sha256s$");
        reveal_strlit("$");
        assert("$sha256s$"@ =~= salted_tag());
    }
    let mut r = String::from_str("$sha256s$");
    r.append(salt_text.as_str());
    r.append("$");
    r.append(digest_text.as_str());
    proof {
        let t = r@;
        let k: int = 9 + salt_text@.len() as int;
        assert(t =~= salted_text(salt@, digest@));
        assert(t[2] == 'h');
        assert(!has_prefix(t, scrypt_tag())) by {
            assert(t.take(8)[2] != scrypt_tag()[2]);
        }
        assert(t.take(9) =~= salted_tag());
        assert(t.subrange(9, k) =~= salt_text@);
        assert(t.subrange(k + 1, t.len() as int) =~= digest_text@);
        assert(salted_separator_at(t, k));
        let c = choose|j: int| salted_separator_at(t, j);
        lemma_salted_separator_unique(t, k, c);
    }
    r
}

/// The current-format hash of `token` under 16 fresh random salt bytes:
/// `$sha256s$<base64url(salt)>$<base64url(sha256(salt || token))>`.
pub fn generate_access_token_hash(token: &str) -> (r: String)
    ensures
        is_current_hash_of(r@, token@),
{
    let salt = random_salt();
    let r = generate_access_token_hash_with_salt(token, salt.as_slice());
    assert(r@ == salted_text(salt@, salted_digest(salt@, token@)));
    assert(r@.len() == 78);
    r
}

/// Checks `token` against the stored hash `stored`, in whichever format it was written.
/// Digests are compared in constant time; a string in no known format is invalid.
pub fn verify_access_token_hash(stored: &str, token: &str) -> (r: HashCheck)
    ensures
        r == hash_check_of(stored@, token@),
{
    match parse_hash_record(stored) {
        HashRecord::LegacyScrypt(phc) => {
            let ok = scrypt_verify(phc.as_str(), token.as_bytes());
            HashCheck { is_valid: ok, needs_upgrade: ok }
        },
        HashRecord::SaltedSha256 { salt, digest } => {
            let computed = compute_salted_hash(token, salt.as_slice());
            let ok = constant_time_eq(digest.as_slice(), computed.as_slice());
            HashCheck { is_valid: ok, needs_upgrade: false }
        },
        HashRecord::DeprecatedUnsaltedSha256(text) => {
            let expected = hash_access_token(token);
            let ok = constant_time_eq(text.as_str().as_bytes(), expected.as_str().as_bytes());
            proof {
                vstd::utf8::encode_utf8_decode_utf8(text@);
                vstd::utf8::encode_utf8_decode_utf8(expected@);
                assert(ok == (text@ == expected@));
            }
            HashCheck { is_valid: ok, needs_upgrade: ok }
        },
        HashRecord::Unrecognized => HashCheck { is_valid: false, needs_upgrade: false },
    }
}

/// A hash generated for a secret verifies against that secret and asks for no upgrade.
pub proof fn lemma_generated_hash_verifies(stored: Seq<char>, secret: Seq<char>)
    requires
        is_current_hash_of(stored, secret),
    ensures
        hash_check_of(stored, secret) == (HashCheck { is_valid: true, needs_upgrade: false }),
{
}

/// A hash generated for one secret accepts a different secret only through a SHA-256
/// collision: two different inputs, the salt followed by each secret, with one digest.
pub proof fn lemma_generated_hash_accepts_other_only_on_collision(
    stored: Seq<char>,
    secret: Seq<char>,
    other: Seq<char>,
)
    requires
        is_current_hash_of(stored, secret),
        secret != other,
        hash_check_of(stored, other).is_valid,
    ensures
        exists|salt: Seq<u8>|
            {
                &&& salt + secret_bytes(secret) != salt + secret_bytes(other)
                &&& #[trigger] sha256_of(salt + secret_bytes(secret)) == sha256_of(
                    salt + secret_bytes(other),
                )
            },
{
    let salt = choose|salt: Seq<u8>|
        {
            &&& salt.len() == 16
            &&& stored == salted_text(salt, salted_digest(salt, secret))
            &&& hash_record_of(stored) == (HashRecordModel::SaltedSha256 {
                salt,
                digest: salted_digest(salt, secret),
            })
        };
    vstd::utf8::encode_utf8_decode_utf8(secret);
    vstd::utf8::encode_utf8_decode_utf8(other);
    assert((salt + secret_bytes(secret)).subrange(16, (salt + secret_bytes(secret)).len() as int)
        =~= secret_bytes(secret));
    assert((salt + secret_bytes(other)).subrange(16, (salt + secret_bytes(other)).len() as int)
        =~= secret_bytes(other));
    assert(sha256_of(salt + secret_bytes(secret)) == sha256_of(salt + secret_bytes(other)));
}

/// A record in the deprecated unsalted format verifies against the secret it was made
/// from, and asks to be upgraded.
pub proof fn lemma_deprecated_hash_verifies(secret: Seq<char>)
    ensures
        hash_check_of(deprecated_text(secret), secret) == (HashCheck {
            is_valid: true,
            needs_upgrade: true,
        }),
{
    let t = deprecated_text(secret);
    assert(t.take(8) =~= deprecated_tag());
    assert(!has_prefix(t, scrypt_tag())) by {
        assert(t.take(8)[2] != scrypt_tag()[2]);
    }
    assert(!has_prefix(t, salted_tag())) by {
        assert(t[7] == '$');
        if t.len() >= 9 {
            assert(t.take(9)[7] != salted_tag()[7]);
        }
    }
}

} // verus!

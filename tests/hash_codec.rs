use collab_auth::hash_codec::{
    compute_salted_hash, generate_access_token_hash, generate_access_token_hash_with_salt,
    hash_access_token, parse_hash_record, verify_access_token_hash, HashCheck, HashRecord,
};
use rand::Rng;

const VALID_CURRENT: HashCheck = HashCheck { is_valid: true, needs_upgrade: false };
const VALID_OLD: HashCheck = HashCheck { is_valid: true, needs_upgrade: true };
const INVALID: HashCheck = HashCheck { is_valid: false, needs_upgrade: false };

const LEGACY_HASH: &str =
    "$scrypt$ln=4,r=8,p=1$c2FsdHNhbHQ$3Nhs8K0AAx2bwoHCOKL8ryz3FavaT45EjWNqO9GgBb8";

fn random_secret(rng: &mut impl Rng) -> String {
    let bytes: [u8; 24] = rng.random();
    bytes.iter().map(|b| format!("{:02x}", b)).collect()
}

#[test]
fn generated_hash_has_current_format() {
    let hash = generate_access_token_hash("secret");
    assert_eq!(hash.len(), 78);
    let parts: Vec<&str> = hash.split('$').collect();
    assert_eq!(parts.len(), 4);
    assert_eq!(parts[0], "");
    assert_eq!(parts[1], "sha256s");
    assert_eq!(parts[2].len(), 24);
    assert_eq!(parts[3].len(), 44);
}

#[test]
fn generated_hash_verifies_its_secret() {
    for secret in ["", "secret", "ünïcødé ✓", "a$b$c"] {
        let hash = generate_access_token_hash(secret);
        assert_eq!(verify_access_token_hash(&hash, secret), VALID_CURRENT);
    }
}

#[test]
fn generated_hashes_differ_by_salt() {
    assert_ne!(generate_access_token_hash("secret"), generate_access_token_hash("secret"));
}

#[test]
fn generated_hash_rejects_other_secrets() {
    let mut rng = rand::rng();
    for _ in 0..10_000 {
        let s1 = random_secret(&mut rng);
        let s2 = random_secret(&mut rng);
        if s1 == s2 {
            continue;
        }
        let hash = generate_access_token_hash(&s1);
        assert!(!verify_access_token_hash(&hash, &s2).is_valid);
    }
}

#[test]
fn salted_hash_known_value() {
    let salt: Vec<u8> = (0u8..16).collect();
    assert_eq!(
        compute_salted_hash("abc", &salt),
        vec![
            249, 178, 52, 254, 54, 56, 189, 215, 103, 21, 3, 184, 27, 218, 110, 36, 159, 150,
            174, 167, 224, 216, 202, 117, 140, 143, 90, 177, 48, 150, 222, 144
        ]
    );
    assert_eq!(
        generate_access_token_hash_with_salt("abc", &salt),
        "$sha256s$AAECAwQFBgcICQoLDA0ODw==$-bI0_jY4vddnFQO4G9puJJ-Wrqfg2Mp1jI9asTCW3pA="
    );
}

#[test]
fn deprecated_hash_known_values() {
    assert_eq!(hash_access_token(""), "$sha256$47DEQpj8HBSa-_TImW-5JCeuQeRkm5NMpJWZG3hSuFU=");
    assert_eq!(
        hash_access_token("old-secret"),
        "$sha256$XYZd6uBvvTT-nOhI8-X8Q2jy9hKxiu9H8p8hZFY6AUA="
    );
}

#[test]
fn hash_lengths() {
    for secret in ["", "x", "a much longer secret with ünïcødé in it"] {
        assert_eq!(hash_access_token(secret).len(), 52);
        assert_eq!(generate_access_token_hash(secret).len(), 78);
        assert_eq!(generate_access_token_hash_with_salt(secret, &[1u8; 16]).len(), 78);
    }
    assert_eq!(generate_access_token_hash_with_salt("x", &[]).len(), 54);
    assert_eq!(generate_access_token_hash_with_salt("x", &[9u8; 4]).len(), 62);
}

#[test]
fn deprecated_hash_verifies_and_asks_for_upgrade() {
    let hash = hash_access_token("old-secret");
    assert_eq!(verify_access_token_hash(&hash, "old-secret"), VALID_OLD);
    assert_eq!(verify_access_token_hash(&hash, "old-secreT"), INVALID);
}

#[test]
fn legacy_scrypt_hash_verifies_and_asks_for_upgrade() {
    assert_eq!(verify_access_token_hash(LEGACY_HASH, "legacy-secret"), VALID_OLD);
    assert_eq!(verify_access_token_hash(LEGACY_HASH, "wrong"), INVALID);
}

#[test]
fn malformed_legacy_hash_is_invalid() {
    assert_eq!(verify_access_token_hash("$scrypt$garbage", "x"), INVALID);
}

#[test]
fn unknown_or_malformed_hashes_are_invalid() {
    let good = generate_access_token_hash_with_salt("abc", &[7u8; 16]);
    for stored in [
        "",
        "plain",
        "$md5$abc",
        "$sha256s$",
        "$sha256s$AAAA",
        "$sha256s$AA$BB$CC",
        &format!("{}$", good),
        "$sha256s$!!!$???",
    ] {
        assert_eq!(verify_access_token_hash(stored, "abc"), INVALID, "{stored}");
    }
    assert_eq!(verify_access_token_hash(&good, "abc"), VALID_CURRENT);
}

#[test]
fn parse_tells_formats_apart() {
    assert!(matches!(parse_hash_record(LEGACY_HASH), HashRecord::LegacyScrypt(_)));
    assert!(matches!(
        parse_hash_record("$sha256$47DEQpj8HBSa-_TImW-5JCeuQeRkm5NMpJWZG3hSuFU="),
        HashRecord::DeprecatedUnsaltedSha256(_)
    ));
    match parse_hash_record("$sha256s$AAECAwQFBgcICQoLDA0ODw==$AAEC") {
        HashRecord::SaltedSha256 { salt, digest } => {
            assert_eq!(salt, (0u8..16).collect::<Vec<u8>>());
            assert_eq!(digest, vec![0, 1, 2]);
        }
        _ => panic!("expected the salted format"),
    }
    match parse_hash_record("$sha256s$not base64$AAEC") {
        HashRecord::SaltedSha256 { salt, digest } => {
            assert!(salt.is_empty());
            assert_eq!(digest, vec![0, 1, 2]);
        }
        _ => panic!("expected the salted format"),
    }
    assert!(matches!(parse_hash_record("$sha256s$a$b$c"), HashRecord::Unrecognized));
}

#[test]
fn comparison_outcome_does_not_depend_on_mismatch_position() {
    let salt = [3u8; 16];
    let good = generate_access_token_hash_with_salt("abc", &salt);
    let digest_start = good.rfind('$').unwrap() + 1;
    for pos in digest_start..good.len() - 1 {
        let mut bytes = good.clone().into_bytes();
        bytes[pos] = if bytes[pos] == b'A' { b'B' } else { b'A' };
        let tampered = String::from_utf8(bytes).unwrap();
        assert_eq!(verify_access_token_hash(&tampered, "abc"), INVALID, "{pos}");
    }
}

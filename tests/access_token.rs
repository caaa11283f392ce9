use collab_auth::access_token::{
    access_token_json, prepare_access_token, verify_access_token, AccessTokenId, AccessTokenJson,
    AccessTokenRecord, AuthError, UserId, VerifyAccessTokenResult, ACCESS_TOKEN_VERSION,
    MAX_ACCESS_TOKENS_TO_STORE,
};
use collab_auth::hash_codec::{hash_access_token, verify_access_token_hash, HashCheck};

const ADMIN: UserId = UserId(1);
const USER: UserId = UserId(2);
const OTHER: UserId = UserId(3);

fn issue(id: i32, owner: UserId, impersonated: Option<UserId>, secret: &str) -> (AccessTokenJson, AccessTokenRecord) {
    let new = prepare_access_token(owner, impersonated, secret);
    let record = AccessTokenRecord {
        id: AccessTokenId(id),
        user_id: new.user_id,
        impersonated_user_id: new.impersonated_user_id,
        hash: new.hash,
    };
    (access_token_json(AccessTokenId(id), secret.to_string()), record)
}

#[test]
fn prepared_token_keeps_owner_and_hashes_secret() {
    let new = prepare_access_token(ADMIN, Some(USER), "s3cret");
    assert_eq!(new.user_id, ADMIN);
    assert_eq!(new.impersonated_user_id, Some(USER));
    assert_eq!(new.max_tokens_per_user, MAX_ACCESS_TOKENS_TO_STORE);
    assert_eq!(MAX_ACCESS_TOKENS_TO_STORE, 8);
    assert!(new.hash.starts_with("$sha256s$"));
    assert!(!new.hash.contains("s3cret"));
    assert_eq!(
        verify_access_token_hash(&new.hash, "s3cret"),
        HashCheck { is_valid: true, needs_upgrade: false }
    );
}

#[test]
fn envelope_carries_version_id_and_secret() {
    let env = access_token_json(AccessTokenId(42), "tok".to_string());
    assert_eq!(env.version, ACCESS_TOKEN_VERSION);
    assert_eq!(env.version, 1);
    assert_eq!(env.id, AccessTokenId(42));
    assert_eq!(env.token, "tok");
}

#[test]
fn owner_token_verifies_for_owner() {
    let (env, record) = issue(5, USER, None, "secret");
    let v = verify_access_token(Some(&env), USER, Some(&record)).unwrap();
    assert_eq!(v.result, VerifyAccessTokenResult { is_valid: true, impersonator_id: None });
    assert!(v.rehash.is_none());
}

#[test]
fn owner_token_rejects_other_user() {
    let (env, record) = issue(5, USER, None, "secret");
    assert_eq!(
        verify_access_token(Some(&env), OTHER, Some(&record)).unwrap_err(),
        AuthError::InvalidCredentials
    );
}

#[test]
fn impersonation_token_verifies_for_target_only() {
    let (env, record) = issue(6, ADMIN, Some(USER), "secret");
    let v = verify_access_token(Some(&env), USER, Some(&record)).unwrap();
    assert_eq!(v.result, VerifyAccessTokenResult { is_valid: true, impersonator_id: Some(ADMIN) });
    assert_eq!(
        verify_access_token(Some(&env), ADMIN, Some(&record)).unwrap_err(),
        AuthError::InvalidCredentials
    );
}

#[test]
fn wrong_secret_unknown_token_and_id_mismatch_are_uniform() {
    let (env, record) = issue(7, USER, None, "secret");
    let wrong = access_token_json(AccessTokenId(7), "secreT".to_string());
    assert_eq!(
        verify_access_token(Some(&wrong), USER, Some(&record)).unwrap_err(),
        AuthError::InvalidCredentials
    );
    assert_eq!(
        verify_access_token(Some(&env), USER, None).unwrap_err(),
        AuthError::InvalidCredentials
    );
    let elsewhere = access_token_json(AccessTokenId(8), "secret".to_string());
    assert_eq!(
        verify_access_token(Some(&elsewhere), USER, Some(&record)).unwrap_err(),
        AuthError::InvalidCredentials
    );
}

#[test]
fn malformed_envelope_is_refused() {
    let (_, record) = issue(9, USER, None, "secret");
    for text in ["{\"version\":1,\"id\":9,\"tok", "{\"version\":1,\"id\":9}", "", "null"] {
        let decoded: Option<AccessTokenJson> = serde_json::from_str::<serde_json::Value>(text)
            .ok()
            .and_then(|v| {
                Some(AccessTokenJson {
                    version: v.get("version")?.as_u64()? as usize,
                    id: AccessTokenId(v.get("id")?.as_i64()? as i32),
                    token: v.get("token")?.as_str()?.to_string(),
                })
            });
        assert!(decoded.is_none());
        assert_eq!(
            verify_access_token(decoded.as_ref(), USER, Some(&record)).unwrap_err(),
            AuthError::MalformedInput
        );
    }
}

#[test]
fn deprecated_record_is_migrated_then_current() {
    let record = AccessTokenRecord {
        id: AccessTokenId(10),
        user_id: USER,
        impersonated_user_id: None,
        hash: hash_access_token("old-secret"),
    };
    let env = access_token_json(AccessTokenId(10), "old-secret".to_string());
    let first = verify_access_token(Some(&env), USER, Some(&record)).unwrap();
    assert!(first.result.is_valid);
    let new_hash = first.rehash.expect("a deprecated record is upgraded");
    assert!(new_hash.starts_with("$sha256s$"));
    let migrated = AccessTokenRecord { hash: new_hash, ..record };
    let second = verify_access_token(Some(&env), USER, Some(&migrated)).unwrap();
    assert_eq!(second.result, first.result);
    assert!(second.rehash.is_none());
}

#[test]
fn legacy_record_is_migrated_then_current() {
    let record = AccessTokenRecord {
        id: AccessTokenId(11),
        user_id: ADMIN,
        impersonated_user_id: Some(USER),
        hash: "$scrypt$ln=4,r=8,p=1$c2FsdHNhbHQ$3Nhs8K0AAx2bwoHCOKL8ryz3FavaT45EjWNqO9GgBb8"
            .to_string(),
    };
    let env = access_token_json(AccessTokenId(11), "legacy-secret".to_string());
    let first = verify_access_token(Some(&env), USER, Some(&record)).unwrap();
    assert_eq!(first.result, VerifyAccessTokenResult { is_valid: true, impersonator_id: Some(ADMIN) });
    let migrated = AccessTokenRecord { hash: first.rehash.unwrap(), ..record };
    let second = verify_access_token(Some(&env), USER, Some(&migrated)).unwrap();
    assert!(second.rehash.is_none());
}

#[test]
fn failed_verification_of_old_record_asks_no_rehash() {
    let record = AccessTokenRecord {
        id: AccessTokenId(12),
        user_id: USER,
        impersonated_user_id: None,
        hash: hash_access_token("old-secret"),
    };
    let env = access_token_json(AccessTokenId(12), "other".to_string());
    assert_eq!(
        verify_access_token(Some(&env), USER, Some(&record)).unwrap_err(),
        AuthError::InvalidCredentials
    );
}

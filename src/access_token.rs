//! Access tokens: what is issued to a client, what the store keeps, and the decision taken
//! when a client presents a token.
use vstd::prelude::*;
use crate::hash_codec::{
    generate_access_token_hash, hash_check_of, hash_record_of, is_current_hash_of,
    verify_access_token_hash, HashRecordModel,
};

verus! {

/// Identity of a user.
#[derive(Clone, Copy, Debug, PartialEq, Eq, Structural, Hash)]
pub struct UserId(pub i32);

/// Identity of a stored access token.
#[derive(Clone, Copy, Debug, PartialEq, Eq, Structural, Hash)]
pub struct AccessTokenId(pub i32);

/// How many tokens the store keeps per user; it evicts the oldest beyond that.
pub const MAX_ACCESS_TOKENS_TO_STORE: usize = 8;

/// Version of the envelope handed to clients.
pub const ACCESS_TOKEN_VERSION: usize = 1;

/// The envelope a client holds: `{"version": .., "id": .., "token": ".."}`.
#[derive(Clone, Debug)]
pub struct AccessTokenJson {
    pub version: usize,
    pub id: AccessTokenId,
    pub token: String,
}

pub ghost struct AccessTokenJsonModel {
    pub version: usize,
    pub id: AccessTokenId,
    pub token: Seq<char>,
}

impl View for AccessTokenJson {
    type V = AccessTokenJsonModel;

    open spec fn view(&self) -> AccessTokenJsonModel {
        AccessTokenJsonModel { version: self.version, id: self.id, token: self.token@ }
    }
}

/// A token as the store keeps it. Only `hash` is ever rewritten.
#[derive(Clone, Debug)]
pub struct AccessTokenRecord {
    pub id: AccessTokenId,
    pub user_id: UserId,
    pub impersonated_user_id: Option<UserId>,
    pub hash: String,
}

pub ghost struct AccessTokenRecordModel {
    pub id: AccessTokenId,
    pub user_id: UserId,
    pub impersonated_user_id: Option<UserId>,
    pub hash: Seq<char>,
}

impl View for AccessTokenRecord {
    type V = AccessTokenRecordModel;

    open spec fn view(&self) -> AccessTokenRecordModel {
        AccessTokenRecordModel {
            id: self.id,
            user_id: self.user_id,
            impersonated_user_id: self.impersonated_user_id,
            hash: self.hash@,
        }
    }
}

/// What the store is asked to insert when a token is issued.
#[derive(Clone, Debug)]
pub struct NewAccessToken {
    pub user_id: UserId,
    pub impersonated_user_id: Option<UserId>,
    pub hash: String,
    pub max_tokens_per_user: usize,
}

/// Outcome of a successful verification.
#[derive(Clone, Copy, Debug, PartialEq, Eq, Structural)]
pub struct VerifyAccessTokenResult {
    pub is_valid: bool,
    /// The admin who impersonates the user, if the token was issued for impersonation.
    pub impersonator_id: Option<UserId>,
}

/// Why a presented token is refused.
#[derive(Clone, Copy, Debug, PartialEq, Eq, Structural)]
pub enum AuthError {
    /// The envelope or the request does not have the expected shape.
    MalformedInput,
    /// Unknown token, wrong user or wrong secret: one outcome for all three.
    InvalidCredentials,
}

/// A successful verification, with the current-format hash to write over the stored one
/// when the record was in an older format.
#[derive(Clone, Debug)]
pub struct AccessTokenVerification {
    pub result: VerifyAccessTokenResult,
    pub rehash: Option<String>,
}

/// The user a record authenticates as: the impersonated user if any, else its owner.
pub open spec fn effective_user(record: AccessTokenRecordModel) -> UserId {
    match record.impersonated_user_id {
        Some(u) => u,
        None => record.user_id,
    }
}

/// What verifying the token in `envelope` for `claimed` against the looked-up `record`
/// decides. `None` stands for an envelope that did not decode.
pub open spec fn verification_of(
    envelope: Option<AccessTokenJsonModel>,
    claimed: UserId,
    record: Option<AccessTokenRecordModel>,
) -> Result<VerifyAccessTokenResult, AuthError> {
    match envelope {
        None => Err(AuthError::MalformedInput),
        Some(env) => match record {
            None => Err(AuthError::InvalidCredentials),
            Some(rec) => if rec.id != env.id || effective_user(rec) != claimed {
                Err(AuthError::InvalidCredentials)
            } else if !hash_check_of(rec.hash, env.token).is_valid {
                Err(AuthError::InvalidCredentials)
            } else {
                Ok(
                    VerifyAccessTokenResult {
                        is_valid: true,
                        impersonator_id: match rec.impersonated_user_id {
                            Some(_) => Some(rec.user_id),
                            None => None,
                        },
                    },
                )
            },
        },
    }
}

/// Whether a successful verification of `envelope` against `record` asks for a rewrite
/// of the stored hash in the current format.
pub open spec fn needs_rehash(
    envelope: AccessTokenJsonModel,
    record: AccessTokenRecordModel,
) -> bool {
    hash_check_of(record.hash, envelope.token).needs_upgrade
}

/// What `verify_access_token` promises: the decision of `verification_of`, and a fresh
/// current-format hash of the secret exactly when the record asks for an upgrade.
pub open spec fn verification_post(
    envelope: Option<AccessTokenJsonModel>,
    claimed: UserId,
    record: Option<AccessTokenRecordModel>,
    r: Result<AccessTokenVerification, AuthError>,
) -> bool {
    match r {
        Err(e) => verification_of(envelope, claimed, record) == Err::<
            VerifyAccessTokenResult,
            AuthError,
        >(e),
        Ok(v) => {
            &&& verification_of(envelope, claimed, record) == Ok::<
                VerifyAccessTokenResult,
                AuthError,
            >(v.result)
            &&& match v.rehash {
                Some(h) => needs_rehash(envelope.unwrap(), record.unwrap())
                    && is_current_hash_of(h@, envelope.unwrap().token),
                None => !needs_rehash(envelope.unwrap(), record.unwrap()),
            }
        },
    }
}

/// Decides whether the token in `envelope` authenticates `claimed`, given the record that
/// the store holds under the envelope's id (`None` if it holds none). An envelope that
/// did not decode (`None`) gives `MalformedInput`. Unknown token, wrong user and wrong
/// secret all give `InvalidCredentials`. A record that verifies in an
/// older format comes back with a current-format hash to store in its place.
pub fn verify_access_token(
    envelope: Option<&AccessTokenJson>,
    claimed: UserId,
    record: Option<&AccessTokenRecord>,
) -> (r: Result<AccessTokenVerification, AuthError>)
    ensures
        verification_post(
            match envelope {
                Some(env) => Some(env@),
                None => None,
            },
            claimed,
            match record {
                Some(rec) => Some(rec@),
                None => None,
            },
            r,
        ),
{
    let envelope = match envelope {
        Some(env) => env,
        None => return Err(AuthError::MalformedInput),
    };
    let rec = match record {
        Some(rec) => rec,
        None => return Err(AuthError::InvalidCredentials),
    };
    let token_user_id = match rec.impersonated_user_id {
        Some(u) => u,
        None => rec.user_id,
    };
    if rec.id != envelope.id || token_user_id != claimed {
        return Err(AuthError::InvalidCredentials);
    }
    let check = verify_access_token_hash(rec.hash.as_str(), envelope.token.as_str());
    if !check.is_valid {
        return Err(AuthError::InvalidCredentials);
    }
    let rehash = if check.needs_upgrade {
        Some(generate_access_token_hash(envelope.token.as_str()))
    } else {
        None
    };
    let impersonator_id = match rec.impersonated_user_id {
        Some(_) => Some(rec.user_id),
        None => None,
    };
    Ok(
        AccessTokenVerification {
            result: VerifyAccessTokenResult { is_valid: true, impersonator_id },
            rehash,
        },
    )
}

/// What the store is asked to insert for a new token of `user_id` (or of an admin
/// impersonating `impersonated_user_id`) whose secret is `token`: a fresh current-format
/// hash of the secret, never the secret itself.
pub fn prepare_access_token(
    user_id: UserId,
    impersonated_user_id: Option<UserId>,
    token: &str,
) -> (r: NewAccessToken)
    ensures
        r.user_id == user_id,
        r.impersonated_user_id == impersonated_user_id,
        is_current_hash_of(r.hash@, token@),
        r.max_tokens_per_user == MAX_ACCESS_TOKENS_TO_STORE,
{
    NewAccessToken {
        user_id,
        impersonated_user_id,
        hash: generate_access_token_hash(token),
        max_tokens_per_user: MAX_ACCESS_TOKENS_TO_STORE,
    }
}

/// The envelope handed to the client for the token stored under `id` with secret `token`.
pub fn access_token_json(id: AccessTokenId, token: String) -> (r: AccessTokenJson)
    ensures
        r@ == (AccessTokenJsonModel { version: ACCESS_TOKEN_VERSION, id, token: token@ }),
{
    AccessTokenJson { version: ACCESS_TOKEN_VERSION, id, token }
}

/// A token issued without impersonation authenticates no user but its owner.
pub proof fn lemma_token_rejects_other_user(
    envelope: AccessTokenJsonModel,
    record: AccessTokenRecordModel,
    claimed: UserId,
)
    requires
        record.impersonated_user_id is None,
        claimed != record.user_id,
    ensures
        verification_of(Some(envelope), claimed, Some(record)) == Err::<
            VerifyAccessTokenResult,
            AuthError,
        >(AuthError::InvalidCredentials),
{
}

/// A token that an admin was issued to impersonate a user, presented with its secret,
/// authenticates that user and names the admin as impersonator; it does not authenticate
/// the admin.
pub proof fn lemma_impersonation_token(
    envelope: AccessTokenJsonModel,
    record: AccessTokenRecordModel,
    admin: UserId,
    user: UserId,
)
    requires
        record.id == envelope.id,
        record.user_id == admin,
        record.impersonated_user_id == Some(user),
        is_current_hash_of(record.hash, envelope.token),
    ensures
        verification_of(Some(envelope), user, Some(record)) == Ok::<
            VerifyAccessTokenResult,
            AuthError,
        >(VerifyAccessTokenResult { is_valid: true, impersonator_id: Some(admin) }),
        admin != user ==> verification_of(Some(envelope), admin, Some(record)) == Err::<
            VerifyAccessTokenResult,
            AuthError,
        >(AuthError::InvalidCredentials),
{
    crate::hash_codec::lemma_generated_hash_verifies(record.hash, envelope.token);
}

/// After a successful verification of a record in the legacy or the deprecated format, the
/// record with the returned hash in place of the old one is in the current format, verifies
/// the same secret with the same result, and asks for no further upgrade.
pub proof fn lemma_migrated_record_verifies(
    envelope: AccessTokenJsonModel,
    claimed: UserId,
    record: AccessTokenRecordModel,
    first: Result<AccessTokenVerification, AuthError>,
)
    requires
        verification_post(Some(envelope), claimed, Some(record), first),
        first is Ok,
        hash_record_of(record.hash) is LegacyScrypt || hash_record_of(
            record.hash,
        ) is DeprecatedUnsaltedSha256,
    ensures
        first.unwrap().rehash is Some,
        ({
            let hash = first.unwrap().rehash.unwrap()@;
            let migrated = AccessTokenRecordModel { hash, ..record };
            &&& is_current_hash_of(hash, envelope.token)
            &&& verification_of(Some(envelope), claimed, Some(migrated)) == Ok::<
                VerifyAccessTokenResult,
                AuthError,
            >(first.unwrap().result)
            &&& !needs_rehash(envelope, migrated)
        }),
{
    let hash = first.unwrap().rehash.unwrap()@;
    crate::hash_codec::lemma_generated_hash_verifies(hash, envelope.token);
}

/// An envelope that did not decode is refused as malformed, whatever the user and the store.
pub proof fn lemma_malformed_envelope_refused(
    claimed: UserId,
    record: Option<AccessTokenRecordModel>,
)
    ensures
        verification_of(None, claimed, record) == Err::<VerifyAccessTokenResult, AuthError>(
            AuthError::MalformedInput,
        ),
{
}

} // verus!

use collab_auth::access_token::{AuthError, UserId, VerifyAccessTokenResult};
use collab_auth::header::{principal_for, validate_header, HeaderDecision, HeaderRejection, Principal};

fn decide(header: &str, dev: bool) -> Result<HeaderDecision, HeaderRejection> {
    validate_header(Some(header), dev, "the-api-token")
}

fn verify_target(header: &str) -> (i32, String) {
    match decide(header, false) {
        Ok(HeaderDecision::VerifyAccessToken { user_id, access_token }) => (user_id.0, access_token),
        other => panic!("unexpected {other:?}"),
    }
}

#[test]
fn missing_header_is_unauthorized() {
    let e = validate_header(None, false, "x").unwrap_err();
    assert_eq!(e, HeaderRejection::MissingHeader);
    assert_eq!(e.status(), 401);
    assert_eq!(e.message(), "missing authorization header");
}

#[test]
fn dev_server_token_is_rejected() {
    let e = decide("dev-server-token abc", true).unwrap_err();
    assert_eq!(e, HeaderRejection::DevServerToken);
    assert_eq!(e.status(), 401);
    assert_eq!(e.message(), "Dev servers were removed in Zed 0.157 please upgrade to SSH remoting");
}

#[test]
fn bad_user_id_is_bad_request() {
    for h in ["", "   ", "abc token", "2147483648 token", "-2147483649 t", "+ t", "- t", "1x t"] {
        let e = decide(h, false).unwrap_err();
        assert_eq!(e, HeaderRejection::MissingUserId, "{h:?}");
        assert_eq!(e.status(), 400);
        assert_eq!(e.message(), "missing user id in authorization header");
    }
}

#[test]
fn missing_access_token_is_bad_request() {
    let e = decide("  17  ", false).unwrap_err();
    assert_eq!(e, HeaderRejection::MissingAccessToken);
    assert_eq!(e.status(), 400);
    assert_eq!(e.message(), "missing access token in authorization header");
}

#[test]
fn user_id_and_token_are_read() {
    assert_eq!(verify_target("17 {\"id\":1}"), (17, "{\"id\":1}".to_string()));
    assert_eq!(verify_target("\t 2147483647\u{3000}tok extra"), (2147483647, "tok".to_string()));
    assert_eq!(verify_target("-2147483648 tok"), (-2147483648, "tok".to_string()));
    assert_eq!(verify_target("+0005\u{a0}tok"), (5, "tok".to_string()));
}

#[test]
fn admin_token_only_in_development() {
    match decide("3 ADMIN_TOKEN:the-api-token", true).unwrap() {
        HeaderDecision::AdminToken { user_id, result } => {
            assert_eq!(user_id, UserId(3));
            assert_eq!(result, VerifyAccessTokenResult { is_valid: true, impersonator_id: None });
        }
        other => panic!("unexpected {other:?}"),
    }
    match decide("3 ADMIN_TOKEN:wrong", true).unwrap() {
        HeaderDecision::AdminToken { result, .. } => assert!(!result.is_valid),
        other => panic!("unexpected {other:?}"),
    }
    assert_eq!(
        verify_target("3 ADMIN_TOKEN:the-api-token"),
        (3, "ADMIN_TOKEN:the-api-token".to_string())
    );
}

#[test]
fn principal_binding() {
    let ok = |impersonator_id| Ok(VerifyAccessTokenResult { is_valid: true, impersonator_id });
    assert_eq!(principal_for(UserId(2), ok(None)), Ok(Principal::User(UserId(2))));
    assert_eq!(
        principal_for(UserId(2), ok(Some(UserId(1)))),
        Ok(Principal::Impersonated { user: UserId(2), admin: UserId(1) })
    );
    let invalid = Ok(VerifyAccessTokenResult { is_valid: false, impersonator_id: None });
    assert_eq!(principal_for(UserId(2), invalid), Err(HeaderRejection::InvalidCredentials));
    let e = principal_for(UserId(2), Err(AuthError::InvalidCredentials)).unwrap_err();
    assert_eq!((e.status(), e.message()), (401, "invalid credentials".to_string()));
    let e = principal_for(UserId(2), Err(AuthError::MalformedInput)).unwrap_err();
    assert_eq!(e, HeaderRejection::MalformedAccessToken);
    assert_eq!(e.status(), 400);
}

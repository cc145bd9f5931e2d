use argon2::password_hash::{PasswordHasher, SaltString};
use argon2::{Algorithm, Argon2, Params, Version};
use iggy_core::credentials::{
    bearer_token, credential_from_jwt, credential_from_pat, login_decision, login_failure_reply,
    login_verification_hash, resolve_credential, resolve_credential_at, verify_login_credentials,
    verify_pat_credentials, verify_pat_credentials_at, verify_pat_user_at,
    CredentialLimits, LoginFailureReply, LoginRegisterError, PersonalAccessToken, User,
    UserStatus, Users,
};
use iggy_core::http_error::{IggyError, IggyErrorKind};

fn not_caught_up() -> IggyError {
    IggyError {
        kind: IggyErrorKind::TransientNotCommitted,
        code: 12,
        name: "transient_not_committed".to_owned(),
        message: "not committed".to_owned(),
    }
}
use iggy_core::jwt::{Audience, JwtClaims};

fn hash(password: &str) -> String {
    let params = Params::new(8, 1, 1, None).unwrap();
    let argon2 = Argon2::new(Algorithm::Argon2id, Version::V0x13, params);
    let salt = SaltString::from_b64("c29tZXNhbHRzb21lc2FsdA").unwrap();
    argon2.hash_password(password.as_bytes(), &salt).unwrap().to_string()
}

fn limits() -> CredentialLimits {
    CredentialLimits {
        min_username_length: 3,
        max_username_length: 50,
        min_password_length: 3,
        max_password_length: 100,
    }
}

fn users() -> Users {
    Users {
        index: vec![("alice".to_owned(), 0), ("bob".to_owned(), 1), ("ghost".to_owned(), 5)],
        items: vec![
            Some(User {
                id: 0,
                username: "alice".to_owned(),
                password_hash: hash("secret"),
                status: UserStatus::Active,
            }),
            Some(User {
                id: 1,
                username: "bob".to_owned(),
                password_hash: hash("hunter2"),
                status: UserStatus::Inactive,
            }),
        ],
        personal_access_token_index: vec![
            ("h-alice".to_owned(), 0, "ci".to_owned()),
            ("h-old".to_owned(), 0, "old".to_owned()),
            ("h-bob".to_owned(), 1, "bob-token".to_owned()),
            ("h-dangling".to_owned(), 0, "missing".to_owned()),
            ("h-forever".to_owned(), 0, "forever".to_owned()),
        ],
        personal_access_tokens: vec![
            PersonalAccessToken { user_id: 0, name: "ci".to_owned(), expiry_at: Some(5_000_000_000) },
            PersonalAccessToken { user_id: 0, name: "old".to_owned(), expiry_at: Some(1_000_000) },
            PersonalAccessToken { user_id: 1, name: "bob-token".to_owned(), expiry_at: None },
            PersonalAccessToken { user_id: 0, name: "forever".to_owned(), expiry_at: None },
        ],
    }
}

#[test]
fn login_succeeds_only_for_active_user_with_right_password() {
    let users = users();
    let dummy = hash("timing-guard");
    assert_eq!(verify_login_credentials(&users, &limits(), &dummy, "alice", "secret"), Ok(0));
    for (username, password) in [
        ("alice", "wrong"),
        ("bob", "hunter2"),
        ("carol", "secret"),
        ("ghost", "secret"),
        ("al", "secret"),
        ("alice", "se"),
    ] {
        assert_eq!(
            verify_login_credentials(&users, &limits(), &dummy, username, password),
            Err(LoginRegisterError::InvalidCredentials),
            "{username}/{password}"
        );
    }
}

#[test]
fn token_checks() {
    let users = users();
    assert_eq!(verify_pat_credentials_at(&users, "h-alice", 2_000_000), Ok((0, 5000)));
    assert_eq!(verify_pat_credentials_at(&users, "h-forever", 2_000_000), Ok((0, u64::MAX)));
    assert_eq!(
        verify_pat_credentials_at(&users, "h-old", 1_000_000),
        Err(LoginRegisterError::InvalidToken)
    );
    assert_eq!(verify_pat_credentials_at(&users, "h-old", 999_999), Ok((0, 1)));
    assert_eq!(
        verify_pat_credentials_at(&users, "h-bob", 0),
        Err(LoginRegisterError::UserInactive)
    );
    assert_eq!(
        verify_pat_credentials_at(&users, "h-dangling", 0),
        Err(LoginRegisterError::InvalidToken)
    );
    assert_eq!(
        verify_pat_credentials_at(&users, "h-unknown", 0),
        Err(LoginRegisterError::InvalidToken)
    );
    assert_eq!(verify_pat_credentials(&users, "h-forever"), Ok(0));
}

#[test]
fn bearer_header_parsing() {
    assert_eq!(bearer_token(Some("Bearer abc.def")), Ok("abc.def"));
    assert_eq!(bearer_token(Some("Bearer ")), Ok(""));
    assert_eq!(bearer_token(Some("bearer abc")), Err(IggyErrorKind::AccessTokenMissing));
    assert_eq!(bearer_token(Some("Basic abc")), Err(IggyErrorKind::AccessTokenMissing));
    assert_eq!(bearer_token(Some("Bear")), Err(IggyErrorKind::AccessTokenMissing));
    assert_eq!(bearer_token(None), Err(IggyErrorKind::AccessTokenMissing));
}

fn claims(sub: &str) -> JwtClaims {
    JwtClaims {
        jti: "0190a5a4-0000-7000-8000-000000000000".to_owned(),
        iss: "iggy.apache.org".to_owned(),
        aud: Audience::Single("iggy.apache.org".to_owned()),
        sub: sub.to_owned(),
        iat: 10,
        exp: 20,
        nbf: 10,
    }
}

#[test]
fn credential_keys() {
    let c = credential_from_jwt(&claims("7")).unwrap();
    assert_eq!(c.key, "jwt:0190a5a4-0000-7000-8000-000000000000");
    assert_eq!((c.user_id, c.expiry), (7, 20));
    assert!(credential_from_jwt(&claims("x7")).is_none());
    assert!(credential_from_jwt(&claims("4294967296")).is_none());
    let c = credential_from_pat(Ok((3, 99)), "abcd").unwrap();
    assert_eq!(c.key, "pat:abcd");
    assert_eq!((c.user_id, c.expiry), (3, 99));
    assert_eq!(
        credential_from_pat(Err(LoginRegisterError::UserInactive), "abcd"),
        Err(IggyErrorKind::Unauthenticated)
    );
}

#[test]
fn login_failure_replies() {
    assert_eq!(login_failure_reply(&LoginRegisterError::Transient(not_caught_up())), LoginFailureReply::TransientNotCommitted);
    assert_eq!(login_failure_reply(&LoginRegisterError::InvalidToken), LoginFailureReply::Empty);
    assert!(!LoginRegisterError::Transient(not_caught_up()).is_terminal());
    assert!(LoginRegisterError::Session.is_terminal());
}

#[test]
fn login_verifies_against_own_or_dummy_hash() {
    let users = users();
    let dummy = hash("dummy");
    assert_eq!(login_verification_hash(&users, &dummy, "alice"), hash("secret"));
    assert_eq!(login_verification_hash(&users, &dummy, "bob"), hash("hunter2"));
    assert_eq!(login_verification_hash(&users, &dummy, "nobody"), dummy);
    assert_eq!(login_verification_hash(&users, &dummy, "ghost"), dummy);
    assert_eq!(login_decision(&users, "alice", true), Ok(0));
    assert_eq!(login_decision(&users, "alice", false), Err(LoginRegisterError::InvalidCredentials));
    assert_eq!(login_decision(&users, "bob", true), Err(LoginRegisterError::InvalidCredentials));
    assert_eq!(login_decision(&users, "nobody", true), Err(LoginRegisterError::InvalidCredentials));
    assert_eq!(
        verify_login_credentials(&users, &limits(), &dummy, "nobody", "dummy"),
        Err(LoginRegisterError::InvalidCredentials)
    );
}

#[test]
fn id_only_token_check_matches_the_full_check() {
    let users = users();
    for (token, now) in [("h-alice", 2_000_000u64), ("h-old", 1_000_000), ("h-bob", 0), ("h-unknown", 0), ("h-forever", 7)] {
        assert_eq!(
            verify_pat_user_at(&users, token, now),
            verify_pat_credentials_at(&users, token, now).map(|(user_id, _)| user_id)
        );
    }
    assert_eq!(verify_pat_user_at(&users, "h-old", 999_999), Ok(0));
}

#[test]
fn bearer_resolves_jwt_first_then_token() {
    let users = users();
    let c = resolve_credential_at(Some(claims("7")), &users, "h-alice", 2_000_000).unwrap();
    assert_eq!((c.key.as_str(), c.user_id, c.expiry), ("jwt:0190a5a4-0000-7000-8000-000000000000", 7, 20));
    let c = resolve_credential_at(Some(claims("not-a-user")), &users, "h-alice", 2_000_000).unwrap();
    assert_eq!((c.key.as_str(), c.user_id, c.expiry), ("pat:h-alice", 0, 5000));
    let c = resolve_credential_at(None, &users, "h-alice", 2_000_000).unwrap();
    assert_eq!(c.key, "pat:h-alice");
    assert_eq!(resolve_credential_at(None, &users, "h-old", 1_000_000), Err(IggyErrorKind::Unauthenticated));
    assert_eq!(resolve_credential_at(None, &users, "h-bob", 0), Err(IggyErrorKind::Unauthenticated));
    let c = resolve_credential(None, &users, "h-forever").unwrap();
    assert_eq!((c.user_id, c.expiry), (0, u64::MAX));
    assert_eq!(resolve_credential(Some(claims("9")), &users, "h-unknown").unwrap().user_id, 9);
}

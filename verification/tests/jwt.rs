use iggy_core::jwt::{
    claims_at, expiry_secs, issue_claims, validation_settings, normalize_secrets, secrets_fill, Audience, HttpJwtConfig,
    IggyExpiry, SecretsFill,
};

fn config(not_before: u32, expiry: IggyExpiry, encoding: &str, decoding: &str) -> HttpJwtConfig {
    HttpJwtConfig {
        algorithm: "HS256".to_owned(),
        issuer: "iggy.apache.org".to_owned(),
        audience: "iggy.apache.org".to_owned(),
        valid_issuers: vec!["iggy.apache.org".to_owned()],
        valid_audiences: vec!["iggy.apache.org".to_owned()],
        access_token_expiry: expiry,
        clock_skew: 5,
        not_before,
        encoding_secret: encoding.to_owned(),
        decoding_secret: decoding.to_owned(),
    }
}

#[test]
fn claims_carry_stamps_and_subject() {
    let c = claims_at(&config(3600, IggyExpiry::ExpireDuration(60), "", ""), 7, 1000, "id".to_owned());
    assert_eq!(c.sub, "7");
    assert_eq!((c.iat, c.exp, c.nbf), (1000, 1060, 4600));
    assert_eq!(c.aud, Audience::Single("iggy.apache.org".to_owned()));
    assert_eq!(c.iss, "iggy.apache.org");
    let c = claims_at(&config(0, IggyExpiry::NeverExpire, "", ""), 4294967295, 1, "id".to_owned());
    assert_eq!(c.sub, "4294967295");
    assert_eq!((c.exp, c.nbf), (1_000_000_001, 1));
}

#[test]
fn expiry_seconds() {
    assert_eq!(expiry_secs(IggyExpiry::NeverExpire), 1_000_000_000);
    assert_eq!(expiry_secs(IggyExpiry::ServerDefault), 0);
    assert_eq!(expiry_secs(IggyExpiry::ExpireDuration(3600)), 3600);
}

#[test]
fn issued_claims_have_a_uuid_token_id() {
    let c = issue_claims(&config(0, IggyExpiry::ExpireDuration(60), "", ""), 7);
    assert_eq!(c.jti.len(), 36);
    assert_eq!(c.jti.as_bytes()[14], b'7');
    assert_eq!(c.exp, c.iat + 60);
    assert_eq!(c.nbf, c.iat);
    let other = issue_claims(&config(0, IggyExpiry::ExpireDuration(60), "", ""), 7);
    assert_ne!(c.jti, other.jti);
}

#[test]
fn issuing_succeeds_for_the_longest_lifetime_and_delay() {
    let c = issue_claims(&config(u32::MAX, IggyExpiry::ExpireDuration(u32::MAX), "", ""), 9);
    assert_eq!(c.exp, c.iat + u32::MAX as u64);
    assert_eq!(c.nbf, c.iat + u32::MAX as u64);
    assert_eq!(c.sub, "9");
    let c = issue_claims(&config(0, IggyExpiry::NeverExpire, "", ""), 9);
    assert_eq!(c.exp, c.iat + 1_000_000_000);
}

#[test]
fn secrets_are_normalised() {
    let c = normalize_secrets(config(0, IggyExpiry::NeverExpire, "", ""), "random".to_owned());
    assert_eq!((c.encoding_secret.as_str(), c.decoding_secret.as_str()), ("random", "random"));
    let c = normalize_secrets(config(0, IggyExpiry::NeverExpire, "", "dec"), "random".to_owned());
    assert_eq!((c.encoding_secret.as_str(), c.decoding_secret.as_str()), ("dec", "dec"));
    let c = normalize_secrets(config(0, IggyExpiry::NeverExpire, "enc", ""), "random".to_owned());
    assert_eq!((c.encoding_secret.as_str(), c.decoding_secret.as_str()), ("enc", "enc"));
    let c = normalize_secrets(config(0, IggyExpiry::NeverExpire, "enc", "dec"), "random".to_owned());
    assert_eq!((c.encoding_secret.as_str(), c.decoding_secret.as_str()), ("enc", "dec"));
    assert_eq!(secrets_fill(&config(0, IggyExpiry::NeverExpire, "", "")), SecretsFill::GenerateShared);
}

#[test]
fn validation_enforces_not_before_with_the_configured_skew() {
    let v = validation_settings(&config(0, IggyExpiry::NeverExpire, "", ""));
    assert_eq!(v.valid_issuers, vec!["iggy.apache.org".to_owned()]);
    assert_eq!(v.valid_audiences, vec!["iggy.apache.org".to_owned()]);
    assert_eq!(v.leeway, 5);
    assert!(v.validate_nbf);
}

//! The claim set of HTTP bearer tokens: issue and expiry stamps, the subject,
//! the token id, and the normalisation of unconfigured signing secrets.

use vstd::prelude::*;

use crate::text::decimal;
use crate::text::decimal_string;

verus! {

/// Expiry stamp, in seconds after issue, of a non-expiring token: far enough
/// out to never trip `exp` validation, small enough to fit `u32`.
pub const NEVER_EXPIRE_SECS: u32 = 1_000_000_000;

/// The configured lifetime of an access token.
#[derive(Debug, Clone, Copy, PartialEq, Eq)]
pub enum IggyExpiry {
    NeverExpire,
    ServerDefault,
    /// A lifetime of this many seconds.
    ExpireDuration(u32),
}

/// The audience claim: one audience or several.
#[derive(Debug, PartialEq, Eq)]
pub enum Audience {
    Single(String),
    Multiple(Vec<String>),
}

/// The registered claims of an access token.
#[derive(Debug, PartialEq, Eq)]
pub struct JwtClaims {
    pub jti: String,
    pub iss: String,
    pub aud: Audience,
    pub sub: String,
    pub iat: u64,
    pub exp: u64,
    pub nbf: u64,
}

/// An issued access token.
#[derive(Debug, PartialEq, Eq)]
pub struct GeneratedToken {
    pub user_id: u32,
    pub access_token: String,
    pub access_token_expiry: u64,
}

/// The `[http.jwt]` settings that shape the claims and the secrets.
pub struct HttpJwtConfig {
    pub algorithm: String,
    pub issuer: String,
    pub audience: String,
    pub valid_issuers: Vec<String>,
    pub valid_audiences: Vec<String>,
    pub access_token_expiry: IggyExpiry,
    /// Seconds of clock skew tolerated when validating.
    pub clock_skew: u32,
    /// Seconds after issue before which a token is not yet valid.
    pub not_before: u32,
    pub encoding_secret: String,
    pub decoding_secret: String,
}

/// Seconds after issue at which a token with this lifetime expires; a
/// server-default lifetime stamps `0`.
pub open spec fn spec_expiry_secs(expiry: IggyExpiry) -> u32 {
    match expiry {
        IggyExpiry::NeverExpire => NEVER_EXPIRE_SECS,
        IggyExpiry::ServerDefault => 0,
        IggyExpiry::ExpireDuration(secs) => secs,
    }
}

pub fn expiry_secs(expiry: IggyExpiry) -> (s: u32)
    ensures
        s == spec_expiry_secs(expiry),
{
    match expiry {
        IggyExpiry::NeverExpire => NEVER_EXPIRE_SECS,
        IggyExpiry::ServerDefault => 0,
        IggyExpiry::ExpireDuration(secs) => secs,
    }
}

/// Whether `s` has the shape of a hyphenated UUID: 36 characters, hyphens
/// at positions 8, 13, 18 and 23 and lower-case hexadecimal digits elsewhere.
pub open spec fn is_hyphenated_uuid(s: Seq<char>) -> bool {
    &&& s.len() == 36
    &&& forall|i: int|
        0 <= i < 36 ==> if i == 8 || i == 13 || i == 18 || i == 23 {
            #[trigger] s[i] == '-'
        } else {
            ('0' <= s[i] && s[i] <= '9') || ('a' <= s[i] && s[i] <= 'f')
        }
}

/// `uuid::Uuid::now_v7()` in its `to_string` (hyphenated, lower-case) form: a
/// fresh time-ordered token id. Its value depends on the clock and on
/// randomness; only its shape is stated: the hyphenated form, version digit
/// `7`, and an RFC variant digit (`8`, `9`, `a` or `b`).
#[verifier::external_body]
fn new_token_id() -> (id: String)
    ensures
        is_hyphenated_uuid(id@),
        id@[14] == '7',
        id@[19] == '8' || id@[19] == '9' || id@[19] == 'a' || id@[19] == 'b',
{
    uuid::Uuid::now_v7().to_string()
}

/// `c` holds the claims for `user_id` issued at `iat` under `config`.
pub open spec fn claims_for(c: JwtClaims, config: HttpJwtConfig, user_id: u32, iat: u64) -> bool {
    &&& c.sub@ == decimal(user_id as nat)
    &&& c.iss@ == config.issuer@
    &&& c.aud matches Audience::Single(a) && a@ == config.audience@
    &&& c.iat == iat
    &&& c.exp == iat + spec_expiry_secs(config.access_token_expiry)
    &&& c.nbf == iat + config.not_before
}

/// Whether stamps issued at `iat` fit in `u64`.
pub open spec fn stamps_fit(config: HttpJwtConfig, iat: u64) -> bool {
    iat + spec_expiry_secs(config.access_token_expiry) <= u64::MAX && iat + config.not_before <= u64::MAX
}

/// The claims for `user_id` issued at `iat` with token id `jti`: subject the
/// decimal user id, the configured issuer and single audience, expiry and
/// not-before stamps offset from `iat` by the configured lifetime and delay.
pub fn claims_at(config: &HttpJwtConfig, user_id: u32, iat: u64, jti: String) -> (c: JwtClaims)
    requires
        stamps_fit(*config, iat),
    ensures
        claims_for(c, *config, user_id, iat),
        c.jti == jti,
{
    let exp = iat + expiry_secs(config.access_token_expiry) as u64;
    let nbf = iat + config.not_before as u64;
    JwtClaims {
        jti,
        sub: decimal_string(user_id as u64),
        aud: Audience::Single(config.audience.clone()),
        iss: config.issuer.clone(),
        iat,
        exp,
        nbf,
    }
}

/// The claims of a fresh access token for `user_id`, stamped with the
/// current time in whole seconds and a fresh time-ordered token id. Seconds
/// since the epoch read off a `u64` microsecond clock leave room for any
/// `u32` lifetime and delay, so issuing always succeeds.
pub fn issue_claims(config: &HttpJwtConfig, user_id: u32) -> (c: JwtClaims)
    ensures
        claims_for(c, *config, user_id, c.iat),
        c.iat <= u64::MAX / 1_000_000,
        is_hyphenated_uuid(c.jti@),
        c.jti@[14] == '7',
{
    let iat = crate::clock::now_micros() / 1_000_000;
    let jti = new_token_id();
    claims_at(config, user_id, iat, jti)
}

/// How an unconfigured secret is filled in.
#[derive(Debug, Clone, Copy, PartialEq, Eq)]
pub enum SecretsFill {
    /// Both secrets empty: one random ephemeral secret for both.
    GenerateShared,
    /// Only the encoding secret empty: use the decoding secret for both.
    MirrorDecoding,
    /// Only the decoding secret empty: use the encoding secret for both.
    MirrorEncoding,
    /// Both set: keep them.
    Keep,
}

pub open spec fn spec_secrets_fill(encoding: Seq<char>, decoding: Seq<char>) -> SecretsFill {
    if encoding.len() == 0 && decoding.len() == 0 {
        SecretsFill::GenerateShared
    } else if encoding.len() == 0 {
        SecretsFill::MirrorDecoding
    } else if decoding.len() == 0 {
        SecretsFill::MirrorEncoding
    } else {
        SecretsFill::Keep
    }
}

/// How the secrets of `config` are filled in.
pub fn secrets_fill(config: &HttpJwtConfig) -> (f: SecretsFill)
    ensures
        f == spec_secrets_fill(config.encoding_secret@, config.decoding_secret@),
{
    match (config.encoding_secret.as_str().is_empty(), config.decoding_secret.as_str().is_empty()) {
        (true, true) => SecretsFill::GenerateShared,
        (true, false) => SecretsFill::MirrorDecoding,
        (false, true) => SecretsFill::MirrorEncoding,
        (false, false) => SecretsFill::Keep,
    }
}

/// The secrets after normalisation, given the random secret to use when
/// both are unconfigured.
pub open spec fn normalized_secrets(encoding: Seq<char>, decoding: Seq<char>, generated: Seq<char>) -> (Seq<char>, Seq<char>) {
    match spec_secrets_fill(encoding, decoding) {
        SecretsFill::GenerateShared => (generated, generated),
        SecretsFill::MirrorDecoding => (decoding, decoding),
        SecretsFill::MirrorEncoding => (encoding, encoding),
        SecretsFill::Keep => (encoding, decoding),
    }
}

/// Fills in unconfigured secrets the way the legacy HTTP server does: both
/// empty takes the random secret `generated` for both; one empty mirrors the
/// other; both set are kept. Every other setting is left as it is.
pub fn normalize_secrets(config: HttpJwtConfig, generated: String) -> (c: HttpJwtConfig)
    ensures
        (c.encoding_secret@, c.decoding_secret@) == normalized_secrets(
            config.encoding_secret@,
            config.decoding_secret@,
            generated@,
        ),
        c.algorithm == config.algorithm,
        c.issuer == config.issuer,
        c.audience == config.audience,
        c.valid_issuers == config.valid_issuers,
        c.valid_audiences == config.valid_audiences,
        c.access_token_expiry == config.access_token_expiry,
        c.clock_skew == config.clock_skew,
        c.not_before == config.not_before,
{
    let mut config = config;
    match secrets_fill(&config) {
        SecretsFill::GenerateShared => {
            config.encoding_secret = generated.clone();
            config.decoding_secret = generated;
        },
        SecretsFill::MirrorDecoding => {
            config.encoding_secret = config.decoding_secret.clone();
        },
        SecretsFill::MirrorEncoding => {
            config.decoding_secret = config.encoding_secret.clone();
        },
        SecretsFill::Keep => {},
    }
    config
}

/// `a` and `b` hold the same texts, in order.
pub open spec fn same_strings(a: Seq<String>, b: Seq<String>) -> bool {
    a.len() == b.len() && forall|i: int| 0 <= i < a.len() ==> #[trigger] a[i]@ == b[i]@
}

/// What token validation checks: the accepted issuers and audiences, the
/// clock skew tolerated, and whether the not-before stamp is enforced.
pub struct ValidationSettings {
    pub valid_issuers: Vec<String>,
    pub valid_audiences: Vec<String>,
    /// Seconds of clock skew tolerated on `exp` and `nbf`.
    pub leeway: u64,
    pub validate_nbf: bool,
}

/// The validation of tokens under `config`: its valid issuers and audiences,
/// its clock skew as the leeway, and the not-before stamp always enforced,
/// since every issued token carries one.
pub fn validation_settings(config: &HttpJwtConfig) -> (v: ValidationSettings)
    ensures
        same_strings(v.valid_issuers@, config.valid_issuers@),
        same_strings(v.valid_audiences@, config.valid_audiences@),
        v.leeway == config.clock_skew as u64,
        v.validate_nbf,
{
    let mut valid_issuers: Vec<String> = Vec::new();
    let mut i: usize = 0;
    while i < config.valid_issuers.len()
        invariant
            i <= config.valid_issuers@.len(),
            same_strings(valid_issuers@, config.valid_issuers@.take(i as int)),
        decreases config.valid_issuers@.len() - i,
    {
        valid_issuers.push(config.valid_issuers[i].as_str().to_string());
        i += 1;
        assert forall|k: int| 0 <= k < i implies #[trigger] valid_issuers@[k]@ == config.valid_issuers@.take(
            i as int,
        )[k]@ by {
            if k < i - 1 {
                assert(config.valid_issuers@.take(i as int)[k] == config.valid_issuers@.take(i - 1)[k]);
            }
        }
    }
    assert(config.valid_issuers@.take(i as int) =~= config.valid_issuers@);
    let mut valid_audiences: Vec<String> = Vec::new();
    let mut j: usize = 0;
    while j < config.valid_audiences.len()
        invariant
            j <= config.valid_audiences@.len(),
            same_strings(valid_audiences@, config.valid_audiences@.take(j as int)),
        decreases config.valid_audiences@.len() - j,
    {
        valid_audiences.push(config.valid_audiences[j].as_str().to_string());
        j += 1;
        assert forall|k: int| 0 <= k < j implies #[trigger] valid_audiences@[k]@
            == config.valid_audiences@.take(j as int)[k]@ by {
            if k < j - 1 {
                assert(config.valid_audiences@.take(j as int)[k] == config.valid_audiences@.take(j - 1)[k]);
            }
        }
    }
    assert(config.valid_audiences@.take(j as int) =~= config.valid_audiences@);
    ValidationSettings { valid_issuers, valid_audiences, leeway: config.clock_skew as u64, validate_nbf: true }
}

/// After normalisation both secrets are set whenever the random secret is,
/// and, unless two different secrets were configured, they are the same.
pub proof fn law_normalized_secrets_usable(encoding: Seq<char>, decoding: Seq<char>, generated: Seq<char>)
    requires
        generated.len() > 0,
    ensures
        normalized_secrets(encoding, decoding, generated).0.len() > 0,
        normalized_secrets(encoding, decoding, generated).1.len() > 0,
        (encoding.len() == 0 || decoding.len() == 0 || encoding == decoding) ==> normalized_secrets(
            encoding,
            decoding,
            generated,
        ).0 == normalized_secrets(encoding, decoding, generated).1,
{
}

/// A token's lifetime in seconds: a configured duration is used as it is,
/// a server-default lifetime stamps `exp == iat`, and a never-expiring token
/// gets one billion seconds, far enough out never to trip validation and
/// small enough for `u32`.
pub proof fn law_expiry_seconds(expiry: IggyExpiry)
    ensures
        expiry matches IggyExpiry::ExpireDuration(secs) ==> spec_expiry_secs(expiry) == secs,
        expiry is ServerDefault ==> spec_expiry_secs(expiry) == 0,
        expiry is NeverExpire ==> spec_expiry_secs(expiry) == 1_000_000_000,
{
}

/// Issued claims stamp the subject as the user id in decimal, the issuer
/// and the single audience from the config, expiry `iat + lifetime` and
/// not-before `iat + delay`.
pub proof fn law_claims_carry_config(c: JwtClaims, config: HttpJwtConfig, user_id: u32, iat: u64)
    requires
        claims_for(c, config, user_id, iat),
    ensures
        crate::text::parse_u32(c.sub@) == Some(user_id),
        c.iss@ == config.issuer@,
        c.aud matches Audience::Single(a) && a@ == config.audience@,
        c.exp >= c.iat && c.nbf >= c.iat,
        c.exp - c.iat == spec_expiry_secs(config.access_token_expiry),
        c.nbf - c.iat == config.not_before,
{
    crate::text::lemma_parse_decimal(user_id as nat, u32::MAX as nat);
}

} // verus!

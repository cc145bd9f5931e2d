//! Credential verification: password logins and personal access tokens
//! checked against the user directory, the bearer header of protected HTTP
//! routes, and the session key each credential maps to.

use argon2::PasswordVerifier;
use vstd::prelude::*;

use crate::http_error::IggyError;
use crate::http_error::IggyErrorKind;
use crate::jwt::claims_for;
use crate::jwt::HttpJwtConfig;
use crate::jwt::JwtClaims;
use crate::text::parse_u32;
use crate::text::str_equals;

verus! {

/// Whether an account may authenticate.
#[derive(Debug, Clone, Copy, PartialEq, Eq, Structural)]
pub enum UserStatus {
    Active,
    Inactive,
}

/// An account of the user directory.
pub struct User {
    pub id: u32,
    pub username: String,
    /// The PHC-format password hash.
    pub password_hash: String,
    pub status: UserStatus,
}

/// A personal access token of the user directory.
pub struct PersonalAccessToken {
    pub user_id: u32,
    pub name: String,
    /// Microseconds since the Unix epoch at which the token expires; `None`
    /// never expires.
    pub expiry_at: Option<u64>,
}

/// The user directory as credential checks read it.
pub struct Users {
    /// Username to user id.
    pub index: Vec<(String, u32)>,
    /// Accounts by user id (`items[id]`); `None` is a vacant slot.
    pub items: Vec<Option<User>>,
    /// Token hash to the owning user id and the token's name.
    pub personal_access_token_index: Vec<(String, u32, String)>,
    /// Tokens, each under its owner's id and its name.
    pub personal_access_tokens: Vec<PersonalAccessToken>,
}

/// Why a login or a token was refused.
#[derive(Debug, PartialEq, Eq)]
pub enum LoginRegisterError {
    InvalidCredentials,
    InvalidToken,
    UserInactive,
    /// The cluster could not commit the session right now: the error the
    /// `Register` submit failed with.
    Transient(IggyError),
    /// The session table refused the login.
    Session,
}

impl LoginRegisterError {
    /// Whether the failure is final for this attempt (a fast empty reply)
    /// rather than a transient consensus failure the client replays.
    pub fn is_terminal(&self) -> (b: bool)
        ensures
            b == !(*self is Transient),
    {
        match self {
            LoginRegisterError::Transient(_) => false,
            _ => true,
        }
    }
}

/// The reply to a failed login/register.
#[derive(Debug, Clone, Copy, PartialEq, Eq)]
pub enum LoginFailureReply {
    /// An empty reply: fails the client's decode fast instead of hanging.
    Empty,
    /// A `TransientNotCommitted` result frame: the client replays at once.
    TransientNotCommitted,
}

/// Terminal failures get an empty reply; a transient consensus failure gets
/// the `TransientNotCommitted` frame so the client replays immediately.
pub fn login_failure_reply(error: &LoginRegisterError) -> (r: LoginFailureReply)
    ensures
        r == (if *error is Transient {
            LoginFailureReply::TransientNotCommitted
        } else {
            LoginFailureReply::Empty
        }),
{
    if error.is_terminal() {
        LoginFailureReply::Empty
    } else {
        LoginFailureReply::TransientNotCommitted
    }
}

/// Length bounds, in bytes, that a login's username and password must meet.
pub struct CredentialLimits {
    pub min_username_length: usize,
    pub max_username_length: usize,
    pub min_password_length: usize,
    pub max_password_length: usize,
}

// ---------------------------------------------------------------------------
// Directory lookups
// ---------------------------------------------------------------------------

/// The user id of the first index entry for `username`.
pub open spec fn index_lookup(index: Seq<(String, u32)>, username: Seq<char>) -> Option<u32>
    decreases index.len(),
{
    if index.len() == 0 {
        None
    } else if index[0].0@ == username {
        Some(index[0].1)
    } else {
        index_lookup(index.drop_first(), username)
    }
}

/// The account in slot `id`, if it is occupied.
pub open spec fn user_at(items: Seq<Option<User>>, id: u32) -> Option<User> {
    if id < items.len() {
        items[id as int]
    } else {
        None
    }
}

/// The owner and name of the first token-index entry for `token_hash`.
pub open spec fn token_index_lookup(index: Seq<(String, u32, String)>, token_hash: Seq<char>) -> Option<
    (u32, Seq<char>),
>
    decreases index.len(),
{
    if index.len() == 0 {
        None
    } else if index[0].0@ == token_hash {
        Some((index[0].1, index[0].2@))
    } else {
        token_index_lookup(index.drop_first(), token_hash)
    }
}

/// The first token of `user_id` named `name`.
pub open spec fn token_lookup(tokens: Seq<PersonalAccessToken>, user_id: u32, name: Seq<char>) -> Option<
    PersonalAccessToken,
>
    decreases tokens.len(),
{
    if tokens.len() == 0 {
        None
    } else if tokens[0].user_id == user_id && tokens[0].name@ == name {
        Some(tokens[0])
    } else {
        token_lookup(tokens.drop_first(), user_id, name)
    }
}

/// No username occurs twice in the index, as in the directory's map.
pub open spec fn usernames_unique(index: Seq<(String, u32)>) -> bool {
    forall|i: int, j: int| 0 <= i < j < index.len() ==> #[trigger] index[i].0@ != #[trigger] index[j].0@
}

/// No token hash occurs twice in the token index, as in the directory's map.
pub open spec fn token_hashes_unique(index: Seq<(String, u32, String)>) -> bool {
    forall|i: int, j: int| 0 <= i < j < index.len() ==> #[trigger] index[i].0@ != #[trigger] index[j].0@
}

/// No user holds two tokens of one name, as in the directory's per-user map.
pub open spec fn token_names_unique(tokens: Seq<PersonalAccessToken>) -> bool {
    forall|i: int, j: int|
        0 <= i < j < tokens.len() ==> !(#[trigger] tokens[i].user_id == #[trigger] tokens[j].user_id
            && tokens[i].name@ == tokens[j].name@)
}

impl Users {
    /// The keys of the directory's maps each occur once.
    pub open spec fn keys_unique(self) -> bool {
        &&& usernames_unique(self.index@)
        &&& token_hashes_unique(self.personal_access_token_index@)
        &&& token_names_unique(self.personal_access_tokens@)
    }
}

/// With unique usernames, looking up the name of any entry gives that
/// entry's id, whatever the order of the index.
pub proof fn law_unique_username_lookup(index: Seq<(String, u32)>, i: int)
    requires
        usernames_unique(index),
        0 <= i < index.len(),
    ensures
        index_lookup(index, index[i].0@) == Some(index[i].1),
    decreases i,
{
    if i > 0 {
        let rest = index.drop_first();
        assert(index[0].0@ != index[i].0@);
        assert forall|a: int, b: int| 0 <= a < b < rest.len() implies #[trigger] rest[a].0@ != #[trigger] rest[b].0@ by {
            assert(rest[a] == index[a + 1] && rest[b] == index[b + 1]);
        }
        law_unique_username_lookup(rest, i - 1);
    }
}

/// With unique token hashes, looking up the hash of any entry gives that
/// entry's owner and token name.
pub proof fn law_unique_token_hash_lookup(index: Seq<(String, u32, String)>, i: int)
    requires
        token_hashes_unique(index),
        0 <= i < index.len(),
    ensures
        token_index_lookup(index, index[i].0@) == Some((index[i].1, index[i].2@)),
    decreases i,
{
    if i > 0 {
        let rest = index.drop_first();
        assert(index[0].0@ != index[i].0@);
        assert forall|a: int, b: int| 0 <= a < b < rest.len() implies #[trigger] rest[a].0@ != #[trigger] rest[b].0@ by {
            assert(rest[a] == index[a + 1] && rest[b] == index[b + 1]);
        }
        law_unique_token_hash_lookup(rest, i - 1);
    }
}

/// With unique token names per user, looking up any token by its owner and
/// name gives that token.
pub proof fn law_unique_token_lookup(tokens: Seq<PersonalAccessToken>, i: int)
    requires
        token_names_unique(tokens),
        0 <= i < tokens.len(),
    ensures
        token_lookup(tokens, tokens[i].user_id, tokens[i].name@) == Some(tokens[i]),
    decreases i,
{
    if i > 0 {
        let rest = tokens.drop_first();
        assert(!(tokens[0].user_id == tokens[i].user_id && tokens[0].name@ == tokens[i].name@));
        assert forall|a: int, b: int| 0 <= a < b < rest.len() implies !(#[trigger] rest[a].user_id
            == #[trigger] rest[b].user_id && rest[a].name@ == rest[b].name@) by {
            assert(rest[a] == tokens[a + 1] && rest[b] == tokens[b + 1]);
        }
        law_unique_token_lookup(rest, i - 1);
    }
}

fn find_user_id(index: &Vec<(String, u32)>, username: &str) -> (r: Option<u32>)
    ensures
        r == index_lookup(index@, username@),
{
    let mut i: usize = 0;
    assert(index@.skip(0) =~= index@);
    while i < index.len()
        invariant
            i <= index@.len(),
            index_lookup(index@, username@) == index_lookup(index@.skip(i as int), username@),
        decreases index@.len() - i,
    {
        proof {
            assert(index@.skip(i as int)[0] == index@[i as int]);
            assert(index@.skip(i as int).drop_first() =~= index@.skip(i + 1));
        }
        if str_equals(index[i].0.as_str(), username) {
            return Some(index[i].1);
        }
        i += 1;
    }
    proof {
        assert(index@.skip(i as int) =~= Seq::<(String, u32)>::empty());
    }
    None
}

fn find_user(items: &Vec<Option<User>>, id: u32) -> (r: Option<&User>)
    ensures
        r matches Some(u) ==> user_at(items@, id) == Some(*u),
        r is None ==> user_at(items@, id) is None,
{
    if (id as usize) < items.len() {
        match &items[id as usize] {
            Some(user) => Some(user),
            None => None,
        }
    } else {
        None
    }
}

fn find_token_owner<'a>(index: &'a Vec<(String, u32, String)>, token_hash: &str) -> (r: Option<(u32, &'a String)>)
    ensures
        r matches Some(e) ==> token_index_lookup(index@, token_hash@) == Some((e.0, e.1@)),
        r is None ==> token_index_lookup(index@, token_hash@) is None,
{
    let mut i: usize = 0;
    assert(index@.skip(0) =~= index@);
    while i < index.len()
        invariant
            i <= index@.len(),
            token_index_lookup(index@, token_hash@) == token_index_lookup(index@.skip(i as int), token_hash@),
        decreases index@.len() - i,
    {
        proof {
            assert(index@.skip(i as int)[0] == index@[i as int]);
            assert(index@.skip(i as int).drop_first() =~= index@.skip(i + 1));
        }
        if str_equals(index[i].0.as_str(), token_hash) {
            return Some((index[i].1, &index[i].2));
        }
        i += 1;
    }
    proof {
        assert(index@.skip(i as int) =~= Seq::<(String, u32, String)>::empty());
    }
    None
}

fn find_token<'a>(tokens: &'a Vec<PersonalAccessToken>, user_id: u32, name: &str) -> (r: Option<
    &'a PersonalAccessToken,
>)
    ensures
        r matches Some(t) ==> token_lookup(tokens@, user_id, name@) == Some(*t),
        r is None ==> token_lookup(tokens@, user_id, name@) is None,
{
    let mut i: usize = 0;
    assert(tokens@.skip(0) =~= tokens@);
    while i < tokens.len()
        invariant
            i <= tokens@.len(),
            token_lookup(tokens@, user_id, name@) == token_lookup(tokens@.skip(i as int), user_id, name@),
        decreases tokens@.len() - i,
    {
        proof {
            assert(tokens@.skip(i as int)[0] == tokens@[i as int]);
            assert(tokens@.skip(i as int).drop_first() =~= tokens@.skip(i + 1));
        }
        if tokens[i].user_id == user_id && str_equals(tokens[i].name.as_str(), name) {
            return Some(&tokens[i]);
        }
        i += 1;
    }
    proof {
        assert(tokens@.skip(i as int) =~= Seq::<PersonalAccessToken>::empty());
    }
    None
}

// ---------------------------------------------------------------------------
// Password logins
// ---------------------------------------------------------------------------

/// Whether `password` verifies against the PHC-format hash `hash`.
pub uninterp spec fn password_matches(password: Seq<char>, hash: Seq<char>) -> bool;

/// Argon2 verification of `password` against the PHC string `hash`
/// (`argon2::Argon2::default().verify_password`, the parameters, salt and
/// expected output coming from the hash): `true` exactly when the hash
/// parses and the recomputed output matches. That outcome depends on the
/// two strings alone and is named `password_matches`.
#[verifier::external_body]
fn verify_password(password: &str, hash: &str) -> (b: bool)
    ensures
        b == password_matches(password@, hash@),
{
    match argon2::PasswordHash::new(hash) {
        Ok(parsed) => argon2::Argon2::default().verify_password(password.as_bytes(), &parsed).is_ok(),
        Err(_) => false,
    }
}

pub open spec fn within(n: nat, min: usize, max: usize) -> bool {
    min <= n && n <= max
}

/// The account a login names: the one the index gives for `username`, when
/// that slot is occupied.
pub open spec fn login_account(users: Users, username: Seq<char>) -> Option<User> {
    match index_lookup(users.index@, username) {
        Some(id) => user_at(users.items@, id),
        None => None,
    }
}

/// The hash a login with in-bounds lengths verifies the password against:
/// the named account's own hash, or `dummy_hash` for an unknown username, so
/// both paths run the same single verification.
pub open spec fn spec_login_hash(users: Users, dummy_hash: Seq<char>, username: Seq<char>) -> Seq<char> {
    match login_account(users, username) {
        Some(user) => user.password_hash@,
        None => dummy_hash,
    }
}

/// The decision of a login with in-bounds lengths, given whether the password
/// verified against the login hash: the account's id when the account exists,
/// the password verified and the account is active; `InvalidCredentials`
/// otherwise, an unknown username included whatever its verification gave.
pub open spec fn spec_login_decision(users: Users, username: Seq<char>, verified: bool) -> Result<u32, LoginRegisterError> {
    match login_account(users, username) {
        Some(user) => if verified && user.status == UserStatus::Active {
            Ok(user.id)
        } else {
            Err(LoginRegisterError::InvalidCredentials)
        },
        None => Err(LoginRegisterError::InvalidCredentials),
    }
}

pub open spec fn lengths_within(limits: CredentialLimits, username: &str, password: &str) -> bool {
    within(username.len() as nat, limits.min_username_length, limits.max_username_length)
        && within(password.len() as nat, limits.min_password_length, limits.max_password_length)
}

/// The outcome of a password login: lengths out of bounds are
/// `InvalidCredentials` before any lookup or hashing; otherwise the password
/// is verified against the login hash (the account's, or `dummy_hash` for an
/// unknown username) and the decision follows. Every failure is the same
/// `InvalidCredentials`, so a login never tells which check failed.
pub open spec fn spec_login(
    users: Users,
    limits: CredentialLimits,
    dummy_hash: Seq<char>,
    username: &str,
    password: &str,
) -> Result<u32, LoginRegisterError> {
    if !lengths_within(limits, username, password) {
        Err(LoginRegisterError::InvalidCredentials)
    } else {
        spec_login_decision(
            users,
            username@,
            password_matches(password@, spec_login_hash(users, dummy_hash, username@)),
        )
    }
}

/// The hash a login verifies the password against: the account's own hash,
/// or `dummy_hash` when the username names no account.
pub fn login_verification_hash<'a>(users: &'a Users, dummy_hash: &'a str, username: &str) -> (h: &'a str)
    ensures
        h@ == spec_login_hash(*users, dummy_hash@, username@),
{
    let user = match find_user_id(&users.index, username) {
        Some(id) => find_user(&users.items, id),
        None => None,
    };
    match user {
        Some(user) => user.password_hash.as_str(),
        None => dummy_hash,
    }
}

/// The login decision once the password has been verified against the login
/// hash; the verification of an unknown username is discarded.
pub fn login_decision(users: &Users, username: &str, verified: bool) -> (r: Result<u32, LoginRegisterError>)
    ensures
        r == spec_login_decision(*users, username@, verified),
{
    let user = match find_user_id(&users.index, username) {
        Some(id) => find_user(&users.items, id),
        None => None,
    };
    match user {
        None => Err(LoginRegisterError::InvalidCredentials),
        Some(user) => {
            if !verified || user.status != UserStatus::Active {
                Err(LoginRegisterError::InvalidCredentials)
            } else {
                Ok(user.id)
            }
        },
    }
}

/// Verifies a password login against the directory. Out-of-bounds lengths
/// are refused before any hashing; otherwise exactly one password
/// verification runs, against the account's hash or, for an unknown
/// username, against `dummy_hash`, so a missing username costs the same time
/// as a wrong password.
pub fn verify_login_credentials(
    users: &Users,
    limits: &CredentialLimits,
    dummy_hash: &str,
    username: &str,
    password: &str,
) -> (r: Result<u32, LoginRegisterError>)
    ensures
        r == spec_login(*users, *limits, dummy_hash@, username, password),
{
    let ulen = username.len();
    let plen = password.len();
    if !(limits.min_username_length <= ulen && ulen <= limits.max_username_length)
        || !(limits.min_password_length <= plen && plen <= limits.max_password_length) {
        return Err(LoginRegisterError::InvalidCredentials);
    }
    let hash = login_verification_hash(users, dummy_hash, username);
    let verified = verify_password(password, hash);
    login_decision(users, username, verified)
}

// ---------------------------------------------------------------------------
// Personal access tokens
// ---------------------------------------------------------------------------

/// Whether the token has expired at `now` (microseconds since the epoch).
pub open spec fn is_expired(token: PersonalAccessToken, now: u64) -> bool {
    token.expiry_at matches Some(expiry) && expiry <= now
}

/// The token's expiry in whole seconds since the epoch, `u64::MAX` for a
/// token that never expires.
pub open spec fn expiry_secs(token: PersonalAccessToken) -> u64 {
    match token.expiry_at {
        Some(expiry) => expiry / 1_000_000,
        None => u64::MAX,
    }
}

/// The outcome of presenting the token whose hash is `token_hash` at `now`:
/// an unknown, dangling or expired token is `InvalidToken`, the token of an
/// inactive account `UserInactive`, and otherwise the owner's id with the
/// token's expiry in seconds.
pub open spec fn spec_verify_token(users: Users, token_hash: Seq<char>, now: u64) -> Result<(u32, u64), LoginRegisterError> {
    match token_index_lookup(users.personal_access_token_index@, token_hash) {
        None => Err(LoginRegisterError::InvalidToken),
        Some((user_id, name)) => match token_lookup(users.personal_access_tokens@, user_id, name) {
            None => Err(LoginRegisterError::InvalidToken),
            Some(token) => if is_expired(token, now) {
                Err(LoginRegisterError::InvalidToken)
            } else {
                match user_at(users.items@, user_id) {
                    None => Err(LoginRegisterError::InvalidToken),
                    Some(user) => if user.status != UserStatus::Active {
                        Err(LoginRegisterError::UserInactive)
                    } else {
                        Ok((user.id, expiry_secs(token)))
                    },
                }
            },
        },
    }
}

/// Verifies the personal access token whose hash is `token_hash` at `now`
/// (microseconds since the epoch), giving the owner's id and the token's
/// expiry in seconds (`u64::MAX` when it never expires).
pub fn verify_pat_credentials_at(users: &Users, token_hash: &str, now: u64) -> (r: Result<(u32, u64), LoginRegisterError>)
    ensures
        r == spec_verify_token(*users, token_hash@, now),
{
    let (user_id, name) = match find_token_owner(&users.personal_access_token_index, token_hash) {
        Some(entry) => entry,
        None => return Err(LoginRegisterError::InvalidToken),
    };
    let token = match find_token(&users.personal_access_tokens, user_id, name.as_str()) {
        Some(t) => t,
        None => return Err(LoginRegisterError::InvalidToken),
    };
    let expired = match token.expiry_at {
        Some(expiry) => expiry <= now,
        None => false,
    };
    if expired {
        return Err(LoginRegisterError::InvalidToken);
    }
    let user = match find_user(&users.items, user_id) {
        Some(u) => u,
        None => return Err(LoginRegisterError::InvalidToken),
    };
    if user.status != UserStatus::Active {
        return Err(LoginRegisterError::UserInactive);
    }
    let expiry = match token.expiry_at {
        Some(expiry) => expiry / 1_000_000,
        None => u64::MAX,
    };
    Ok((user.id, expiry))
}

/// Verifies a personal access token now, giving the owner's id and the
/// token's expiry in seconds.
pub fn verify_pat_credentials_with_expiry(users: &Users, token_hash: &str) -> (r: Result<(u32, u64), LoginRegisterError>)
    ensures
        exists|now: u64| #[trigger] spec_verify_token(*users, token_hash@, now) == r,
{
    let now = crate::clock::now_micros();
    verify_pat_credentials_at(users, token_hash, now)
}

/// The owner's id alone from presenting the token whose hash is `token_hash`
/// at `now`: the full check with its expiry dropped.
pub open spec fn spec_verify_token_user(users: Users, token_hash: Seq<char>, now: u64) -> Result<u32, LoginRegisterError> {
    match spec_verify_token(users, token_hash, now) {
        Ok(v) => Ok(v.0),
        Err(e) => Err(e),
    }
}

/// Verifies the personal access token whose hash is `token_hash` at `now`,
/// giving the owner's id.
pub fn verify_pat_user_at(users: &Users, token_hash: &str, now: u64) -> (r: Result<u32, LoginRegisterError>)
    ensures
        r == spec_verify_token_user(*users, token_hash@, now),
{
    match verify_pat_credentials_at(users, token_hash, now) {
        Ok((user_id, _)) => Ok(user_id),
        Err(e) => Err(e),
    }
}

/// Verifies a personal access token now, giving the owner's id.
pub fn verify_pat_credentials(users: &Users, token_hash: &str) -> (r: Result<u32, LoginRegisterError>)
    ensures
        exists|now: u64| #[trigger] spec_verify_token_user(*users, token_hash@, now) == r,
{
    let now = crate::clock::now_micros();
    verify_pat_user_at(users, token_hash, now)
}

// ---------------------------------------------------------------------------
// Bearer credentials of HTTP requests
// ---------------------------------------------------------------------------

/// Scheme prefix of a bearer `Authorization` header.
pub const BEARER: &'static str = "Bearer ";

/// Session-key prefix of a JWT credential (its `jti` follows).
pub const JWT_KEY_PREFIX: &'static str = "jwt:";

/// Session-key prefix of a personal-access-token credential (its hash
/// follows). The two prefixes keep the key spaces disjoint.
pub const PAT_KEY_PREFIX: &'static str = "pat:";

/// The raw token of an `Authorization: Bearer <token>` header value, or
/// `AccessTokenMissing` when the header is absent, not visible ASCII (given
/// here as `None`), or not a bearer credential.
pub fn bearer_token(authorization: Option<&str>) -> (r: Result<&str, IggyErrorKind>)
    ensures
        match authorization {
            Some(h) => if h@.len() >= BEARER@.len() && h@.take(BEARER@.len() as int) == BEARER@ {
                r matches Ok(t) && t@ == h@.skip(BEARER@.len() as int)
            } else {
                r == Err::<&str, IggyErrorKind>(IggyErrorKind::AccessTokenMissing)
            },
            None => r == Err::<&str, IggyErrorKind>(IggyErrorKind::AccessTokenMissing),
        },
{
    match authorization {
        None => Err(IggyErrorKind::AccessTokenMissing),
        Some(h) => {
            let n = h.unicode_len();
            let p = BEARER.unicode_len();
            if n < p {
                return Err(IggyErrorKind::AccessTokenMissing);
            }
            let head = h.substring_char(0, p);
            if !str_equals(head, BEARER) {
                return Err(IggyErrorKind::AccessTokenMissing);
            }
            let token = h.substring_char(p, n);
            assert(token@ =~= h@.skip(BEARER@.len() as int));
            Ok(token)
        },
    }
}

/// The verified identity of a bearer credential: the key of its session
/// table entry, the user id, and the credential's expiry in seconds.
#[derive(Debug, PartialEq, Eq)]
pub struct Credential {
    pub key: String,
    pub user_id: u32,
    pub expiry: u64,
}

fn prefixed(prefix: &str, rest: &str) -> (s: String)
    ensures
        s@ == prefix@ + rest@,
{
    let mut s = prefix.to_owned();
    s.append(rest);
    s
}

/// The credential of a verified JWT whose subject is a user id: keyed by its
/// `jti`, expiring with its `exp`. `None` when the subject is not a `u32`,
/// in which case the bearer is tried as a personal access token.
pub fn credential_from_jwt(claims: &JwtClaims) -> (r: Option<Credential>)
    ensures
        match parse_u32(claims.sub@) {
            Some(user_id) => r matches Some(c) && c.key@ == JWT_KEY_PREFIX@ + claims.jti@ && c.user_id
                == user_id && c.expiry == claims.exp,
            None => r is None,
        },
{
    let sub = crate::text::chars_of(claims.sub.as_str());
    assert(sub@.subrange(0, sub@.len() as int) =~= sub@);
    match crate::text::parse_unsigned_range(&sub, 0, sub.len(), u32::MAX as u64) {
        Some(user_id) => Some(
            Credential {
                key: prefixed(JWT_KEY_PREFIX, claims.jti.as_str()),
                user_id: user_id as u32,
                expiry: claims.exp,
            },
        ),
        None => None,
    }
}

/// The credential of a bearer presented as a personal access token whose
/// hash is `token_hash`, from the token's verification: keyed by the hash,
/// so the raw secret never enters the table. Any refusal is
/// `Unauthenticated`.
pub fn credential_from_pat(verified: Result<(u32, u64), LoginRegisterError>, token_hash: &str) -> (r: Result<
    Credential,
    IggyErrorKind,
>)
    ensures
        match verified {
            Ok(v) => r matches Ok(c) && c.key@ == PAT_KEY_PREFIX@ + token_hash@ && c.user_id == v.0
                && c.expiry == v.1,
            Err(_) => r == Err::<Credential, IggyErrorKind>(IggyErrorKind::Unauthenticated),
        },
{
    match verified {
        Ok((user_id, expiry)) => Ok(Credential { key: prefixed(PAT_KEY_PREFIX, token_hash), user_id, expiry }),
        Err(_) => Err(IggyErrorKind::Unauthenticated),
    }
}

/// `r` is the credential keyed `key` for `user_id`, expiring at `expiry`.
pub open spec fn is_credential(r: Result<Credential, IggyErrorKind>, key: Seq<char>, user_id: u32, expiry: u64) -> bool {
    r matches Ok(c) && c.key@ == key && c.user_id == user_id && c.expiry == expiry
}

/// `r` is the credential of a bearer presented at `now`, given what
/// decoding it as a JWT gave (`None` when it is not a valid token) and the
/// hash of the bearer as a personal access token: a valid JWT whose subject
/// is a user id is keyed by its `jti`; anything else falls back to the
/// personal access token, keyed by its hash, and a refused token is
/// `Unauthenticated`.
pub open spec fn resolves_at(
    r: Result<Credential, IggyErrorKind>,
    decoded: Option<JwtClaims>,
    users: Users,
    token_hash: Seq<char>,
    now: u64,
) -> bool {
    if decoded matches Some(c) && parse_u32(c.sub@) is Some {
        is_credential(r, JWT_KEY_PREFIX@ + decoded->0.jti@, parse_u32(decoded->0.sub@)->0, decoded->0.exp)
    } else {
        match spec_verify_token(users, token_hash, now) {
            Ok(v) => is_credential(r, PAT_KEY_PREFIX@ + token_hash, v.0, v.1),
            Err(_) => r == Err::<Credential, IggyErrorKind>(IggyErrorKind::Unauthenticated),
        }
    }
}

/// The credential of a bearer presented at `now` (microseconds since the
/// epoch): the JWT first, the personal access token as the fallback.
pub fn resolve_credential_at(decoded: Option<JwtClaims>, users: &Users, token_hash: &str, now: u64) -> (r: Result<
    Credential,
    IggyErrorKind,
>)
    ensures
        resolves_at(r, decoded, *users, token_hash@, now),
{
    if let Some(claims) = &decoded {
        if let Some(credential) = credential_from_jwt(claims) {
            return Ok(credential);
        }
    }
    credential_from_pat(verify_pat_credentials_at(users, token_hash, now), token_hash)
}

/// The credential of a bearer presented now: the JWT first, the personal
/// access token, verified at the current time, as the fallback. A JWT
/// credential does not depend on the time at all.
pub fn resolve_credential(decoded: Option<JwtClaims>, users: &Users, token_hash: &str) -> (r: Result<
    Credential,
    IggyErrorKind,
>)
    ensures
        exists|now: u64| #[trigger] resolves_at(r, decoded, *users, token_hash@, now),
        decoded matches Some(c) && parse_u32(c.sub@) is Some ==> forall|now: u64|
            #[trigger] resolves_at(r, decoded, *users, token_hash@, now),
{
    if let Some(claims) = &decoded {
        if let Some(credential) = credential_from_jwt(claims) {
            assert(resolves_at(Ok::<Credential, IggyErrorKind>(credential), decoded, *users, token_hash@, 0));
            return Ok(credential);
        }
    }
    let now = crate::clock::now_micros();
    resolve_credential_at(decoded, users, token_hash, now)
}

/// Read-only caller identity of a protected read route: the authenticated
/// user id and the original request path and query (so a linearizable read
/// on a follower can build its redirect).
#[derive(Debug, PartialEq, Eq)]
pub struct Identity {
    pub user_id: u32,
    pub path_and_query: String,
}

// ---------------------------------------------------------------------------
// Laws
// ---------------------------------------------------------------------------

/// JWT and token credentials never share a session key.
pub proof fn law_credential_keys_disjoint(jti: Seq<char>, token_hash: Seq<char>)
    ensures
        JWT_KEY_PREFIX@ + jti != PAT_KEY_PREFIX@ + token_hash,
{
    reveal_strlit("jwt:");
    reveal_strlit("pat:");
    assert((JWT_KEY_PREFIX@ + jti)[0] == 'j');
    assert((PAT_KEY_PREFIX@ + token_hash)[0] == 'p');
}

/// A login that is refused for any reason is refused the same way, so the
/// outcome does not tell an unknown user, a wrong password, an out-of-bounds
/// length and an inactive account apart.
pub proof fn law_login_failures_indistinguishable(
    users: Users,
    limits: CredentialLimits,
    dummy_hash: Seq<char>,
    username: &str,
    password: &str,
)
    ensures
        spec_login(users, limits, dummy_hash, username, password) is Err ==> spec_login(
            users,
            limits,
            dummy_hash,
            username,
            password,
        ) == Err::<u32, LoginRegisterError>(LoginRegisterError::InvalidCredentials),
{
}

/// The login timing guard: a login with in-bounds lengths verifies against
/// exactly one hash, the named account's own or, for an unknown username,
/// the dummy hash; an unknown username is refused even when the password
/// verifies against the dummy hash, since that verification is discarded.
pub proof fn law_unknown_user_pays_one_dummy_verification(
    users: Users,
    limits: CredentialLimits,
    dummy_hash: Seq<char>,
    username: &str,
    password: &str,
)
    requires
        lengths_within(limits, username, password),
        login_account(users, username@) is None,
    ensures
        spec_login_hash(users, dummy_hash, username@) == dummy_hash,
        spec_login(users, limits, dummy_hash, username, password) == Err::<u32, LoginRegisterError>(
            LoginRegisterError::InvalidCredentials,
        ),
        spec_login_decision(users, username@, true) == spec_login_decision(users, username@, false),
{
}

/// A known account is verified against its own hash, and with a wrong
/// password or an inactive status it is refused exactly as an unknown
/// username is.
pub proof fn law_known_user_verifies_own_hash(
    users: Users,
    limits: CredentialLimits,
    dummy_hash: Seq<char>,
    username: &str,
    password: &str,
    unknown: &str,
)
    requires
        lengths_within(limits, username, password),
        lengths_within(limits, unknown, password),
        login_account(users, username@) matches Some(u) && (!password_matches(password@, u.password_hash@)
            || u.status != UserStatus::Active),
        login_account(users, unknown@) is None,
    ensures
        spec_login_hash(users, dummy_hash, username@) == login_account(users, username@)->0.password_hash@,
        spec_login(users, limits, dummy_hash, username, password) == spec_login(
            users,
            limits,
            dummy_hash,
            unknown,
            password,
        ),
{
}

/// At one time, the id-only token check is the full check with the expiry
/// dropped: the same id on success and the same refusal otherwise.
pub proof fn law_id_check_is_expiry_check_without_expiry(users: Users, token_hash: Seq<char>, now: u64)
    ensures
        spec_verify_token_user(users, token_hash, now) is Ok <==> spec_verify_token(users, token_hash, now) is Ok,
        spec_verify_token(users, token_hash, now) matches Ok(v) ==> spec_verify_token_user(users, token_hash, now)
            == Ok::<u32, LoginRegisterError>(v.0),
        spec_verify_token(users, token_hash, now) matches Err(e) ==> spec_verify_token_user(
            users,
            token_hash,
            now,
        ) == Err::<u32, LoginRegisterError>(e),
{
}

/// A token whose expiry has passed is refused at any later time too.
pub proof fn law_expired_token_stays_refused(users: Users, token_hash: Seq<char>, now: u64, later: u64)
    requires
        now <= later,
        token_index_lookup(users.personal_access_token_index@, token_hash) matches Some(e)
            && token_lookup(users.personal_access_tokens@, e.0, e.1) matches Some(t) && is_expired(t, now),
    ensures
        spec_verify_token(users, token_hash, later) == Err::<(u32, u64), LoginRegisterError>(
            LoginRegisterError::InvalidToken,
        ),
{
}

/// A token issued for a user resolves, as a bearer, to that same user: its
/// subject reads back as the user id.
pub proof fn law_issued_subject_resolves(c: JwtClaims, config: HttpJwtConfig, user_id: u32, iat: u64)
    requires
        claims_for(c, config, user_id, iat),
    ensures
        parse_u32(c.sub@) == Some(user_id),
{
    crate::text::lemma_parse_decimal(user_id as nat, u32::MAX as nat);
}

/// A verified token reports its expiry in whole seconds: `u64::MAX` for a
/// token that never expires, else its microsecond expiry divided by a
/// million; a token is refused from the microsecond its expiry is reached.
pub proof fn law_token_expiry_seconds(users: Users, token_hash: Seq<char>, now: u64)
    ensures
        spec_verify_token(users, token_hash, now) matches Ok(v) ==> {
            let e = token_index_lookup(users.personal_access_token_index@, token_hash)->0;
            let t = token_lookup(users.personal_access_tokens@, e.0, e.1)->0;
            &&& t.expiry_at is None ==> v.1 == u64::MAX
            &&& t.expiry_at matches Some(x) ==> v.1 == x / 1_000_000 && now < x
            &&& user_at(users.items@, e.0) matches Some(u) && u.status == UserStatus::Active && v.0 == u.id
        },
{
}

} // verus!

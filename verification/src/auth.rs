//! Credentials, claims and the token lifetime rule.
//!
//! Passwords are hashed and checked with `bcrypt`, tokens are signed and
//! read with `jsonwebtoken`. What these two compute is only named here; the
//! rules around them are verified: a token expires 24 hours after it was
//! issued, a login needs a known user and a password that matches the
//! stored hash, and every failure is `AuthFailed`.

use vstd::prelude::*;
use crate::database::User;
use crate::error::InspectionError;
use crate::text::{opt_text, owned};

verus! {

/// How long a token is valid, in seconds: 24 hours.
pub const TOKEN_LIFETIME_SECS: i64 = 86_400;

/// How long after its expiry a token is still accepted, in seconds.
pub const EXPIRY_LEEWAY_SECS: i64 = 60;

/// The role of a user who registers without naming one.
pub open spec fn default_role() -> Seq<char> {
    "inspector"@
}

#[verifier::external_type_specification]
#[verifier::external_body]
pub struct ExBcryptError(bcrypt::BcryptError);

#[verifier::external_type_specification]
#[verifier::external_body]
pub struct ExTokenError(jsonwebtoken::errors::Error);

/// What `bcrypt::verify` answers for a password and a stored hash: whether
/// they match, or `None` where it reports an error, as for a text that is no
/// bcrypt hash.
pub uninterp spec fn bcrypt_verifies(password: Seq<char>, hash: Seq<char>) -> Option<bool>;

/// The token that `jsonwebtoken::encode` gives for the four claims, signed
/// with the secret by its default algorithm, or `None` where it reports an error.
pub uninterp spec fn jwt_signed(
    secret: Seq<char>,
    user_id: i64,
    username: Seq<char>,
    role: Seq<char>,
    exp: i64,
) -> Option<Seq<char>>;

/// The claims `user_id`, `username`, `role` and `exp` that
/// `jsonwebtoken::decode` reads from a token whose signature fits the
/// secret, without regard to the time, each for itself: a claim is `None`
/// where the token does not hold it as a whole number or a string. The
/// whole is `None` where the token is rejected.
pub uninterp spec fn jwt_claims(secret: Seq<char>, token: Seq<char>) -> Option<
    (Option<i64>, Option<Seq<char>>, Option<Seq<char>>, Option<i64>),
>;

/// Calls `bcrypt::hash` with `bcrypt::DEFAULT_COST`. The salt is random, so
/// the hash is not determined by the password; what holds of every hash
/// returned is that `bcrypt::verify` accepts the password for it.
#[verifier::external_body]
pub(crate) fn bcrypt_hash(password: &str) -> (r: Result<String, bcrypt::BcryptError>)
    ensures
        r matches Ok(hash) ==> bcrypt_verifies(password@, hash@) == Some(true),
{
    bcrypt::hash(password, bcrypt::DEFAULT_COST)
}

/// Calls `bcrypt::verify`, whose answer depends on the two texts alone.
#[verifier::external_body]
pub(crate) fn bcrypt_check(password: &str, hash: &str) -> (r: Result<bool, bcrypt::BcryptError>)
    ensures
        match r {
            Ok(matches) => bcrypt_verifies(password@, hash@) == Some(matches),
            Err(_) => bcrypt_verifies(password@, hash@) is None,
        },
{
    bcrypt::verify(password, hash)
}

/// Calls `jsonwebtoken::encode` with the default header on a JSON object
/// that holds the four claims, and a key made from the secret.
#[verifier::external_body]
pub(crate) fn jwt_sign(secret: &str, user_id: i64, username: &str, role: &str, exp: i64) -> (r:
    Result<String, jsonwebtoken::errors::Error>)
    ensures
        match r {
            Ok(token) => jwt_signed(secret@, user_id, username@, role@, exp) == Some(token@),
            Err(_) => jwt_signed(secret@, user_id, username@, role@, exp) is None,
        },
{
    let mut claims = serde_json::Map::new();
    claims.insert("user_id".to_string(), serde_json::Value::from(user_id));
    claims.insert("username".to_string(), serde_json::Value::from(username));
    claims.insert("role".to_string(), serde_json::Value::from(role));
    claims.insert("exp".to_string(), serde_json::Value::from(exp));
    let key = jsonwebtoken::EncodingKey::from_secret(secret.as_bytes());
    jsonwebtoken::encode(&jsonwebtoken::Header::default(), &claims, &key)
}

/// Calls `jsonwebtoken::decode` with the default validation, but with the
/// check of the expiry against the system clock switched off, and hands out
/// each of the four claims as it was found. The answer then depends on the
/// secret and the token alone.
#[verifier::external_body]
pub(crate) fn jwt_read(secret: &str, token: &str) -> (r: Result<
    (Option<i64>, Option<String>, Option<String>, Option<i64>),
    jsonwebtoken::errors::Error,
>)
    ensures
        match r {
            Ok(c) => jwt_claims(secret@, token@) == Some(
                (c.0, opt_text(c.1), opt_text(c.2), c.3),
            ),
            Err(_) => jwt_claims(secret@, token@) is None,
        },
{
    let mut rules = jsonwebtoken::Validation::default();
    rules.validate_exp = false;
    let key = jsonwebtoken::DecodingKey::from_secret(secret.as_bytes());
    let c = jsonwebtoken::decode::<serde_json::Value>(token, &key, &rules)?.claims;
    Ok((
        c["user_id"].as_i64(),
        c["username"].as_str().map(str::to_string),
        c["role"].as_str().map(str::to_string),
        c["exp"].as_i64(),
    ))
}

/// What a token says of its bearer.
#[derive(Debug, Clone, PartialEq, Eq)]
pub struct Claims {
    pub user_id: i64,
    pub username: String,
    pub role: String,
    /// When the token expires.
    pub exp: i64,
}

/// What a user logs in with.
#[derive(Debug, Clone, PartialEq, Eq)]
pub struct LoginCredentials {
    pub username: String,
    pub password: String,
}

/// What a user registers with.
#[derive(Debug, Clone, PartialEq, Eq)]
pub struct RegisterRequest {
    pub username: String,
    pub email: Option<String>,
    pub password: String,
    pub full_name: Option<String>,
    pub role: Option<String>,
}

/// What a successful login or registration answers.
#[derive(Debug, Clone, PartialEq, Eq)]
pub struct AuthResponse {
    pub token: String,
    pub user: User,
    pub expires_at: i64,
}

/// The row to create for a registration.
#[derive(Debug, Clone, PartialEq, Eq)]
pub struct NewUser {
    pub username: String,
    pub email: Option<String>,
    pub password_hash: String,
    pub full_name: Option<String>,
    pub role: String,
}

/// Holds the signing secret used for issuing and checking tokens.
pub struct AuthManager {
    secret_key: String,
}

/// When a token issued at `now` expires.
pub open spec fn expiry_of(now: i64) -> int {
    now + TOKEN_LIFETIME_SECS
}

/// Whether a token that expires at `exp` is no longer accepted at `now`.
pub open spec fn is_expired(exp: i64, now: i64) -> bool {
    exp + EXPIRY_LEEWAY_SECS < now
}

/// When a token issued at `now` expires, where that time can be held.
pub fn token_expiry(now: i64) -> (r: Option<i64>)
    ensures
        r is Some <==> expiry_of(now) <= i64::MAX,
        r matches Some(exp) ==> exp == expiry_of(now),
{
    now.checked_add(TOKEN_LIFETIME_SECS)
}

/// Whether a token that expires at `exp` is no longer accepted at `now`.
pub fn token_expired(exp: i64, now: i64) -> (b: bool)
    ensures
        b == is_expired(exp, now),
{
    (exp as i128) + (EXPIRY_LEEWAY_SECS as i128) < (now as i128)
}

/// A token is accepted for its whole lifetime: from the time it was issued
/// until 24 hours later it has not expired.
pub proof fn lemma_token_valid_for_a_day(issued: i64, at: i64)
    requires
        expiry_of(issued) <= i64::MAX,
        issued <= at <= expiry_of(issued),
    ensures
        !is_expired(expiry_of(issued) as i64, at),
{
}

/// Once the leeway after the expiry has passed, a token stays expired.
pub proof fn lemma_expiry_is_final(exp: i64, earlier: i64, later: i64)
    requires
        is_expired(exp, earlier),
        earlier <= later,
    ensures
        is_expired(exp, later),
{
}

/// What the check of a password means: a match, a mismatch, or, where the
/// stored text is no hash, a failure.
pub fn password_verdict<E>(checked: Result<bool, E>) -> (r: Result<bool, InspectionError>)
    ensures
        match checked {
            Ok(matches) => r == Ok::<bool, InspectionError>(matches),
            Err(_) => r == Err::<bool, InspectionError>(InspectionError::AuthFailed),
        },
{
    match checked {
        Ok(matches) => Ok(matches),
        Err(_) => Err(InspectionError::AuthFailed),
    }
}

/// The claims that a token holds, where it holds all four.
pub open spec fn whole_claims(
    found: (Option<i64>, Option<Seq<char>>, Option<Seq<char>>, Option<i64>),
) -> Option<(i64, Seq<char>, Seq<char>, i64)> {
    match found {
        (Some(user_id), Some(username), Some(role), Some(exp)) => Some(
            (user_id, username, role, exp),
        ),
        _ => None,
    }
}

/// What was read from a token means at `now`: the claims, where the token
/// was not rejected, holds all four of them and has not expired; everything
/// else is `AuthFailed`.
pub fn accept_claims<E>(
    read: Result<(Option<i64>, Option<String>, Option<String>, Option<i64>), E>,
    now: i64,
) -> (r: Result<Claims, InspectionError>)
    ensures
        match read {
            Ok(c) => match whole_claims((c.0, opt_text(c.1), opt_text(c.2), c.3)) {
                Some(whole) if !is_expired(whole.3, now) => r matches Ok(claims) && claims.user_id
                    == whole.0 && claims.username@ == whole.1 && claims.role@ == whole.2
                    && claims.exp == whole.3,
                _ => r matches Err(e) && e == InspectionError::AuthFailed,
            },
            Err(_) => r matches Err(e) && e == InspectionError::AuthFailed,
        },
{
    match read {
        Ok((Some(user_id), Some(username), Some(role), Some(exp))) => {
            if token_expired(exp, now) {
                Err(InspectionError::AuthFailed)
            } else {
                Ok(Claims { user_id, username, role, exp })
            }
        },
        _ => Err(InspectionError::AuthFailed),
    }
}

/// Whether `row` is the row for `request`: name, email and full name are
/// those of the request, and the role is the one asked for or `inspector`.
pub open spec fn is_row_of(row: NewUser, request: RegisterRequest) -> bool {
    &&& row.username == request.username
    &&& row.email == request.email
    &&& row.full_name == request.full_name
    &&& row.role@ == match request.role {
        Some(role) => role@,
        None => default_role(),
    }
}

/// The row to create for a registration once the password was hashed. A
/// hash gives the row that holds it; a failed hashing gives `AuthFailed`.
pub fn registration_row(request: &RegisterRequest, hashed: Result<String, InspectionError>) -> (r:
    Result<NewUser, InspectionError>)
    ensures
        match hashed {
            Ok(hash) => r matches Ok(row) && row.password_hash == hash && is_row_of(row, *request),
            Err(_) => r == Err::<NewUser, InspectionError>(InspectionError::AuthFailed),
        },
{
    match hashed {
        Ok(password_hash) => {
            let role = match &request.role {
                Some(role) => role.clone(),
                None => owned("inspector"),
            };
            Ok(
                NewUser {
                    username: request.username.clone(),
                    email: request.email.clone(),
                    password_hash,
                    full_name: request.full_name.clone(),
                    role,
                },
            )
        },
        Err(_) => Err(InspectionError::AuthFailed),
    }
}

impl AuthManager {
    /// The secret this manager signs with.
    pub closed spec fn secret(&self) -> Seq<char> {
        self.secret_key@
    }

    pub fn new(secret_key: String) -> (manager: Self)
        ensures
            manager.secret() == secret_key@,
    {
        AuthManager { secret_key }
    }

    /// Hashes a password for storing. Every hash returned is one that
    /// [`AuthManager::verify_password`] accepts for the password.
    pub fn hash_password(&self, password: &str) -> (r: Result<String, InspectionError>)
        ensures
            match r {
                Ok(hash) => bcrypt_verifies(password@, hash@) == Some(true),
                Err(e) => e == InspectionError::AuthFailed,
            },
    {
        match bcrypt_hash(password) {
            Ok(hash) => Ok(hash),
            Err(_) => Err(InspectionError::AuthFailed),
        }
    }

    /// Checks a password against a stored hash.
    pub fn verify_password(&self, password: &str, hash: &str) -> (r: Result<bool, InspectionError>)
        ensures
            match bcrypt_verifies(password@, hash@) {
                Some(matches) => r == Ok::<bool, InspectionError>(matches),
                None => r == Err::<bool, InspectionError>(InspectionError::AuthFailed),
            },
    {
        password_verdict(bcrypt_check(password, hash))
    }

    /// Issues a token for a user at `now`; it expires 24 hours later.
    pub fn generate_token(&self, user: &User, now: i64) -> (r: Result<
        (String, i64),
        InspectionError,
    >)
        ensures
            match r {
                Ok((token, exp)) => exp == expiry_of(now) && jwt_signed(
                    self.secret(),
                    user.id,
                    user.username@,
                    user.role@,
                    exp,
                ) == Some(token@),
                Err(e) => e == InspectionError::AuthFailed && (expiry_of(now) > i64::MAX
                    || jwt_signed(
                    self.secret(),
                    user.id,
                    user.username@,
                    user.role@,
                    expiry_of(now) as i64,
                ) is None),
            },
    {
        let exp = match token_expiry(now) {
            Some(exp) => exp,
            None => { return Err(InspectionError::AuthFailed); },
        };
        match jwt_sign(
            self.secret_key.as_str(),
            user.id,
            user.username.as_str(),
            user.role.as_str(),
            exp,
        ) {
            Ok(token) => Ok((token, exp)),
            Err(_) => Err(InspectionError::AuthFailed),
        }
    }

    /// Reads the claims of a token at `now`: they are returned where the
    /// token was signed with this manager's secret, holds all four claims
    /// and has not expired.
    pub fn verify_token(&self, token: &str, now: i64) -> (r: Result<Claims, InspectionError>)
        ensures
            match jwt_claims(self.secret(), token@) {
                Some(found) => match whole_claims(found) {
                    Some(whole) if !is_expired(whole.3, now) => r matches Ok(claims)
                        && claims.user_id == whole.0 && claims.username@ == whole.1
                        && claims.role@ == whole.2 && claims.exp == whole.3,
                    _ => r matches Err(e) && e == InspectionError::AuthFailed,
                },
                None => r matches Err(e) && e == InspectionError::AuthFailed,
            },
    {
        accept_claims(jwt_read(self.secret_key.as_str(), token), now)
    }

    /// Logs a user in: `user` is the row found for the name in the
    /// credentials, `stored_hash` the hash kept for that user. The login
    /// succeeds where the user exists and bears the name in the credentials,
    /// the password matches the stored hash and a token can be issued; every
    /// other case is `AuthFailed`.
    pub fn authenticate(
        &self,
        user: Option<User>,
        stored_hash: &str,
        credentials: &LoginCredentials,
        now: i64,
    ) -> (r: Result<AuthResponse, InspectionError>)
        ensures
            match r {
                Ok(response) => user == Some(response.user) && response.user.username@
                    == credentials.username@ && bcrypt_verifies(
                    credentials.password@,
                    stored_hash@,
                ) == Some(true) && response.expires_at == expiry_of(now) && jwt_signed(
                    self.secret(),
                    response.user.id,
                    response.user.username@,
                    response.user.role@,
                    response.expires_at,
                ) == Some(response.token@),
                Err(e) => e == InspectionError::AuthFailed && (user is None
                    || user->0.username@ != credentials.username@ || bcrypt_verifies(
                    credentials.password@,
                    stored_hash@,
                ) != Some(true) || expiry_of(now) > i64::MAX || jwt_signed(
                    self.secret(),
                    user->0.id,
                    user->0.username@,
                    user->0.role@,
                    expiry_of(now) as i64,
                ) is None),
            },
    {
        let user = match user {
            Some(user) => user,
            None => { return Err(InspectionError::AuthFailed); },
        };
        if !crate::text::same_text(user.username.as_str(), credentials.username.as_str()) {
            return Err(InspectionError::AuthFailed);
        }
        match self.verify_password(credentials.password.as_str(), stored_hash) {
            Ok(true) => {},
            _ => { return Err(InspectionError::AuthFailed); },
        }
        match self.generate_token(&user, now) {
            Ok((token, expires_at)) => Ok(AuthResponse { token, user, expires_at }),
            Err(e) => Err(e),
        }
    }

    /// The row to create for a registration: the password is hashed and the
    /// row is made of the hash as [`registration_row`] says.
    pub fn prepare_registration(&self, request: &RegisterRequest) -> (r: Result<
        NewUser,
        InspectionError,
    >)
        ensures
            match r {
                Ok(row) => is_row_of(row, *request) && bcrypt_verifies(
                    request.password@,
                    row.password_hash@,
                ) == Some(true),
                Err(e) => e == InspectionError::AuthFailed,
            },
    {
        registration_row(request, self.hash_password(request.password.as_str()))
    }

    /// Completes a registration once the row was created: `created` is the
    /// row read back. Where it is missing, the store has failed.
    pub fn register(&self, created: Option<User>, now: i64) -> (r: Result<
        AuthResponse,
        InspectionError,
    >)
        ensures
            match r {
                Ok(response) => created == Some(response.user) && response.expires_at
                    == expiry_of(now) && jwt_signed(
                    self.secret(),
                    response.user.id,
                    response.user.username@,
                    response.user.role@,
                    response.expires_at,
                ) == Some(response.token@),
                Err(e) => if created is None {
                    e == InspectionError::PersistenceError
                } else {
                    e == InspectionError::AuthFailed && (expiry_of(now) > i64::MAX || jwt_signed(
                        self.secret(),
                        created->0.id,
                        created->0.username@,
                        created->0.role@,
                        expiry_of(now) as i64,
                    ) is None)
                },
            },
    {
        let user = match created {
            Some(user) => user,
            None => { return Err(InspectionError::PersistenceError); },
        };
        match self.generate_token(&user, now) {
            Ok((token, expires_at)) => Ok(AuthResponse { token, user, expires_at }),
            Err(e) => Err(e),
        }
    }
}

} // verus!

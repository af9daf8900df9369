//! Identities of panel users and the claims carried by their session tokens.
use argon2::password_hash::{PasswordHasher, PasswordVerifier};
use vstd::prelude::*;

use crate::error::AppError;
use crate::text::{owned, starts_with, str_eq, str_starts_with, string_of_range, chars_of};

verus! {

/// The `admin` role.
pub open spec fn is_admin_role(role: Seq<char>) -> bool {
    role == "admin"@
}

/// The `admin` or the `operator` role.
pub open spec fn is_operator_or_admin_role(role: Seq<char>) -> bool {
    role == "admin"@ || role == "operator"@
}

/// An authenticated panel user.
#[derive(Debug, Clone)]
pub struct Auth {
    pub user_id: String,
    pub username: String,
    pub role: String,
}

impl Auth {
    pub fn is_admin(&self) -> (r: bool)
        ensures
            r == is_admin_role(self.role@),
    {
        str_eq(self.role.as_str(), "admin")
    }

    pub fn is_operator_or_admin(&self) -> (r: bool)
        ensures
            r == is_operator_or_admin_role(self.role@),
    {
        str_eq(self.role.as_str(), "admin") || str_eq(self.role.as_str(), "operator")
    }
}

/// What a session token asserts: who the user is, and when the token was
/// issued and expires (Unix seconds).
#[derive(Debug, Clone)]
pub struct Claims {
    pub user_id: String,
    pub username: String,
    pub role: String,
    pub exp: i64,
    pub iat: i64,
}

/// Issues session tokens signed with a secret, valid for a number of hours.
#[derive(Clone)]
pub struct TokenManager {
    secret: String,
    expire_hours: u64,
}

/// The last second (Unix time) that a timestamp can stand for: the end of
/// the year 262142.
pub open spec fn max_timestamp() -> int {
    8_210_266_876_799
}

impl TokenManager {
    pub closed spec fn secret_view(&self) -> Seq<char> {
        self.secret@
    }

    pub closed spec fn expire_hours_view(&self) -> u64 {
        self.expire_hours
    }

    /// The token `generate` issues for the user at `now`: the claims of
    /// `claims_at`, signed with the secret.
    pub open spec fn issued_token(&self, user_id: Seq<char>, username: Seq<char>, role: Seq<char>, now: i64) -> Seq<
        char,
    > {
        jwt_of(user_id, username, role, (now + self.expire_hours_view() * 3600) as i64, now, self.secret_view())
    }

    pub fn new(secret: String, expire_hours: u64) -> (r: Self)
        ensures
            r.secret_view() == secret@,
            r.expire_hours_view() == expire_hours,
    {
        TokenManager { secret, expire_hours }
    }

    /// The signing secret.
    pub fn secret(&self) -> (r: &str)
        ensures
            r@ == self.secret_view(),
    {
        self.secret.as_str()
    }

    /// A session token for the user, issued at `now` (Unix seconds) and
    /// expiring `expire_hours` hours later, signed with the secret.
    pub fn generate(&self, user_id: String, username: String, role: String, now: i64) -> (r: Result<
        String,
        AppError,
    >)
        requires
            0 <= now,
            now + self.expire_hours_view() * 3600 <= max_timestamp(),
        ensures
            r matches Ok(t) ==> t@ == self.issued_token(user_id@, username@, role@, now),
            r is Ok,
    {
        let claims = self.claims_at(user_id, username, role, now);
        match jwt_encode(&claims, self.secret.as_str()) {
            Ok(t) => Ok(t),
            Err(_) => Err(AppError::InternalServerError(owned("Failed to generate token"))),
        }
    }

    /// The claims of a valid token signed with the secret; every failure
    /// (bad signature, expired, malformed, missing claims) is `InvalidToken`.
    pub fn verify(&self, token: &str) -> (r: Result<Claims, AppError>)
        ensures
            r matches Err(e) ==> e is InvalidToken,
            r matches Ok(c) ==> reads_back(self.secret_view(), token@, c),
    {
        match jwt_decode(token, self.secret.as_str()) {
            Ok(fields) => claims_from_fields(fields),
            Err(_) => Err(AppError::InvalidToken),
        }
    }

    /// The claims of a token issued at `now` (Unix seconds): issued at `now`,
    /// expiring `expire_hours` hours later.
    pub fn claims_at(&self, user_id: String, username: String, role: String, now: i64) -> (r:
        Claims)
        requires
            0 <= now,
            now + self.expire_hours_view() * 3600 <= max_timestamp(),
        ensures
            r.user_id@ == user_id@,
            r.username@ == username@,
            r.role@ == role@,
            r.iat == now,
            r.exp == now + self.expire_hours_view() * 3600,
    {
        let secs: u64 = self.expire_hours * 3600;
        let exp = now + secs as i64;
        Claims { user_id, username, role, exp, iat: now }
    }
}

/// Claims `c` read back from `token` under `secret`: where the token was
/// made of some claims with that secret, `c` are those claims.
pub open spec fn reads_back(secret: Seq<char>, token: Seq<char>, c: Claims) -> bool {
    forall|u: Seq<char>, n: Seq<char>, ro: Seq<char>, e: i64, i: i64|
        #![trigger jwt_of(u, n, ro, e, i, secret)]
        token == jwt_of(u, n, ro, e, i, secret) ==> c.user_id@ == u && c.username@ == n && c.role@ == ro && c.exp
            == e && c.iat == i
}

/// A token that `generate` issued, once `verify` of the same manager accepts
/// it, reads back as the user it was issued for: the same id, name and role,
/// issued at `now` and expiring `expire_hours` hours later.
pub proof fn law_token_round_trip(
    tm: TokenManager,
    user_id: Seq<char>,
    username: Seq<char>,
    role: Seq<char>,
    now: i64,
    c: Claims,
)
    requires
        0 <= now,
        now + tm.expire_hours_view() * 3600 <= max_timestamp(),
        reads_back(tm.secret_view(), tm.issued_token(user_id, username, role, now), c),
    ensures
        c.user_id@ == user_id,
        c.username@ == username,
        c.role@ == role,
        c.iat == now,
        c.exp - c.iat == tm.expire_hours_view() * 3600,
{
    let e = (now + tm.expire_hours_view() * 3600) as i64;
    assert(tm.issued_token(user_id, username, role, now) == jwt_of(user_id, username, role, e, now, tm.secret_view()));
}

/// The token `jsonwebtoken` makes of these claims (as a JSON object with
/// the fields `user_id`, `username`, `role`, `exp`, `iat`) under the default
/// header (HS256) with `secret` as the key.
pub uninterp spec fn jwt_of(
    user_id: Seq<char>,
    username: Seq<char>,
    role: Seq<char>,
    exp: i64,
    iat: i64,
    secret: Seq<char>,
) -> Seq<char>;

/// Calls `jsonwebtoken::encode` with the default header and an HMAC key
/// from `secret` on the claims as a JSON object. Trusted: it succeeds (the
/// key is an HMAC key, as HS256 needs, and a map of text and integers always
/// serializes), and its token is `jwt_of` of the claims and the secret.
#[verifier::external_body]
fn jwt_encode(claims: &Claims, secret: &str) -> (r: Result<String, String>)
    ensures
        r is Ok,
        r matches Ok(t) ==> t@ == jwt_of(claims.user_id@, claims.username@, claims.role@, claims.exp, claims.iat, secret@),
{
    let mut m = serde_json::Map::<String, serde_json::Value>::new();
    m.insert("user_id".into(), claims.user_id.clone().into());
    m.insert("username".into(), claims.username.clone().into());
    m.insert("role".into(), claims.role.clone().into());
    m.insert("exp".into(), claims.exp.into());
    m.insert("iat".into(), claims.iat.into());
    let key = jsonwebtoken::EncodingKey::from_secret(secret.as_bytes());
    jsonwebtoken::encode(&jsonwebtoken::Header::default(), &m, &key).map_err(|e| e.to_string())
}

/// The claims found in a token's payload: each when it is there with the
/// right type (text for the names and the role, an integer for the times).
#[derive(Debug, Clone)]
pub struct TokenFields {
    pub user_id: Option<String>,
    pub username: Option<String>,
    pub role: Option<String>,
    pub exp: Option<i64>,
    pub iat: Option<i64>,
}

/// Calls `jsonwebtoken::decode` with an HMAC key from `secret` and the
/// default validation (HS256; `exp` present and not yet past by the
/// machine's clock) and hands back the payload's claims. Trusted: when it
/// accepts a token that `jwt_encode` made with the same secret, the fields
/// are the claims that token was made of. Whether a token is accepted is not
/// stated: it depends on the clock.
#[verifier::external_body]
fn jwt_decode(token: &str, secret: &str) -> (r: Result<TokenFields, String>)
    ensures
        forall|u: Seq<char>, n: Seq<char>, ro: Seq<char>, e: i64, i: i64|
            #![trigger jwt_of(u, n, ro, e, i, secret@)]
            token@ == jwt_of(u, n, ro, e, i, secret@) ==> (r matches Ok(f) ==> fields_are(f, u, n, ro, e, i)),
{
    let key = jsonwebtoken::DecodingKey::from_secret(secret.as_bytes());
    let v = jsonwebtoken::Validation::default();
    let data = jsonwebtoken::decode::<serde_json::Map<String, serde_json::Value>>(token, &key, &v)
        .map_err(|e| e.to_string())?;
    let c = &data.claims;
    let text = |k: &str| c.get(k)?.as_str().map(String::from);
    let num = |k: &str| c.get(k)?.as_i64();
    Ok(TokenFields { user_id: text("user_id"), username: text("username"), role: text("role"), exp: num("exp"), iat: num("iat") })
}

/// The fields of a decoded token are exactly these claims.
pub open spec fn fields_are(f: TokenFields, u: Seq<char>, n: Seq<char>, ro: Seq<char>, e: i64, i: i64) -> bool {
    &&& f.user_id matches Some(x) && x@ == u
    &&& f.username matches Some(x) && x@ == n
    &&& f.role matches Some(x) && x@ == ro
    &&& f.exp == Some(e)
    &&& f.iat == Some(i)
}

/// The claims of a decoded token: all five must be there, else the token
/// is `InvalidToken`.
pub fn claims_from_fields(fields: TokenFields) -> (r: Result<Claims, AppError>)
    ensures
        r is Ok <==> fields.user_id is Some && fields.username is Some && fields.role is Some && fields.exp is Some
            && fields.iat is Some,
        r matches Ok(c) ==> fields.user_id == Some(c.user_id) && fields.username == Some(c.username) && fields.role
            == Some(c.role) && fields.exp == Some(c.exp) && fields.iat == Some(c.iat),
        r matches Err(e) ==> e is InvalidToken,
{
    match (fields.user_id, fields.username, fields.role, fields.exp, fields.iat) {
        (Some(user_id), Some(username), Some(role), Some(exp), Some(iat)) => Ok(
            Claims { user_id, username, role, exp, iat },
        ),
        _ => Err(AppError::InvalidToken),
    }
}

/// Whether `password` matches the Argon2 hash `hash` (a PHC string), as
/// argon2's `verify_password` decides with the parameters and salt the hash
/// records.
pub uninterp spec fn argon2_verifies(password: Seq<char>, hash: Seq<char>) -> bool;

/// The PHC string of the Argon2 hash (argon2's default parameters) of
/// `password` with the salt `salt`.
pub uninterp spec fn argon2_hash_of(password: Seq<char>, salt: Seq<u8>) -> Seq<char>;

/// Calls `Argon2::default().hash_password` with `salt` encoded as a B64 salt
/// string. Trusted: a hash it returns is `argon2_hash_of` of the password and
/// the salt, and `verify_password` accepts the password against it (it
/// recomputes the hash with the parameters and salt the string records).
/// It succeeds when the salt is 8 to 48 bytes (argon2's minimum salt length;
/// the longest salt a salt string holds) and the password at most
/// 0x3FFF_FFFF characters (argon2 takes up to 0xFFFF_FFFF bytes). A salt
/// under 3 bytes encodes to fewer than the 4 characters a salt needs, and
/// hashing then panics, so such salts are not admitted.
#[verifier::external_body]
fn argon2_hash(password: &str, salt: &[u8]) -> (r: Result<String, String>)
    requires
        salt@.len() >= 3,
    ensures
        8 <= salt@.len() <= 48 && password@.len() <= 0x3FFF_FFFF ==> r is Ok,
        r matches Ok(h) ==> h@ == argon2_hash_of(password@, salt@) && argon2_verifies(password@, h@),
{
    let salt = argon2::password_hash::SaltString::encode_b64(salt).map_err(|e| e.to_string())?;
    argon2::Argon2::default().hash_password(password.as_bytes(), &salt).map(|h| h.to_string()).map_err(|e| e.to_string())
}

/// Calls `PasswordHash::new` on `hash` and, when it parses, argon2's
/// `verify_password`. Trusted: the result is `argon2_verifies`.
#[verifier::external_body]
fn argon2_verify(password: &str, hash: &str) -> (r: bool)
    ensures
        r == argon2_verifies(password@, hash@),
{
    match argon2::password_hash::PasswordHash::new(hash) {
        Ok(parsed) => argon2::Argon2::default().verify_password(password.as_bytes(), &parsed).is_ok(),
        Err(_) => false,
    }
}

/// The Argon2 hash of a password with the salt `salt` (fresh random bytes,
/// chosen by the caller, at least 3 of them); the password verifies against
/// it.
pub fn hash_password(password: &str, salt: &[u8]) -> (r: Result<String, AppError>)
    requires
        salt@.len() >= 3,
    ensures
        8 <= salt@.len() <= 48 && password@.len() <= 0x3FFF_FFFF ==> r is Ok,
        r matches Ok(h) ==> h@ == argon2_hash_of(password@, salt@),
        r matches Ok(h) ==> argon2_verifies(password@, h@),
        r matches Err(e) ==> e is InternalServerError,
{
    match argon2_hash(password, salt) {
        Ok(h) => Ok(h),
        Err(m) => Err(AppError::InternalServerError(m)),
    }
}

/// Whether `password` matches the stored hash.
pub fn verify_password(password: &str, hash: &str) -> (r: bool)
    ensures
        r == argon2_verifies(password@, hash@),
{
    argon2_verify(password, hash)
}

/// The token of an `Authorization` header: what follows `Bearer `.
pub fn bearer_token(header: Option<&str>) -> (r: Result<String, AppError>)
    ensures
        header is None ==> (r matches Err(AppError::Unauthorized(m)) && m@ == "Missing authorization header"@),
        header matches Some(h) ==> (starts_with(h@, "Bearer "@) <==> r is Ok),
        header matches Some(h) && !starts_with(h@, "Bearer "@) ==> (r matches Err(AppError::Unauthorized(m)) && m@
            == "Invalid authorization format"@),
        r matches Ok(t) ==> (header matches Some(h) && t@ == h@.skip(7)),
{
    match header {
        None => Err(AppError::Unauthorized(owned("Missing authorization header"))),
        Some(h) => {
            proof {
                reveal_strlit("Bearer ");
            }
            if str_starts_with(h, "Bearer ") {
                let v = chars_of(h);
                assert(v@.subrange(7, v@.len() as int) =~= h@.skip(7));
                Ok(string_of_range(&v, 7, v.len()))
            } else {
                Err(AppError::Unauthorized(owned("Invalid authorization format")))
            }
        },
    }
}

impl Auth {
    /// The user a verified token names.
    pub fn from_claims(claims: Claims) -> (r: Self)
        ensures
            r.user_id == claims.user_id,
            r.username == claims.username,
            r.role == claims.role,
    {
        Auth { user_id: claims.user_id, username: claims.username, role: claims.role }
    }
}

/// The error of a login with an unknown user or a wrong password (the two
/// are not told apart).
pub fn invalid_credentials() -> (r: AppError)
    ensures
        r matches AppError::Unauthorized(m) && m@ == "Invalid username or password"@,
{
    AppError::Unauthorized(owned("Invalid username or password"))
}

/// The error of a password change whose old password is wrong.
pub fn old_password_incorrect() -> (r: AppError)
    ensures
        r matches AppError::Unauthorized(m) && m@ == "Old password is incorrect"@,
{
    AppError::Unauthorized(owned("Old password is incorrect"))
}

/// Whether `auth` may register a user with these credentials: an admin,
/// with a user name and a password. A registered user is a `viewer`.
pub fn check_registration(auth: &Auth, username: &str, password: &str) -> (r: Result<(), AppError>)
    ensures
        r is Ok <==> is_admin_role(auth.role@) && username@.len() > 0 && password@.len() > 0,
        !is_admin_role(auth.role@) ==> (r matches Err(AppError::Forbidden(m)) && m@
            == "Only administrators can register new users"@),
        is_admin_role(auth.role@) && (username@.len() == 0 || password@.len() == 0) ==> (r matches Err(
            AppError::BadRequest(m),
        ) && m@ == "Username and password cannot be empty"@),
{
    if !auth.is_admin() {
        return Err(AppError::Forbidden(owned("Only administrators can register new users")));
    }
    if username.unicode_len() == 0 || password.unicode_len() == 0 {
        return Err(AppError::BadRequest(owned("Username and password cannot be empty")));
    }
    Ok(())
}

/// The role of a registered user.
pub fn registered_role() -> (r: &'static str)
    ensures
        r@ == "viewer"@,
{
    "viewer"
}

} // verus!

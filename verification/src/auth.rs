//! Passwords, tokens, and who may do what.

use argon2::password_hash::{rand_core::OsRng, PasswordHash, PasswordHasher, PasswordVerifier, SaltString};
use argon2::Argon2;
use jsonwebtoken::{DecodingKey, EncodingKey, Header, Validation};
use serde::de::IgnoredAny;
use serde_json::value::RawValue;
use serde_json::Value;
use std::cmp::Reverse;
use std::collections::BTreeMap;
use vstd::prelude::*;

use crate::clock;
use crate::error::{AppError, Status};
use crate::json;
use crate::text;

verus! {

// ---------------------------------------------------------------------------
// Passwords
// ---------------------------------------------------------------------------

/// The most bytes of a password that Argon2 takes.
pub const MAX_PASSWORD_BYTES: u64 = 0xFFFF_FFFF;

/// The password is not too long to be hashed.
pub open spec fn can_be_hashed(password: Seq<char>) -> bool {
    vstd::utf8::encode_utf8(password).len() <= MAX_PASSWORD_BYTES
}

/// Why a text cannot be read as a password hash, in the words of the
/// `password_hash` crate; nothing where it can.
pub uninterp spec fn hash_fault(hash: Seq<char>) -> Option<Seq<char>>;

/// Argon2 computes, from the password and from what the hash says of algorithm,
/// parameters and salt, the output that the hash holds.
pub uninterp spec fn password_fits(password: Seq<char>, hash: Seq<char>) -> bool;

/// `PasswordHasher::hash_password` of `Argon2::default()`, with a salt from
/// `SaltString::generate`, written out with the `Display` form of `PasswordHash`;
/// a failure comes as the text of its error. The salt is random, so the hash is
/// no function of the password. It fails exactly on a password of more bytes than
/// Argon2 takes. A hash that was made can be read again, and its password fits it;
/// that no other password does, which only collisions stand against, is not stated.
#[verifier::external_body]
fn argon2_hash(password: &str) -> (r: Result<String, String>)
    ensures
        r is Ok <==> can_be_hashed(password@),
        r matches Ok(hash) ==> hash_fault(hash@) is None,
        r matches Ok(hash) ==> password_fits(password@, hash@),
{
    let salt = SaltString::generate(&mut OsRng);
    Argon2::default()
        .hash_password(password.as_bytes(), &salt)
        .map(|hash| hash.to_string())
        .map_err(|e| e.to_string())
}

/// `PasswordHash::new`, and `PasswordVerifier::verify_password` of
/// `Argon2::default()` with the hash that it read: a function of the two texts.
/// A hash that cannot be read comes back as the text of the error.
#[verifier::external_body]
fn argon2_verify(password: &str, hash: &str) -> (r: Result<bool, String>)
    ensures
        match r {
            Ok(fits) => hash_fault(hash@) is None && fits == password_fits(password@, hash@),
            Err(fault) => hash_fault(hash@) == Some(fault@),
        },
{
    let parsed = PasswordHash::new(hash).map_err(|e| e.to_string())?;
    Ok(Argon2::default().verify_password(password.as_bytes(), &parsed).is_ok())
}

/// What hashing came to, for the caller of the service.
pub fn hashed(result: Result<String, String>) -> (r: Result<String, AppError>)
    ensures
        match result {
            Ok(hash) => r == Ok::<String, AppError>(hash),
            Err(fault) => r matches Err(e) && e.says(
                Status::InternalServerError,
                "password hashing error: "@ + fault@,
            ),
        },
{
    match result {
        Ok(hash) => Ok(hash),
        Err(fault) => Err(AppError::from_hashing(fault.as_str())),
    }
}

/// The text is a hash that was made of the password.
pub open spec fn is_hash_of(hash: Seq<char>, password: Seq<char>) -> bool {
    hash_fault(hash) is None && password_fits(password, hash)
}

/// A hash of the password, with a fresh salt.
pub fn hash_password(password: &str) -> (r: Result<String, AppError>)
    ensures
        r is Ok <==> can_be_hashed(password@),
        match r {
            Ok(hash) => is_hash_of(hash@, password@),
            Err(e) => e.status == Status::InternalServerError
                && "password hashing error: "@.is_prefix_of(e.message@),
        },
{
    proof {
        text::lemma_prefix_of_join("password hashing error: "@);
    }
    hashed(argon2_hash(password))
}

/// Whether the password fits the hash is told; only a hash that cannot be read is
/// an error.
pub open spec fn password_answer(
    password: Seq<char>,
    hash: Seq<char>,
    r: Result<bool, AppError>,
) -> bool {
    match hash_fault(hash) {
        None => r == Ok::<bool, AppError>(password_fits(password, hash)),
        Some(fault) => r matches Err(e) && e.says(Status::InternalServerError, fault),
    }
}

/// Whether the password is the one that was hashed.
pub fn verify_password(password: &str, hash: &str) -> (r: Result<bool, AppError>)
    ensures
        password_answer(password@, hash@, r),
{
    match argon2_verify(password, hash) {
        Ok(fits) => Ok(fits),
        Err(fault) => Err(AppError::internal(fault.as_str())),
    }
}

// ---------------------------------------------------------------------------
// Tokens
// ---------------------------------------------------------------------------

/// What a token says: the admin it was issued to, the organisation the admin
/// belongs to, and the second at which it expires.
#[derive(Debug)]
pub struct Claims {
    pub sub: String,
    pub org_id: String,
    pub exp: i64,
}

pub struct ClaimsView {
    pub sub: Seq<char>,
    pub org_id: Seq<char>,
    pub exp: i64,
}

impl View for Claims {
    type V = ClaimsView;

    open spec fn view(&self) -> ClaimsView {
        ClaimsView { sub: self.sub@, org_id: self.org_id@, exp: self.exp }
    }
}

/// The claims as they were found in the body of a token: each is there, or not,
/// or is of another type, and then there are words for that.
#[derive(Debug)]
pub struct TokenBody {
    pub sub: Result<Option<String>, String>,
    pub org_id: Result<Option<String>, String>,
    pub exp: Result<Option<i64>, String>,
}

pub struct BodyView {
    pub sub: Result<Option<Seq<char>>, Seq<char>>,
    pub org_id: Result<Option<Seq<char>>, Seq<char>>,
    pub exp: Result<Option<i64>, Seq<char>>,
}

pub open spec fn string_claim(claim: Result<Option<String>, String>) -> Result<
    Option<Seq<char>>,
    Seq<char>,
> {
    match claim {
        Ok(found) => Ok(json::opt_text(found)),
        Err(words) => Err(words@),
    }
}

pub open spec fn number_claim(claim: Result<Option<i64>, String>) -> Result<Option<i64>, Seq<char>> {
    match claim {
        Ok(found) => Ok(found),
        Err(words) => Err(words@),
    }
}

impl View for TokenBody {
    type V = BodyView;

    open spec fn view(&self) -> BodyView {
        BodyView {
            sub: string_claim(self.sub),
            org_id: string_claim(self.org_id),
            exp: number_claim(self.exp),
        }
    }
}

/// The body of a token that carries the claims.
pub open spec fn body_of(claims: ClaimsView) -> BodyView {
    BodyView {
        sub: Ok(Some(claims.sub)),
        org_id: Ok(Some(claims.org_id)),
        exp: Ok(Some(claims.exp)),
    }
}

/// The claims in the body of a token, each as it stands there in JSON.
pub struct RawBody {
    pub sub: Option<String>,
    pub org_id: Option<String>,
    pub exp: Option<String>,
}

pub struct RawBodyView {
    pub sub: Option<Seq<char>>,
    pub org_id: Option<Seq<char>>,
    pub exp: Option<Seq<char>>,
}

impl View for RawBody {
    type V = RawBodyView;

    open spec fn view(&self) -> RawBodyView {
        RawBodyView {
            sub: json::opt_text(self.sub),
            org_id: json::opt_text(self.org_id),
            exp: json::opt_text(self.exp),
        }
    }
}

/// The members `sub`, `org_id` and `exp` of the body of a token that was signed with
/// the secret, whatever the time. Where the token is malformed or was not signed
/// with the secret, jsonwebtoken's words for that.
pub uninterp spec fn token_members(token: Seq<char>, secret: Seq<char>) -> Result<
    RawBodyView,
    Seq<char>,
>;

/// A claim that has to be a string, as it was read.
pub open spec fn string_read(claim: Option<Seq<char>>) -> Result<Option<Seq<char>>, Seq<char>> {
    match claim {
        None => Ok(None),
        Some(text) => match json::json_string(text) {
            Ok(s) => Ok(Some(s)),
            Err(words) => Err(words),
        },
    }
}

/// A claim that has to be a whole number, as it was read.
pub open spec fn number_read(claim: Option<Seq<char>>) -> Result<Option<i64>, Seq<char>> {
    match claim {
        None => Ok(None),
        Some(text) => match json::json_number(text) {
            Ok(n) => Ok(Some(n)),
            Err(words) => Err(words),
        },
    }
}

/// The claims as they were read.
pub open spec fn body_read(raw: RawBodyView) -> BodyView {
    BodyView {
        sub: string_read(raw.sub),
        org_id: string_read(raw.org_id),
        exp: number_read(raw.exp),
    }
}

/// What is read from a token that was signed with the secret, whatever the time.
pub open spec fn token_body(token: Seq<char>, secret: Seq<char>) -> Result<BodyView, Seq<char>> {
    match token_members(token, secret) {
        Ok(raw) => Ok(body_read(raw)),
        Err(words) => Err(words),
    }
}

/// Why jsonwebtoken refuses the token when the clock reads that second, in its
/// words; nothing where it accepts the token.
pub uninterp spec fn token_fault(token: Seq<char>, secret: Seq<char>, second: u64) -> Option<
    Seq<char>,
>;

/// The token that carries the claims, signed with the secret.
pub uninterp spec fn signed_token(
    sub: Seq<char>,
    org_id: Seq<char>,
    exp: i64,
    secret: Seq<char>,
) -> Seq<char>;

/// For how many seconds a token is accepted after it has expired.
pub const LEEWAY_S: u64 = 60;

/// The token is accepted until it expires, and for the leeway after that.
pub open spec fn good_until(token: Seq<char>, secret: Seq<char>, exp: i64) -> bool {
    forall|second: u64|
        LEEWAY_S <= second ==> #[trigger] token_fault(token, secret, second) == (if second <= exp
            + LEEWAY_S {
            None
        } else {
            Some("ExpiredSignature"@)
        })
}

/// `jsonwebtoken::encode`, with the default header (HS256), the claims as a JSON
/// object (with the members in the reverse order of their names: `sub`, `org_id`,
/// `exp`), and `EncodingKey::from_secret`: a function of the claims and the
/// secret. A JSON object can always be written and HS256 takes any secret, so it
/// does not fail. What a token carries can be read again with the secret that
/// signed it, and the default validation of `jsonwebtoken::decode` takes it until
/// its `exp` lies more than the leeway of 60 seconds back.
#[verifier::external_body]
fn encode_token(claims: &Claims, secret: &str) -> (r: Result<String, String>)
    ensures
        r is Ok,
        r matches Ok(token) ==> {
            &&& token@ == signed_token(claims.sub@, claims.org_id@, claims.exp, secret@)
            &&& token_body(token@, secret@) == Ok::<BodyView, Seq<char>>(body_of(claims@))
            &&& claims.exp >= 0 ==> good_until(token@, secret@, claims.exp)
        },
{
    let mut body = BTreeMap::new();
    body.insert(Reverse("sub"), Value::from(claims.sub.as_str()));
    body.insert(Reverse("org_id"), Value::from(claims.org_id.as_str()));
    body.insert(Reverse("exp"), Value::from(claims.exp));
    let key = EncodingKey::from_secret(secret.as_bytes());
    jsonwebtoken::encode(&Header::default(), &body, &key).map_err(|e| e.to_string())
}

/// `jsonwebtoken::decode` into a JSON object whose members are left unread
/// (`RawValue`), with `DecodingKey::from_secret` and the default validation (HS256)
/// without the part that looks at the claims. A failure comes as the text of its
/// error. All of it is a function of the token and the secret. Of a member that
/// the object has twice, the second one is taken.
#[verifier::external_body]
fn open_token(token: &str, secret: &str) -> (r: Result<RawBody, String>)
    ensures
        match r {
            Ok(raw) => token_members(token@, secret@) == Ok::<RawBodyView, Seq<char>>(raw@),
            Err(words) => token_members(token@, secret@) == Err::<RawBodyView, Seq<char>>(words@),
        },
{
    let mut rules = Validation::default();
    rules.required_spec_claims.clear();
    rules.validate_exp = false;
    rules.validate_aud = false;
    let key = DecodingKey::from_secret(secret.as_bytes());
    let data = jsonwebtoken::decode::<BTreeMap<String, Box<RawValue>>>(token, &key, &rules)
        .map_err(|e| e.to_string())?;
    let claim = |name| data.claims.get(name).map(|raw| raw.get().to_string());
    Ok(RawBody { sub: claim("sub"), org_id: claim("org_id"), exp: claim("exp") })
}

fn read_string(claim: Option<String>) -> (r: Result<Option<String>, String>)
    ensures
        string_claim(r) == string_read(json::opt_text(claim)),
{
    match claim {
        None => Ok(None),
        Some(text) => match json::string(text.as_str()) {
            Ok(s) => Ok(Some(s)),
            Err(words) => Err(words),
        },
    }
}

fn read_number(claim: Option<String>) -> (r: Result<Option<i64>, String>)
    ensures
        number_claim(r) == number_read(json::opt_text(claim)),
{
    match claim {
        None => Ok(None),
        Some(text) => match json::number(text.as_str()) {
            Ok(n) => Ok(Some(n)),
            Err(words) => Err(words),
        },
    }
}

/// The claims of a token that was opened, read.
pub fn read_claims(opened: Result<RawBody, String>) -> (r: Result<TokenBody, String>)
    ensures
        match opened {
            Ok(raw) => r matches Ok(body) && body@ == body_read(raw@),
            Err(words) => r == Err::<TokenBody, String>(words),
        },
{
    match opened {
        Ok(raw) => Ok(
            TokenBody {
                sub: read_string(raw.sub),
                org_id: read_string(raw.org_id),
                exp: read_number(raw.exp),
            },
        ),
        Err(words) => Err(words),
    }
}

/// `jsonwebtoken::decode`, with `DecodingKey::from_secret` and the default
/// validation (HS256, the claim `exp` required and not in the past). A failure
/// comes as the text of its error. It is a function of the token, the secret and
/// the second that the clock reads; which second that is, is not stated. A clock
/// that stands before the epoch ends the program.
#[verifier::external_body]
fn check_token(token: &str, secret: &str) -> (r: Result<(), String>)
    ensures
        exists|second: u64|
            match r {
                Ok(_) => #[trigger] token_fault(token@, secret@, second) is None,
                Err(words) => token_fault(token@, secret@, second) == Some(words@),
            },
{
    let key = DecodingKey::from_secret(secret.as_bytes());
    jsonwebtoken::decode::<IgnoredAny>(token, &key, &Validation::default())
        .map(|_| ())
        .map_err(|e| e.to_string())
}

/// How long a token is good for.
pub const TOKEN_LIFETIME_S: i64 = 604_800;

/// The second at which a token expires that is issued at the given millisecond.
pub open spec fn expiry(now_ms: i64) -> i64 {
    (now_ms as int / 1000 + TOKEN_LIFETIME_S) as i64
}

/// The token was issued to this admin, for this organisation.
pub open spec fn issued_to(
    token: Seq<char>,
    secret: Seq<char>,
    user_id: Seq<char>,
    org_id: Seq<char>,
    exp: i64,
) -> bool {
    &&& token_body(token, secret) == Ok::<BodyView, Seq<char>>(
        body_of(ClaimsView { sub: user_id, org_id, exp }),
    )
    &&& exp >= 0 ==> good_until(token, secret, exp)
}

/// The text is the token for the admin and the organisation that was issued at
/// the given millisecond.
pub open spec fn token_issued_at(
    now_ms: i64,
    user_id: Seq<char>,
    org_id: Seq<char>,
    secret: Seq<char>,
    token: Seq<char>,
) -> bool {
    &&& clock::in_calendar(now_ms)
    &&& token == signed_token(user_id, org_id, expiry(now_ms), secret)
    &&& issued_to(token, secret, user_id, org_id, expiry(now_ms))
}

/// The text is a token for the admin and the organisation, issued at some time.
pub open spec fn is_token_for(
    user_id: Seq<char>,
    org_id: Seq<char>,
    secret: Seq<char>,
    token: Seq<char>,
) -> bool {
    exists|now_ms: i64| #[trigger] token_issued_at(now_ms, user_id, org_id, secret, token)
}

/// A token for the admin and the organisation that expires a week after the
/// given millisecond.
pub fn issue_token_at(user_id: &str, org_id: &str, secret: &str, now_ms: i64) -> (r: Result<
    String,
    AppError,
>)
    requires
        clock::in_calendar(now_ms),
    ensures
        r matches Ok(token) && token_issued_at(now_ms, user_id@, org_id@, secret@, token@),
{
    let claims = Claims {
        sub: user_id.to_string(),
        org_id: org_id.to_string(),
        exp: clock::seconds(now_ms) + TOKEN_LIFETIME_S,
    };
    match encode_token(&claims, secret) {
        Ok(token) => Ok(token),
        Err(fault) => Err(AppError::from_token(fault.as_str())),
    }
}

/// A token for the admin and the organisation that expires in a week.
pub fn issue_token(user_id: &str, org_id: &str, secret: &str) -> (r: Result<String, AppError>)
    ensures
        r matches Ok(token) && is_token_for(user_id@, org_id@, secret@, token@),
{
    issue_token_at(user_id, org_id, secret, clock::utc_now_ms())
}

/// The claims in the body of a token: all three have to be of their types, and
/// all three have to be there.
pub open spec fn claims_in(body: BodyView) -> Result<ClaimsView, Seq<char>> {
    match (body.sub, body.org_id, body.exp) {
        (Err(words), _, _) => Err("JSON error: "@ + words),
        (_, Err(words), _) => Err("JSON error: "@ + words),
        (_, _, Err(words)) => Err("JSON error: "@ + words),
        (Ok(None), _, _) => Err("JSON error: "@ + "missing field `sub`"@),
        (_, Ok(None), _) => Err("JSON error: "@ + "missing field `org_id`"@),
        (_, _, Ok(None)) => Err("JSON error: "@ + "missing field `exp`"@),
        (Ok(Some(sub)), Ok(Some(org_id)), Ok(Some(exp))) => Ok(ClaimsView { sub, org_id, exp }),
    }
}

/// What is answered is what the token comes to: its claims, or 401.
pub open spec fn tells(outcome: Result<ClaimsView, Seq<char>>, r: Result<Claims, AppError>) -> bool {
    match outcome {
        Ok(claims) => r matches Ok(c) && c@ == claims,
        Err(words) => r matches Err(e) && e.says(Status::Unauthorized, "invalid token: "@ + words),
    }
}

fn json_fault(words: &str) -> (r: AppError)
    ensures
        r.says(Status::Unauthorized, "invalid token: "@ + ("JSON error: "@ + words@)),
{
    AppError::from_token(text::joined("JSON error: ", words).as_str())
}

/// The claims of a token that was opened, as they have to be.
pub fn accept_claims(opened: Result<TokenBody, String>) -> (r: Result<Claims, AppError>)
    ensures
        match opened {
            Ok(body) => tells(claims_in(body@), r),
            Err(words) => tells(Err(words@), r),
        },
{
    let body = match opened {
        Ok(body) => body,
        Err(words) => return Err(AppError::from_token(words.as_str())),
    };
    match (body.sub, body.org_id, body.exp) {
        (Err(words), _, _) => Err(json_fault(words.as_str())),
        (_, Err(words), _) => Err(json_fault(words.as_str())),
        (_, _, Err(words)) => Err(json_fault(words.as_str())),
        (Ok(None), _, _) => Err(json_fault("missing field `sub`")),
        (_, Ok(None), _) => Err(json_fault("missing field `org_id`")),
        (_, _, Ok(None)) => Err(json_fault("missing field `exp`")),
        (Ok(Some(sub)), Ok(Some(org_id)), Ok(Some(exp))) => Ok(Claims { sub, org_id, exp }),
    }
}

/// The claims, unless the token that they are from was refused.
pub fn unless_refused(claims: Claims, checked: Result<(), String>) -> (r: Result<Claims, AppError>)
    ensures
        match checked {
            Ok(_) => r == Ok::<Claims, AppError>(claims),
            Err(words) => r matches Err(e) && e.says(
                Status::Unauthorized,
                "invalid token: "@ + words@,
            ),
        },
{
    match checked {
        Ok(_) => Ok(claims),
        Err(words) => Err(AppError::from_token(words.as_str())),
    }
}

/// What a token comes to when the clock reads that second: its claims, or the
/// words with which it is refused. Its claims are looked at before its expiry.
pub open spec fn token_outcome(token: Seq<char>, secret: Seq<char>, second: u64) -> Result<
    ClaimsView,
    Seq<char>,
> {
    match token_body(token, secret) {
        Err(words) => Err(words),
        Ok(body) => match claims_in(body) {
            Err(words) => Err(words),
            Ok(claims) => match token_fault(token, secret, second) {
                Some(words) => Err(words),
                None => Ok(claims),
            },
        },
    }
}

/// The claims of a token that was signed with the secret and has not expired.
pub fn verify_token(token: &str, secret: &str) -> (r: Result<Claims, AppError>)
    ensures
        exists|second: u64| tells(#[trigger] token_outcome(token@, secret@, second), r),
{
    match accept_claims(read_claims(open_token(token, secret))) {
        Ok(claims) => {
            let checked = check_token(token, secret);
            let ghost second = choose|second: u64|
                match checked {
                    Ok(_) => #[trigger] token_fault(token@, secret@, second) is None,
                    Err(words) => token_fault(token@, secret@, second) == Some(words@),
                };
            let r = unless_refused(claims, checked);
            assert(tells(token_outcome(token@, secret@, second), r));
            r
        },
        Err(e) => {
            let r = Err(e);
            assert(tells(token_outcome(token@, secret@, 0), r));
            r
        },
    }
}

// ---------------------------------------------------------------------------
// Access
// ---------------------------------------------------------------------------

/// The admin that a request was made by.
#[derive(Debug)]
pub struct AuthUser {
    pub user_id: String,
    pub org_id: String,
}

/// The admin that the claims speak of.
pub fn admin_of(claims: Result<Claims, AppError>) -> (r: Result<AuthUser, AppError>)
    ensures
        match claims {
            Ok(c) => r == Ok::<AuthUser, AppError>(AuthUser { user_id: c.sub, org_id: c.org_id }),
            Err(e) => r == Err::<AuthUser, AppError>(e),
        },
{
    match claims {
        Ok(claims) => Ok(AuthUser { user_id: claims.sub, org_id: claims.org_id }),
        Err(e) => Err(e),
    }
}

/// Who is answered is whom the token speaks of, or it was refused with 401.
pub open spec fn admits(
    outcome: Result<ClaimsView, Seq<char>>,
    r: Result<AuthUser, AppError>,
) -> bool {
    match outcome {
        Ok(claims) => r matches Ok(user) && user.user_id@ == claims.sub && user.org_id@
            == claims.org_id,
        Err(words) => r matches Err(e) && e.says(Status::Unauthorized, "invalid token: "@ + words),
    }
}

/// The header names who made a request by a token that follows `Bearer `; without
/// a header, or with another one, the request is refused with 401.
pub open spec fn authenticates(
    header: Option<&str>,
    secret: Seq<char>,
    r: Result<AuthUser, AppError>,
) -> bool {
    match header {
        None => r matches Err(e) && e.says(Status::Unauthorized, "missing Authorization header"@),
        Some(h) => if "Bearer "@.is_prefix_of(h@) {
            exists|second: u64|
                admits(
                    #[trigger] token_outcome(h@.skip("Bearer "@.len() as int), secret, second),
                    r,
                )
        } else {
            r matches Err(e) && e.says(Status::Unauthorized, "expected 'Bearer <token>'"@)
        },
    }
}

/// Who made a request, from its `Authorization` header.
pub fn authenticate(header: Option<&str>, secret: &str) -> (r: Result<AuthUser, AppError>)
    ensures
        authenticates(header, secret@, r),
{
    let header = match header {
        Some(header) => header,
        None => return Err(AppError::unauthorized("missing Authorization header")),
    };
    let token = match text::strip_prefix(header, "Bearer ") {
        Some(token) => token,
        None => return Err(AppError::unauthorized("expected 'Bearer <token>'")),
    };
    proof {
        assert(header@.skip("Bearer "@.len() as int) =~= token@);
    }
    let claims = verify_token(token, secret);
    let ghost second = choose|second: u64|
        tells(#[trigger] token_outcome(token@, secret@, second), claims);
    let r = admin_of(claims);
    assert(admits(token_outcome(token@, secret@, second), r));
    r
}

/// Ensures that the admin belongs to the organisation.
pub fn ensure_own_org(auth: &AuthUser, org_id: &str) -> (r: Result<(), AppError>)
    ensures
        r is Ok <==> auth.org_id@ == org_id@,
        r matches Err(e) ==> e.says(
            Status::Forbidden,
            "you do not have access to this restaurant"@,
        ),
{
    if !text::reads(&auth.org_id, org_id) {
        return Err(AppError::forbidden("you do not have access to this restaurant"));
    }
    Ok(())
}

} // verus!

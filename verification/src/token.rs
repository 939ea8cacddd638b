//! Signed, time-bounded access tokens that carry a role.

use vstd::prelude::*;
use crate::clock::unix_now;
use crate::config::{Settings, TomlConfig};

verus! {

/// Seconds by which the clocks of issuer and verifier may differ.
pub const LEEWAY: i64 = 3;

/// What a token says of its bearer.
#[derive(Debug, PartialEq, Eq)]
pub struct Claims {
    pub iss: String,
    pub id: u128,
    pub user: String,
    pub role: String,
    pub iat: i64,
    pub exp: i64,
}

/// A claim set as contracts see it.
pub ghost struct ClaimSet {
    pub iss: Seq<char>,
    pub id: u128,
    pub user: Seq<char>,
    pub role: Seq<char>,
    pub iat: i64,
    pub exp: i64,
}

impl View for Claims {
    type V = ClaimSet;

    open spec fn view(&self) -> ClaimSet {
        ClaimSet {
            iss: self.iss@,
            id: self.id,
            user: self.user@,
            role: self.role@,
            iat: self.iat,
            exp: self.exp,
        }
    }
}

/// Why a token is not accepted.
#[derive(Clone, Copy, Debug, PartialEq, Eq, Structural)]
pub enum TokenError {
    /// Not a token, not signed with the secret, or without the claims.
    Invalid,
    /// Past its expiry by more than the leeway.
    Expired,
    /// Issued later than now by more than the leeway.
    Early,
    /// Issued for another domain.
    Issuer,
}

/// The token that states `claims`, signed with HMAC-SHA256 under `secret`.
pub uninterp spec fn signed_token(claims: ClaimSet, secret: Seq<char>) -> Seq<char>;

/// The claims that `token` states, if it is a token signed with
/// HMAC-SHA256 under `secret` that holds all six claims.
pub uninterp spec fn opened_token(token: Seq<char>, secret: Seq<char>) -> Option<ClaimSet>;

/// `token` is what signing `claims` under `secret` gives, and opens to them.
pub open spec fn token_of(token: Seq<char>, claims: ClaimSet, secret: Seq<char>) -> bool {
    &&& token == signed_token(claims, secret)
    &&& opened_token(token, secret) == Some(claims)
}

/// `time + duration`, held within the range of the timestamps.
pub open spec fn expiry(time: i64, duration: i64) -> i64 {
    if time + duration > i64::MAX {
        i64::MAX
    } else if time + duration < i64::MIN {
        i64::MIN
    } else {
        (time + duration) as i64
    }
}

/// The claims of a token issued at `now`.
pub open spec fn issued(
    domain: Seq<char>,
    duration: i64,
    user: Seq<char>,
    role: Seq<char>,
    id: u128,
    now: i64,
) -> ClaimSet {
    ClaimSet { iss: domain, id, user, role, iat: now, exp: expiry(now, duration) }
}

/// The token that `settings` issue to an account at `now`.
pub open spec fn token_for(settings: Settings, user: Seq<char>, role: Seq<char>, id: u128, now: i64) -> Seq<char> {
    signed_token(issued(settings.domain, settings.duration, user, role, id, now), settings.secret)
}

/// `token` is what `settings` issue to the account at `now`, and opens
/// under their secret to the claims it was issued with.
pub open spec fn issued_by(
    token: Seq<char>,
    settings: Settings,
    user: Seq<char>,
    role: Seq<char>,
    id: u128,
    now: i64,
) -> bool {
    token_of(token, issued(settings.domain, settings.duration, user, role, id, now), settings.secret)
}

/// Whether the token that a response gives, if it gives one, is what
/// `settings` issue to the account at `now`.
pub open spec fn gives_token(
    token: Option<Seq<char>>,
    settings: Settings,
    user: Seq<char>,
    role: Seq<char>,
    id: u128,
    now: i64,
) -> bool {
    token matches Some(t) ==> issued_by(t, settings, user, role, id, now)
}

/// What holding `claims` against the service's domain and the time gives.
pub open spec fn verdict(claims: ClaimSet, domain: Seq<char>, now: i64) -> Result<(), TokenError> {
    if now > claims.exp + LEEWAY {
        Err(TokenError::Expired)
    } else if now < claims.iat - LEEWAY {
        Err(TokenError::Early)
    } else if claims.iss != domain {
        Err(TokenError::Issuer)
    } else {
        Ok(())
    }
}

/// What verifying `token` at `now` gives.
pub open spec fn decoded(token: Seq<char>, domain: Seq<char>, secret: Seq<char>, now: i64) -> Result<
    ClaimSet,
    TokenError,
> {
    match opened_token(token, secret) {
        None => Err(TokenError::Invalid),
        Some(claims) => match verdict(claims, domain, now) {
            Ok(_) => Ok(claims),
            Err(e) => Err(e),
        },
    }
}

/// Whether `result` is the outcome `expected`, claims taken by their view.
pub open spec fn decodes_to(result: Result<Claims, TokenError>, expected: Result<ClaimSet, TokenError>) -> bool {
    match result {
        Ok(claims) => expected == Ok::<ClaimSet, TokenError>(claims@),
        Err(e) => expected == Err::<ClaimSet, TokenError>(e),
    }
}

/// Calls `jsonwebtoken::encode` with an HS256 header, the six claims as a
/// JSON object in the order `iss`, `id`, `user`, `role`, `iat`, `exp` (the id
/// as a hyphenated UUID), and `secret` as the HMAC key. The token depends on
/// nothing else, and `jsonwebtoken::decode` under the same secret reads the
/// same claims back from it.
#[verifier::external_body]
fn sign(claims: &Claims, secret: &str) -> (token: String)
    ensures
        token@ == signed_token(claims@, secret@),
        opened_token(token@, secret@) == Some(claims@),
{
    let mut body = serde_json::Map::new();
    body.insert("iss".to_string(), claims.iss.as_str().into());
    body.insert("id".to_string(), uuid::Uuid::from_u128(claims.id).to_string().into());
    body.insert("user".to_string(), claims.user.as_str().into());
    body.insert("role".to_string(), claims.role.as_str().into());
    body.insert("iat".to_string(), claims.iat.into());
    body.insert("exp".to_string(), claims.exp.into());
    let key = jsonwebtoken::EncodingKey::from_secret(secret.as_bytes());
    jsonwebtoken::encode(&jsonwebtoken::Header::new(jsonwebtoken::Algorithm::HS256), &body, &key).unwrap()
}

/// Calls `jsonwebtoken::decode` for HS256 with `secret` as the HMAC key and
/// with the crate's own checks of the claims switched off, so that only the
/// signature is verified and the result does not depend on the time. The six
/// claims are then read from the JSON object; a claim that is missing or of
/// another type makes the token unreadable.
#[verifier::external_body]
fn open(token: &str, secret: &str) -> (claims: Option<Claims>)
    ensures
        claims matches Some(c) ==> opened_token(token@, secret@) == Some(c@),
        claims is None ==> opened_token(token@, secret@) is None,
{
    let mut rules = jsonwebtoken::Validation::new(jsonwebtoken::Algorithm::HS256);
    rules.validate_exp = false;
    rules.required_spec_claims.clear();
    let key = jsonwebtoken::DecodingKey::from_secret(secret.as_bytes());
    let body = jsonwebtoken::decode::<serde_json::Value>(token, &key, &rules).ok()?.claims;
    Some(Claims {
        iss: body.get("iss")?.as_str()?.to_string(),
        id: uuid::Uuid::try_parse(body.get("id")?.as_str()?).ok()?.as_u128(),
        user: body.get("user")?.as_str()?.to_string(),
        role: body.get("role")?.as_str()?.to_string(),
        iat: body.get("iat")?.as_i64()?,
        exp: body.get("exp")?.as_i64()?,
    })
}

/// The end of a validity that starts at `time` and lasts `duration` seconds.
pub fn expires_at(time: i64, duration: i64) -> (end: i64)
    ensures
        end == expiry(time, duration),
{
    match time.checked_add(duration) {
        Some(end) => end,
        None => if duration > 0 {
            i64::MAX
        } else {
            i64::MIN
        },
    }
}

/// Draws up the claims of a token issued to the account at `now`: the
/// service's domain as the issuer, and the configured duration from `now`
/// to the expiry.
pub fn issue(username: &String, acc_type: &String, user_id: u128, config: &TomlConfig, now: i64) -> (claims:
    Claims)
    ensures
        claims@ == issued(config.domain@, config.token_duration, username@, acc_type@, user_id, now),
{
    Claims {
        iss: config.domain.clone(),
        id: user_id,
        user: username.clone(),
        role: acc_type.clone(),
        iat: now,
        exp: expires_at(now, config.token_duration),
    }
}

/// Issues a token for the account at the time `now`.
pub fn create_jwt_at(
    username: &String,
    acc_type: &String,
    user_id: u128,
    config: &TomlConfig,
    now: i64,
) -> (token: String)
    ensures
        token@ == token_for(config@, username@, acc_type@, user_id, now),
        issued_by(token@, config@, username@, acc_type@, user_id, now),
        token_of(
            token@,
            issued(config.domain@, config.token_duration, username@, acc_type@, user_id, now),
            config.token_secret@,
        ),
        forall|later: i64|
            now - LEEWAY <= later <= expiry(now, config.token_duration) + LEEWAY ==> #[trigger] decoded(
                token@,
                config.domain@,
                config.token_secret@,
                later,
            ) == Ok::<ClaimSet, TokenError>(
                issued(config.domain@, config.token_duration, username@, acc_type@, user_id, now),
            ),
{
    let claims = issue(username, acc_type, user_id, config, now);
    sign(&claims, config.token_secret.as_str())
}

/// Issues a token for the account, valid from now on for the configured
/// duration.
pub fn create_jwt(username: &String, acc_type: &String, user_id: u128, config: &TomlConfig) -> (token: String)
    ensures
        exists|now: i64|
            token_of(
                token@,
                #[trigger] issued(
                    config.domain@,
                    config.token_duration,
                    username@,
                    acc_type@,
                    user_id,
                    now,
                ),
                config.token_secret@,
            ),
{
    let now = unix_now();
    create_jwt_at(username, acc_type, user_id, config, now)
}

/// Holds claims against the service's domain and the time `now`.
pub fn check_claims(claims: &Claims, domain: &String, now: i64) -> (result: Result<(), TokenError>)
    ensures
        result == verdict(claims@, domain@, now),
{
    let late = match claims.exp.checked_add(LEEWAY) {
        Some(limit) => now > limit,
        None => false,
    };
    let early = match claims.iat.checked_sub(LEEWAY) {
        Some(limit) => now < limit,
        None => false,
    };
    if late {
        Err(TokenError::Expired)
    } else if early {
        Err(TokenError::Early)
    } else if claims.iss != *domain {
        Err(TokenError::Issuer)
    } else {
        Ok(())
    }
}

/// Verifies `token` at the time `now`: its signature, its validity in time
/// and its issuer.
pub fn decode_jwt_at(token: &str, config: &TomlConfig, now: i64) -> (result: Result<Claims, TokenError>)
    ensures
        decodes_to(result, decoded(token@, config.domain@, config.token_secret@, now)),
{
    match open(token, config.token_secret.as_str()) {
        None => Err(TokenError::Invalid),
        Some(claims) => match check_claims(&claims, &config.domain, now) {
            Ok(_) => Ok(claims),
            Err(e) => Err(e),
        },
    }
}

/// Verifies `token` now.
pub fn decode_jwt(token: &str, config: &TomlConfig) -> (result: Result<Claims, TokenError>)
    ensures
        exists|now: i64|
            decodes_to(
                result,
                #[trigger] decoded(token@, config.domain@, config.token_secret@, now),
            ),
{
    let now = unix_now();
    decode_jwt_at(token, config, now)
}

/// Tells whether a request that bears `token` may pass.
pub fn validator(token: &str, config: &TomlConfig) -> (pass: bool)
    ensures
        exists|now: i64|
            pass == (#[trigger] decoded(token@, config.domain@, config.token_secret@, now) is Ok),
{
    decode_jwt(token, config).is_ok()
}


/// A token verifies at every time from its issue (less the leeway) to its
/// expiry (plus the leeway), against the domain and the secret that it was
/// issued under, and gives the claims that it was issued with.
pub proof fn token_round_trip(
    token: Seq<char>,
    domain: Seq<char>,
    secret: Seq<char>,
    duration: i64,
    user: Seq<char>,
    role: Seq<char>,
    id: u128,
    issued_at: i64,
    now: i64,
)
    requires
        token_of(token, issued(domain, duration, user, role, id, issued_at), secret),
        issued_at - LEEWAY <= now <= expiry(issued_at, duration) + LEEWAY,
    ensures
        decoded(token, domain, secret, now) == Ok::<ClaimSet, TokenError>(
            issued(domain, duration, user, role, id, issued_at),
        ),
{
}

/// No token is accepted later than its expiry plus the leeway: one that
/// opens under the secret is then refused as expired.
pub proof fn expired_token_rejected(token: Seq<char>, domain: Seq<char>, secret: Seq<char>, now: i64)
    ensures
        decoded(token, domain, secret, now) matches Ok(claims) ==> now <= claims.exp + LEEWAY,
        opened_token(token, secret) matches Some(claims) && now > claims.exp + LEEWAY ==> decoded(
            token,
            domain,
            secret,
            now,
        ) == Err::<ClaimSet, TokenError>(TokenError::Expired),
{
}

/// A token is accepted only by the domain that it names as its issuer: the
/// claims of an accepted token name the verifying domain, and a token issued
/// for another domain is refused under the very secret that signed it.
pub proof fn issuer_binding(
    token: Seq<char>,
    claims: ClaimSet,
    domain: Seq<char>,
    secret: Seq<char>,
    now: i64,
)
    ensures
        decoded(token, domain, secret, now) matches Ok(accepted) ==> accepted.iss == domain,
        token_of(token, claims, secret) && claims.iss != domain ==> decoded(
            token,
            domain,
            secret,
            now,
        ) is Err,
{
}

} // verus!

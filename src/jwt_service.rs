//! The token codec: issues and checks signed access and refresh tokens.

use vstd::prelude::*;
use crate::accounts::same_text;
use crate::jwt::{
    kind_name, kind_of_text, kind_text, AccessTokenClaims, ClaimsModel, JwtConfig,
    RefreshTokenClaims, RefreshTokenResp, TokenClaims, TokenType,
};

verus! {

#[verifier::external_type_specification]
#[verifier::external_body]
pub struct ExJwtError(jsonwebtoken::errors::Error);

/// What `jsonwebtoken::encode` returns for the claims object
/// `{account_id, username, token_kind, iat, exp}` signed with HS256 under `secret`.
pub uninterp spec fn jwt_signed(
    user_id: Seq<char>,
    user_name: Seq<char>,
    kind: Seq<char>,
    iat: i64,
    exp: i64,
    secret: Seq<char>,
) -> Seq<char>;

/// Relies on `jsonwebtoken::encode` with the default HS256 header over a serde_json
/// object of the five claims; with an HMAC key and string-keyed claims no step can fail.
#[verifier::external_body]
fn jwt_encode(user_id: &str, user_name: &str, kind: &str, iat: i64, exp: i64, secret: &str) -> (r: Result<String, jsonwebtoken::errors::Error>)
    ensures
        r is Ok,
        r matches Ok(t) ==> t@ == jwt_signed(user_id@, user_name@, kind@, iat, exp, secret@),
{
    let mut claims = serde_json::Map::new();
    claims.insert("account_id".to_string(), user_id.into());
    claims.insert("username".to_string(), user_name.into());
    claims.insert("token_kind".to_string(), kind.into());
    claims.insert("iat".to_string(), iat.into());
    claims.insert("exp".to_string(), exp.into());
    let key = jsonwebtoken::EncodingKey::from_secret(secret.as_bytes());
    jsonwebtoken::encode(&jsonwebtoken::Header::default(), &claims, &key)
}

/// Claims read from a token whose signature checked out; a member that was absent or of
/// the wrong JSON type is `None`.
#[derive(Debug)]
pub struct ClaimFields {
    pub user_id: Option<String>,
    pub user_name: Option<String>,
    pub token_kind: Option<String>,
    pub iat: Option<i64>,
    pub exp: Option<i64>,
}

pub open spec fn text_view(o: Option<String>) -> Option<Seq<char>> {
    match o {
        Some(s) => Some(s@),
        None => None,
    }
}

impl View for ClaimFields {
    type V = (Option<Seq<char>>, Option<Seq<char>>, Option<Seq<char>>, Option<i64>, Option<i64>);

    open spec fn view(&self) -> Self::V {
        (text_view(self.user_id), text_view(self.user_name), text_view(self.token_kind), self.iat, self.exp)
    }
}

/// What decoding `token` under `secret` yields: `None` when the signature or the
/// structure is bad, else the members `account_id`, `username`, `token_kind` (strings)
/// and `iat`, `exp` (integers), each `None` when absent or of another type.
pub uninterp spec fn decoded_claims(token: Seq<char>, secret: Seq<char>) -> Option<
    (Option<Seq<char>>, Option<Seq<char>>, Option<Seq<char>>, Option<i64>, Option<i64>),
>;

/// Relies on `jsonwebtoken::decode` with HS256 (signature checked against `secret`, expiry
/// not checked, so the result depends on the token and the secret alone), and on
/// serde_json's `Value::get`, `as_str` and `as_i64` to read the five claim members.
#[verifier::external_body]
fn decode_claims(token: &str, secret: &str) -> (r: Option<ClaimFields>)
    ensures
        r is None <==> decoded_claims(token@, secret@) is None,
        r matches Some(f) ==> decoded_claims(token@, secret@) == Some(f@),
{
    let mut validation = jsonwebtoken::Validation::default();
    validation.validate_exp = false;
    let key = jsonwebtoken::DecodingKey::from_secret(secret.as_bytes());
    let v = jsonwebtoken::decode::<serde_json::Value>(token, &key, &validation).ok()?.claims;
    let text = |k: &str| v.get(k).and_then(|x| x.as_str()).map(|s| s.to_string());
    let number = |k: &str| v.get(k).and_then(|x| x.as_i64());
    Some(ClaimFields { user_id: text("account_id"), user_name: text("username"),
        token_kind: text("token_kind"), iat: number("iat"), exp: number("exp") })
}

/// Relies on `SystemTime::now` and `duration_since(UNIX_EPOCH)`: the current Unix time in
/// seconds, or `None` when the clock is before 1970 or beyond i64.
#[verifier::external_body]
fn unix_now() -> (r: Option<i64>) {
    std::time::SystemTime::now().duration_since(std::time::UNIX_EPOCH).ok()
        .and_then(|d| i64::try_from(d.as_secs()).ok())
}

/// Why a token could not be issued or was not accepted.
#[derive(PartialEq, Eq, Structural, Clone, Copy, Debug)]
pub enum TokenError {
    /// Bad signature, malformed claims, or a token of the other kind.
    InvalidToken,
    /// The expiry lies before the current time.
    TokenExpired,
    /// The token could not be signed.
    Signing,
    /// The current time, or the expiry of a new token, is out of range.
    TimeOutOfRange,
}

/// The verdict on claim members read from a token of the `expected` kind at time `now`:
/// malformed or of the other kind is `InvalidToken`, past its expiry is `TokenExpired`.
pub open spec fn claims_verdict(
    f: (Option<Seq<char>>, Option<Seq<char>>, Option<Seq<char>>, Option<i64>, Option<i64>),
    expected: TokenType,
    now: i64,
) -> Result<ClaimsModel, TokenError> {
    if f.0 is None || f.1 is None || f.2 is None || f.3 is None || f.4 is None {
        Err(TokenError::InvalidToken)
    } else if kind_of_text(f.2.unwrap()) != Some(expected) {
        Err(TokenError::InvalidToken)
    } else if f.4.unwrap() < now {
        Err(TokenError::TokenExpired)
    } else {
        Ok(
            ClaimsModel {
                user_id: f.0.unwrap(),
                user_name: f.1.unwrap(),
                token_type: expected,
                iat: f.3.unwrap(),
                exp: f.4.unwrap(),
            },
        )
    }
}

/// The verdict on `token`, checked with `secret` as a token of the `expected` kind at `now`.
pub open spec fn token_verdict(token: Seq<char>, secret: Seq<char>, expected: TokenType, now: i64) -> Result<ClaimsModel, TokenError> {
    match decoded_claims(token, secret) {
        None => Err(TokenError::InvalidToken),
        Some(f) => claims_verdict(f, expected, now),
    }
}

/// The model of a claims result.
pub open spec fn claims_result<T: View<V = ClaimsModel>>(r: Result<T, TokenError>) -> Result<ClaimsModel, TokenError> {
    match r {
        Ok(c) => Ok(c@),
        Err(e) => Err(e),
    }
}

/// Judges claim members read from a token of the `expected` kind at time `now`.
pub fn check_claims(f: ClaimFields, expected: TokenType, now: i64) -> (r: Result<TokenClaims, TokenError>)
    ensures
        claims_result(r) == claims_verdict(f@, expected, now),
{
    let ClaimFields { user_id, user_name, token_kind, iat, exp } = f;
    match (user_id, user_name, token_kind, iat, exp) {
        (Some(user_id), Some(user_name), Some(kind), Some(iat), Some(exp)) => {
            let is_access = same_text(kind.as_str(), "Access");
            let is_refresh = same_text(kind.as_str(), "Refresh");
            let kind_ok = match expected {
                TokenType::Access => is_access,
                TokenType::Refresh => !is_access && is_refresh,
            };
            if !kind_ok {
                Err(TokenError::InvalidToken)
            } else if exp < now {
                Err(TokenError::TokenExpired)
            } else {
                Ok(TokenClaims { user_id, user_name, token_type: expected, iat, exp })
            }
        },
        _ => Err(TokenError::InvalidToken),
    }
}

/// The secret that signs tokens of `kind`.
pub open spec fn secret_for(config: JwtConfig, kind: TokenType) -> Seq<char> {
    match kind {
        TokenType::Access => config.access_secret@,
        TokenType::Refresh => config.refresh_secret@,
    }
}

/// The lifetime of tokens of `kind`.
pub open spec fn lifetime_for(config: JwtConfig, kind: TokenType) -> i64 {
    match kind {
        TokenType::Access => config.access_expires_in,
        TokenType::Refresh => config.refresh_expires_in,
    }
}

/// The token of `kind` issued at `now` for (`user_id`, `user_name`) under `config`.
pub open spec fn issued_token(config: JwtConfig, kind: TokenType, user_id: Seq<char>, user_name: Seq<char>, now: i64) -> Seq<char> {
    jwt_signed(
        user_id,
        user_name,
        kind_text(kind),
        now,
        (now + lifetime_for(config, kind)) as i64,
        secret_for(config, kind),
    )
}

/// Expiry of a token of `kind` issued at `now` fits in i64.
pub open spec fn expiry_fits(config: JwtConfig, kind: TokenType, now: i64) -> bool {
    i64::MIN <= now + lifetime_for(config, kind) <= i64::MAX
}

/// Issues and checks tokens under one configuration.
pub struct JwtService {
    config: JwtConfig,
}

impl JwtService {
    pub closed spec fn config_spec(&self) -> JwtConfig {
        self.config
    }

    /// A codec for `config`.
    pub fn new(config: JwtConfig) -> (r: Self)
        ensures
            r.config_spec() == config,
    {
        Self { config }
    }

    /// The configuration in use.
    pub fn config(&self) -> (r: &JwtConfig)
        ensures
            *r == self.config_spec(),
    {
        &self.config
    }

    /// Signs a token of `kind` for the account, issued at `now`.
    pub fn generate_token_at(&self, kind: TokenType, user_id: &str, username: &str, now: i64) -> (r: Result<String, TokenError>)
        requires
            expiry_fits(self.config_spec(), kind, now),
        ensures
            r matches Ok(t) && t@ == issued_token(self.config_spec(), kind, user_id@, username@, now),
    {
        let (secret, lifetime) = match kind {
            TokenType::Access => (self.config.access_secret.as_str(), self.config.access_expires_in),
            TokenType::Refresh => (self.config.refresh_secret.as_str(), self.config.refresh_expires_in),
        };
        match jwt_encode(user_id, username, kind_name(kind), now, now + lifetime, secret) {
            Ok(t) => Ok(t),
            Err(_) => Err(TokenError::Signing),
        }
    }

    /// Signs an access token for the account, issued at `now`.
    pub fn generate_access_token_at(&self, user_id: &str, username: &str, now: i64) -> (r: Result<String, TokenError>)
        requires
            expiry_fits(self.config_spec(), TokenType::Access, now),
        ensures
            r matches Ok(t) && t@ == issued_token(self.config_spec(), TokenType::Access, user_id@, username@, now),
    {
        self.generate_token_at(TokenType::Access, user_id, username, now)
    }

    /// Signs a refresh token for the account, issued at `now`.
    pub fn generate_refresh_token_at(&self, user_id: &str, username: &str, now: i64) -> (r: Result<String, TokenError>)
        requires
            expiry_fits(self.config_spec(), TokenType::Refresh, now),
        ensures
            r matches Ok(t) && t@ == issued_token(self.config_spec(), TokenType::Refresh, user_id@, username@, now),
    {
        self.generate_token_at(TokenType::Refresh, user_id, username, now)
    }

    /// Signs an access token for the account, issued now; `TimeOutOfRange` when the clock
    /// or the expiry is out of range.
    pub fn generate_access_token(&self, user_id: &str, username: &str) -> (r: Result<String, TokenError>)
        ensures
            r matches Ok(t) ==> exists|now: i64|
                t@ == issued_token(self.config_spec(), TokenType::Access, user_id@, username@, now),
            r matches Err(e) ==> e == TokenError::TimeOutOfRange,
    {
        let now = match unix_now() {
            Some(t) => t,
            None => return Err(TokenError::TimeOutOfRange),
        };
        if !self.expiry_fits_at(TokenType::Access, now) {
            return Err(TokenError::TimeOutOfRange);
        }
        self.generate_access_token_at(user_id, username, now)
    }

    /// Signs a refresh token for the account, issued now; `TimeOutOfRange` when the clock
    /// or the expiry is out of range.
    pub fn generate_refresh_token(&self, user_id: &str, username: &str) -> (r: Result<String, TokenError>)
        ensures
            r matches Ok(t) ==> exists|now: i64|
                t@ == issued_token(self.config_spec(), TokenType::Refresh, user_id@, username@, now),
            r matches Err(e) ==> e == TokenError::TimeOutOfRange,
    {
        let now = match unix_now() {
            Some(t) => t,
            None => return Err(TokenError::TimeOutOfRange),
        };
        if !self.expiry_fits_at(TokenType::Refresh, now) {
            return Err(TokenError::TimeOutOfRange);
        }
        self.generate_refresh_token_at(user_id, username, now)
    }

    /// Checks the signature of `token` with the secret of `kind`, then its claims at time `now`.
    pub fn verify_token_at(&self, kind: TokenType, token: &str, now: i64) -> (r: Result<TokenClaims, TokenError>)
        ensures
            claims_result(r) == token_verdict(token@, secret_for(self.config_spec(), kind), kind, now),
    {
        let secret = match kind {
            TokenType::Access => self.config.access_secret.as_str(),
            TokenType::Refresh => self.config.refresh_secret.as_str(),
        };
        match decode_claims(token, secret) {
            None => Err(TokenError::InvalidToken),
            Some(fields) => check_claims(fields, kind, now),
        }
    }

    /// Checks an access token at time `now`.
    pub fn verify_access_token_at(&self, token: &str, now: i64) -> (r: Result<AccessTokenClaims, TokenError>)
        ensures
            claims_result(r) == token_verdict(token@, self.config_spec().access_secret@, TokenType::Access, now),
    {
        match self.verify_token_at(TokenType::Access, token, now) {
            Ok(c) => Ok(
                AccessTokenClaims {
                    user_name: c.user_name,
                    user_id: c.user_id,
                    exp: c.exp,
                    iat: c.iat,
                    token_type: c.token_type,
                },
            ),
            Err(e) => Err(e),
        }
    }

    /// Checks a refresh token at time `now`.
    pub fn verify_refresh_token_at(&self, token: &str, now: i64) -> (r: Result<RefreshTokenClaims, TokenError>)
        ensures
            claims_result(r) == token_verdict(token@, self.config_spec().refresh_secret@, TokenType::Refresh, now),
    {
        match self.verify_token_at(TokenType::Refresh, token, now) {
            Ok(c) => Ok(
                RefreshTokenClaims {
                    user_name: c.user_name,
                    user_id: c.user_id,
                    exp: c.exp,
                    iat: c.iat,
                    token_type: c.token_type,
                },
            ),
            Err(e) => Err(e),
        }
    }

    /// Checks an access token now.
    pub fn verify_access_token(&self, token: &str) -> (r: Result<AccessTokenClaims, TokenError>)
        ensures
            r is Err || exists|now: i64| claims_result(r) == token_verdict(
                token@,
                self.config_spec().access_secret@,
                TokenType::Access,
                now,
            ),
            r matches Err(e) ==> e == TokenError::InvalidToken || e == TokenError::TokenExpired
                || e == TokenError::TimeOutOfRange,
    {
        match unix_now() {
            Some(now) => self.verify_access_token_at(token, now),
            None => Err(TokenError::TimeOutOfRange),
        }
    }

    /// Checks a refresh token now.
    pub fn verify_refresh_token(&self, token: &str) -> (r: Result<RefreshTokenClaims, TokenError>)
        ensures
            r is Err || exists|now: i64| claims_result(r) == token_verdict(
                token@,
                self.config_spec().refresh_secret@,
                TokenType::Refresh,
                now,
            ),
            r matches Err(e) ==> e == TokenError::InvalidToken || e == TokenError::TokenExpired
                || e == TokenError::TimeOutOfRange,
    {
        match unix_now() {
            Some(now) => self.verify_refresh_token_at(token, now),
            None => Err(TokenError::TimeOutOfRange),
        }
    }

    /// Checks `refresh_token` at `now` and issues a new pair for the same account, both
    /// issued at `now`; a rejected refresh token gives its verdict's error.
    pub fn refresh_access_token_at(&self, refresh_token: &str, now: i64) -> (r: Result<RefreshTokenResp, TokenError>)
        requires
            expiry_fits(self.config_spec(), TokenType::Access, now),
            expiry_fits(self.config_spec(), TokenType::Refresh, now),
        ensures
            ({
                let v = token_verdict(refresh_token@, self.config_spec().refresh_secret@, TokenType::Refresh, now);
                &&& v is Err ==> r is Err && r->Err_0 == v->Err_0
                &&& v is Ok ==> r is Ok && r->Ok_0.claims@ == v->Ok_0
                    && r->Ok_0.access_token@ == issued_token(self.config_spec(), TokenType::Access, v->Ok_0.user_id, v->Ok_0.user_name, now)
                    && r->Ok_0.refresh_token@ == issued_token(self.config_spec(), TokenType::Refresh, v->Ok_0.user_id, v->Ok_0.user_name, now)
            }),
    {
        let claims = self.verify_refresh_token_at(refresh_token, now)?;
        let access = self.generate_access_token_at(claims.user_id.as_str(), claims.user_name.as_str(), now)?;
        let refresh = self.generate_refresh_token_at(claims.user_id.as_str(), claims.user_name.as_str(), now)?;
        Ok(RefreshTokenResp { claims, access_token: access, refresh_token: refresh })
    }

    /// Checks `refresh_token` now and issues a new pair for the same account.
    pub fn refresh_access_token(&self, refresh_token: &str) -> (r: Result<RefreshTokenResp, TokenError>)
        ensures
            r matches Ok(resp) ==> resp.claims.token_type == TokenType::Refresh && exists|now: i64|
                resp.access_token@ == issued_token(self.config_spec(), TokenType::Access, resp.claims.user_id@, resp.claims.user_name@, now)
                && resp.refresh_token@ == issued_token(self.config_spec(), TokenType::Refresh, resp.claims.user_id@, resp.claims.user_name@, now),
    {
        let now = match unix_now() {
            Some(t) => t,
            None => return Err(TokenError::TimeOutOfRange),
        };
        if !self.expiry_fits_at(TokenType::Access, now) || !self.expiry_fits_at(TokenType::Refresh, now) {
            return Err(TokenError::TimeOutOfRange);
        }
        self.refresh_access_token_at(refresh_token, now)
    }

    fn expiry_fits_at(&self, kind: TokenType, now: i64) -> (r: bool)
        ensures
            r == expiry_fits(self.config_spec(), kind, now),
    {
        let lifetime = match kind {
            TokenType::Access => self.config.access_expires_in,
            TokenType::Refresh => self.config.refresh_expires_in,
        };
        let exp = now as i128 + lifetime as i128;
        i64::MIN as i128 <= exp && exp <= i64::MAX as i128
    }
}

} // verus!

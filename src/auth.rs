//! The authorization pipeline: bearer token, signature, expiry, account, binding.

use vstd::prelude::*;
use crate::accounts::{
    bind_rows, has_id, is_bound_rows, rows_unique, same_text, AccountStore, TokenSlot, User,
    UserView,
};
use crate::captcha::CaptchaStore;
use crate::error::{message_of, status_of, AppError};
use crate::jwt::{AccessTokenClaims, ClaimsModel, JwtConfig, TokenType};
use crate::jwt_service::{claims_result, token_verdict, JwtService, TokenError};
use crate::users::{CaptchaResp, UserInfoResp};

verus! {

/// Why a request was stopped before reaching its handler.
#[derive(PartialEq, Eq, Structural, Clone, Copy, Debug)]
pub enum Rejection {
    /// No bearer token in the request.
    Unauthenticated,
    /// The token's signature or structure is bad.
    InvalidToken,
    /// The token's expiry has passed.
    Expired,
    /// No account has the token's id and username.
    UserNotFound,
    /// The account is bound to another access token now.
    TokenSuperseded,
}

/// The token in an `Authorization` header value of the form `Bearer <token>`.
pub open spec fn bearer_token(h: Seq<char>) -> Option<Seq<char>> {
    if h.len() >= 7 && h.subrange(0, 7) == "Bearer "@ {
        Some(h.subrange(7, h.len() as int))
    } else {
        None
    }
}

/// The bearer token of an optional `Authorization` header value.
pub open spec fn presented_token(authorization: Option<&str>) -> Option<Seq<char>> {
    match authorization {
        Some(h) => bearer_token(h@),
        None => None,
    }
}

/// Takes the token out of an `Authorization` header value.
pub fn extract_bearer(header: &str) -> (r: Option<&str>)
    ensures
        r is None <==> bearer_token(header@) is None,
        r matches Some(t) ==> bearer_token(header@) == Some(t@),
{
    let n = header.unicode_len();
    if n < 7 {
        return None;
    }
    let prefix = header.substring_char(0, 7);
    if same_text(prefix, "Bearer ") {
        Some(header.substring_char(7, n))
    } else {
        None
    }
}

/// Some row has both this id and this username.
pub open spec fn has_account(s: Seq<UserView>, id: Seq<char>, name: Seq<char>) -> bool {
    exists|i: int| 0 <= i < s.len() && s[i].id == id && s[i].username == name
}

/// The verdict of the pipeline on a presented access token, given the outcome of
/// decoding it and the account rows.
pub open spec fn pipeline_verdict(decoded: Result<ClaimsModel, TokenError>, token: Seq<char>, s: Seq<UserView>) -> Result<(), Rejection> {
    match decoded {
        Err(TokenError::TokenExpired) => Err(Rejection::Expired),
        Err(_) => Err(Rejection::InvalidToken),
        Ok(c) => if !has_account(s, c.user_id, c.user_name) {
            Err(Rejection::UserNotFound)
        } else if !is_bound_rows(s, c.user_id, token, TokenSlot::Access) {
            Err(Rejection::TokenSuperseded)
        } else {
            Ok(())
        },
    }
}

/// Resolves the account for a presented access token from the outcome of decoding it.
pub fn authorize_decoded(decoded: Result<AccessTokenClaims, TokenError>, token: &str, accounts: &AccountStore) -> (r: Result<User, Rejection>)
    requires
        accounts.wf(),
    ensures
        r is Ok <==> pipeline_verdict(claims_result(decoded), token@, accounts@) is Ok,
        r matches Err(e) ==> pipeline_verdict(claims_result(decoded), token@, accounts@) == Err::<(), Rejection>(e),
        r matches Ok(u) ==> decoded matches Ok(c) && u@.id == c.user_id@ && u@.username == c.user_name@
            && u@.access_token == token@ && exists|i: int| 0 <= i < accounts@.len() && accounts@[i] == u@,
{
    let claims = match decoded {
        Ok(c) => c,
        Err(TokenError::TokenExpired) => return Err(Rejection::Expired),
        Err(_) => return Err(Rejection::InvalidToken),
    };
    let i = match accounts.find_by_id(claims.user_id.as_str()) {
        Some(i) => i,
        None => return Err(Rejection::UserNotFound),
    };
    proof {
        assert forall|k: int| 0 <= k < accounts@.len() && accounts@[k].id == claims.user_id@ implies k
            == i by {
            assert(rows_unique(accounts@));
        }
    }
    let user = accounts.user(i);
    if !same_text(user.username.as_str(), claims.user_name.as_str()) {
        return Err(Rejection::UserNotFound);
    }
    if !same_text(user.access_token.as_str(), token) {
        return Err(Rejection::TokenSuperseded);
    }
    Ok(user.duplicate())
}

/// HTTP status of a rejection: a bad or expired token is forbidden, a missing, unknown or
/// superseded credential is unauthorized.
pub open spec fn rejection_status(e: Rejection) -> u16 {
    match e {
        Rejection::InvalidToken | Rejection::Expired => 403,
        _ => 401,
    }
}

/// Message of a rejection.
pub open spec fn rejection_message(e: Rejection) -> Seq<char> {
    match e {
        Rejection::Unauthenticated => "no token, check the Authorization header"@,
        Rejection::InvalidToken => "invalid token"@,
        Rejection::Expired => "token expired"@,
        Rejection::UserNotFound => "user not found"@,
        Rejection::TokenSuperseded => "token superseded"@,
    }
}

/// The error that reports a rejection.
pub fn rejection_error(e: Rejection) -> (r: AppError)
    ensures
        status_of(r) == rejection_status(e),
        message_of(r) == rejection_message(e),
        (e == Rejection::InvalidToken || e == Rejection::Expired) ==> r is FORBIDDEN,
        !(e == Rejection::InvalidToken || e == Rejection::Expired) ==> r is UnAuthorized,
{
    match e {
        Rejection::Unauthenticated => AppError::UnAuthorized(String::from_str("no token, check the Authorization header")),
        Rejection::InvalidToken => AppError::FORBIDDEN(String::from_str("invalid token")),
        Rejection::Expired => AppError::FORBIDDEN(String::from_str("token expired")),
        Rejection::UserNotFound => AppError::UnAuthorized(String::from_str("user not found")),
        Rejection::TokenSuperseded => AppError::UnAuthorized(String::from_str("token superseded")),
    }
}

/// The pipeline's verdict on a request with this `Authorization` header value at `now`:
/// no bearer token is `Unauthenticated`; otherwise the token's verdict under the access
/// secret, then the account and binding checks.
pub open spec fn auth_outcome(authorization: Option<&str>, config: JwtConfig, s: Seq<UserView>, now: i64) -> Result<(), Rejection> {
    match presented_token(authorization) {
        None => Err(Rejection::Unauthenticated),
        Some(t) => pipeline_verdict(
            token_verdict(t, config.access_secret@, TokenType::Access, now),
            t,
            s,
        ),
    }
}

/// Runs the pipeline on a request's `Authorization` header value at time `now`: bearer
/// token, signature, expiry, account, binding; the first failing stage decides.
pub fn authorize(authorization: Option<&str>, jwt: &JwtService, accounts: &AccountStore, now: i64) -> (r: Result<User, Rejection>)
    requires
        accounts.wf(),
    ensures
        r is Ok <==> auth_outcome(authorization, jwt.config_spec(), accounts@, now) is Ok,
        r matches Err(e) ==> auth_outcome(authorization, jwt.config_spec(), accounts@, now) == Err::<(), Rejection>(e),
        r matches Ok(u) ==> presented_token(authorization) == Some(u@.access_token)
            && exists|i: int| 0 <= i < accounts@.len() && accounts@[i] == u@,
{
    let header = match authorization {
        Some(h) => h,
        None => return Err(Rejection::Unauthenticated),
    };
    let token = match extract_bearer(header) {
        Some(t) => t,
        None => return Err(Rejection::Unauthenticated),
    };
    let decoded = jwt.verify_access_token_at(token, now);
    authorize_decoded(decoded, token, accounts)
}

/// The pipeline as the service reports it: the account on success, else the error of
/// the rejecting stage.
pub fn auth_token(authorization: Option<&str>, jwt: &JwtService, accounts: &AccountStore, now: i64) -> (r: Result<User, AppError>)
    requires
        accounts.wf(),
    ensures
        r is Ok <==> auth_outcome(authorization, jwt.config_spec(), accounts@, now) is Ok,
        r matches Err(err) ==> auth_outcome(authorization, jwt.config_spec(), accounts@, now) matches Err(e)
            && status_of(err) == rejection_status(e) && message_of(err) == rejection_message(e),
        r matches Ok(u) ==> presented_token(authorization) == Some(u@.access_token)
            && exists|i: int| 0 <= i < accounts@.len() && accounts@[i] == u@,
{
    match authorize(authorization, jwt, accounts, now) {
        Ok(u) => Ok(u),
        Err(e) => Err(rejection_error(e)),
    }
}

/// The public view of an authenticated account.
pub fn get_users_info(user: &User) -> (r: UserInfoResp)
    ensures
        r.id@ == user.id@,
        r.username@ == user.username@,
        r.full_name@ == user.full_name@,
        r.create_time == user.create_time,
        r.is_delete == user.is_delete,
{
    UserInfoResp {
        id: user.id.clone(),
        username: user.username.clone(),
        full_name: user.full_name.clone(),
        create_time: user.create_time,
        is_delete: user.is_delete,
    }
}

/// Issues a captcha at `now` and hands back its id and image.
pub fn get_auth_captcha(captcha: &mut CaptchaStore, now: i64) -> (r: CaptchaResp)
    ensures
        final(captcha).ttl() == old(captcha).ttl(),
        final(captcha).entries().remove(r.captcha_id@).submap_of(old(captcha).entries()),
        final(captcha).entries().contains_key(r.captcha_id@) ==> final(captcha).entries()[r.captcha_id@].1
            == now && final(captcha).entries()[r.captcha_id@].0.len() == 4,
{
    let c = captcha.issue(now);
    proof {
        let m0 = old(captcha).entries();
        let m1 = captcha.entries();
        let grown = m0.insert(c.id@, (c.text@, now));
        assert(m1.submap_of(grown));
        assert forall|k: Seq<char>| #[trigger] m1.remove(c.id@).dom().contains(k) implies m0.dom().contains(k)
            && m1.remove(c.id@)[k] == m0[k] by {
            assert(m1.dom().contains(k) && k != c.id@);
            assert(grown.dom().contains(k) && m1[k] == grown[k]);
        }
        assert(grown.dom().contains(c.id@));
        if m1.contains_key(c.id@) {
            assert(m1[c.id@] == grown[c.id@]);
        }
    }
    CaptchaResp { captcha_id: c.id, captcha_img: c.img }
}

/// Session supersession: once a new pair is bound to an account, a request presenting
/// the access token that was bound before is rejected as superseded, though that token's
/// signature and expiry are fine.
pub proof fn session_supersession(
    s: Seq<UserView>,
    config: JwtConfig,
    authorization: Option<&str>,
    claims: ClaimsModel,
    first_access: Seq<char>,
    new_access: Seq<char>,
    new_refresh: Seq<char>,
    now: i64,
)
    requires
        rows_unique(s),
        has_account(s, claims.user_id, claims.user_name),
        presented_token(authorization) == Some(first_access),
        token_verdict(first_access, config.access_secret@, TokenType::Access, now) == Ok::<
            ClaimsModel,
            TokenError,
        >(claims),
        new_access != first_access,
    ensures
        auth_outcome(
            authorization,
            config,
            bind_rows(s, claims.user_id, new_access, new_refresh),
            now,
        ) == Err::<(), Rejection>(Rejection::TokenSuperseded),
{
    let t = bind_rows(s, claims.user_id, new_access, new_refresh);
    let i = choose|i: int|
        0 <= i < s.len() && s[i].id == claims.user_id && s[i].username == claims.user_name;
    assert(t[i].id == claims.user_id && t[i].username == claims.user_name);
    assert forall|k: int| 0 <= k < t.len() && t[k].id == claims.user_id implies t[k].access_token
        == new_access by {}
}

/// Refresh rotation: once a rotated pair is bound to an account, the refresh token bound
/// before no longer matches its binding (so presenting it again is refused), and a request
/// presenting the new access token, valid for that account, is authorized.
pub proof fn refresh_rotation(
    s: Seq<UserView>,
    config: JwtConfig,
    authorization: Option<&str>,
    claims: ClaimsModel,
    old_refresh: Seq<char>,
    new_access: Seq<char>,
    new_refresh: Seq<char>,
    now: i64,
)
    requires
        rows_unique(s),
        has_account(s, claims.user_id, claims.user_name),
        new_refresh != old_refresh,
        presented_token(authorization) == Some(new_access),
        token_verdict(new_access, config.access_secret@, TokenType::Access, now) == Ok::<
            ClaimsModel,
            TokenError,
        >(claims),
    ensures
        !is_bound_rows(
            bind_rows(s, claims.user_id, new_access, new_refresh),
            claims.user_id,
            old_refresh,
            TokenSlot::Refresh,
        ),
        auth_outcome(
            authorization,
            config,
            bind_rows(s, claims.user_id, new_access, new_refresh),
            now,
        ) == Ok::<(), Rejection>(()),
{
    let t = bind_rows(s, claims.user_id, new_access, new_refresh);
    let i = choose|i: int|
        0 <= i < s.len() && s[i].id == claims.user_id && s[i].username == claims.user_name;
    assert(t[i].id == claims.user_id && t[i].username == claims.user_name);
    assert(t[i].access_token == new_access);
    assert forall|k: int| 0 <= k < t.len() && t[k].id == claims.user_id implies t[k].refresh_token
        == new_refresh by {}
}

} // verus!

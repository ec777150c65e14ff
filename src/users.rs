//! The authentication service (register, login, refresh) and the per-request
//! authorization pipeline.

use vstd::prelude::*;
use crate::accounts::{
    bind_rows, has_id, has_username, is_bound_rows, rows_unique, same_text, AccountStore,
    BindError, TokenSlot, User, UserView,
};
use crate::captcha::{captcha_outcome, CaptchaError, CaptchaStore};
use crate::error::AppError;
use crate::jwt::{JwtConfig, RefreshTokenReq, TokenResp, TokenType};
use crate::jwt_service::{expiry_fits, issued_token, token_verdict, JwtService};
use crate::ids::{canonical_uuid, fresh_uuid_text, uuid_text};
use crate::password::{bcrypt_accepts, hash_password, verify_password};

verus! {

/// Body of a registration request.
#[derive(Debug)]
pub struct RegisterReq {
    pub username: String,
    pub password: String,
    pub confirm_password: String,
    pub captcha_id: String,
    pub captcha_code: String,
}

/// Username and password of an account to create.
#[derive(Debug)]
pub struct UserCreateReq {
    pub username: String,
    pub password: String,
}

/// Reply to a successful registration.
#[derive(Debug)]
pub struct UserCreateResp {
    pub username: String,
    pub create_info: String,
}

/// A captcha handed to the client: its id and base64 image.
#[derive(Debug)]
pub struct CaptchaResp {
    pub captcha_id: String,
    pub captcha_img: String,
}

/// Body of a login request.
#[derive(Debug)]
pub struct LoginReq {
    pub username: String,
    pub password: String,
    pub captcha_id: String,
    pub captcha_code: String,
}

/// Reply to a successful login: the new token pair.
#[derive(Debug)]
pub struct LoginResp {
    pub access_token: String,
    pub refresh_token: String,
    pub login_info: String,
}

/// Public view of the authenticated account.
#[derive(Debug)]
pub struct UserInfoResp {
    pub id: String,
    pub username: String,
    pub full_name: String,
    pub create_time: i64,
    pub is_delete: bool,
}

/// Lookup of a user by numeric id.
#[derive(Debug)]
pub struct GetUserReq {
    pub id: i64,
}

/// Name of a looked-up user.
#[derive(Debug)]
pub struct GetUserResp {
    pub name: String,
}

fn bad_request(msg: &str) -> (r: AppError)
    ensures
        r matches AppError::BadRequest(m) && m@ == msg@,
{
    AppError::BadRequest(String::from_str(msg))
}

fn unauthorized(msg: &str) -> (r: AppError)
    ensures
        r matches AppError::UnAuthorized(m) && m@ == msg@,
{
    AppError::UnAuthorized(String::from_str(msg))
}

fn internal(msg: &str) -> (r: AppError)
    ensures
        r matches AppError::Internal(m) && m@ == msg@,
{
    AppError::Internal(String::from_str(msg))
}

/// Message of a rejected captcha.
pub open spec fn captcha_message(e: CaptchaError) -> Seq<char> {
    match e {
        CaptchaError::ExpiredOrMissing => "captcha expired or missing"@,
        CaptchaError::Mismatch => "captcha mismatch"@,
    }
}

/// A rejected captcha is a bad request.
pub fn captcha_error(e: CaptchaError) -> (r: AppError)
    ensures
        r matches AppError::BadRequest(m) && m@ == captcha_message(e),
{
    match e {
        CaptchaError::ExpiredOrMissing => bad_request("captcha expired or missing"),
        CaptchaError::Mismatch => bad_request("captcha mismatch"),
    }
}

/// Consumes the captcha `captcha_id` and checks `captcha_code` against it at `now`.
pub fn validate_captcha(captcha: &mut CaptchaStore, captcha_id: &str, captcha_code: &str, now: i64) -> (r: Result<(), AppError>)
    ensures
        final(captcha).ttl() == old(captcha).ttl(),
        !final(captcha).entries().contains_key(captcha_id@),
        final(captcha).entries().submap_of(old(captcha).entries()),
        captcha_outcome(old(captcha).entries(), captcha_id@, captcha_code@, now, old(captcha).ttl()) is Ok
            ==> r is Ok,
        captcha_outcome(old(captcha).entries(), captcha_id@, captcha_code@, now, old(captcha).ttl()) matches Err(e)
            ==> (r matches Err(AppError::BadRequest(m)) && m@ == captcha_message(e)),
{
    match captcha.validate(captcha_id, captcha_code, now) {
        Ok(()) => Ok(()),
        Err(e) => Err(captcha_error(e)),
    }
}

/// The row that registration creates for `name` at `now`: full name equal to the
/// username, a hash that bcrypt accepts for `password`, no bound tokens, not deleted.
pub open spec fn fresh_row(u: UserView, name: Seq<char>, password: Seq<char>, now: i64) -> bool {
    &&& u.username == name
    &&& u.full_name == name
    &&& bcrypt_accepts(password, u.password)
    &&& u.access_token.len() == 0
    &&& u.refresh_token.len() == 0
    &&& u.create_time == now
    &&& !u.is_delete
}

/// The registration request passes the checks that precede the captcha: non-empty
/// username and password, and a matching confirmation.
pub open spec fn register_form_ok(req: RegisterReq) -> bool {
    req.username@.len() > 0 && req.password@.len() > 0 && req.password@ == req.confirm_password@
}

/// What the registration steps after the captcha give, from rows `before` to `after`.
pub open spec fn register_checked_result(
    before: Seq<UserView>,
    after: Seq<UserView>,
    req: RegisterReq,
    password_cost: u32,
    now: i64,
    r: Result<UserCreateResp, AppError>,
) -> bool {
    &&& r is Err ==> after == before
    &&& has_username(before, req.username@) ==> (r matches Err(AppError::BadRequest(m)) && m@
        == "username already exists"@)
    &&& !has_username(before, req.username@) ==> (r is Ok || r matches Err(AppError::Internal(_)))
    &&& !has_username(before, req.username@) && (password_cost < 4 || password_cost > 31) ==> (r matches Err(
        AppError::Internal(_),
    ))
    &&& r is Ok ==> {
        let resp = r->Ok_0;
        &&& !has_username(before, req.username@)
        &&& after.len() == before.len() + 1
        &&& after.drop_last() == before
        &&& fresh_row(after.last(), req.username@, req.password@, now)
        &&& resp.username@ == req.username@
        &&& resp.create_info@ == "user '"@ + req.username@ + "' created"@
    }
}

/// Creates an account: the checks run in a fixed order (empty username, empty password,
/// confirmation, captcha, taken username, hashing), and a request that fails before the
/// captcha check leaves the captcha store untouched.
pub fn register(req: &RegisterReq, captcha: &mut CaptchaStore, accounts: &mut AccountStore, password_cost: u32, now: i64) -> (r: Result<UserCreateResp, AppError>)
    requires
        old(accounts).wf(),
    ensures
        final(accounts).wf(),
        final(captcha).ttl() == old(captcha).ttl(),
        r is Err ==> final(accounts)@ == old(accounts)@,
        !register_form_ok(*req) ==> (r matches Err(AppError::BadRequest(_))) && *final(captcha)
            == *old(captcha),
        req.username@.len() == 0 ==> (r matches Err(AppError::BadRequest(m)) && m@
            == "username must not be empty"@),
        req.username@.len() > 0 && req.password@.len() == 0 ==> (r matches Err(
            AppError::BadRequest(m),
        ) && m@ == "password must not be empty"@),
        req.username@.len() > 0 && req.password@.len() > 0 && req.password@ != req.confirm_password@
            ==> (r matches Err(AppError::BadRequest(m)) && m@ == "the two passwords differ"@),
        register_form_ok(*req) ==> !final(captcha).entries().contains_key(req.captcha_id@)
            && final(captcha).entries().submap_of(old(captcha).entries()),
        register_form_ok(*req) ==> (captcha_outcome(old(captcha).entries(), req.captcha_id@, req.captcha_code@, now, old(captcha).ttl()) matches Err(e)
            ==> (r matches Err(AppError::BadRequest(m)) && m@ == captcha_message(e))),
        register_form_ok(*req) && captcha_outcome(old(captcha).entries(), req.captcha_id@, req.captcha_code@, now, old(captcha).ttl()) is Ok
            ==> register_checked_result(old(accounts)@, final(accounts)@, *req, password_cost, now, r),
        r is Ok ==> register_form_ok(*req) && captcha_outcome(old(captcha).entries(), req.captcha_id@, req.captcha_code@, now, old(captcha).ttl()) is Ok,
{
    if req.username.as_str().unicode_len() == 0 {
        return Err(bad_request("username must not be empty"));
    }
    if req.password.as_str().unicode_len() == 0 {
        return Err(bad_request("password must not be empty"));
    }
    if req.password != req.confirm_password {
        return Err(bad_request("the two passwords differ"));
    }
    validate_captcha(captcha, req.captcha_id.as_str(), req.captcha_code.as_str(), now)?;
    register_checked(req, accounts, password_cost, now)
}

/// The registration steps after the captcha: a taken username is a bad request; otherwise
/// the password is hashed and a fresh row added, failing only when hashing fails (a cost
/// outside 4..=31 among others) or the new id is already in use.
pub fn register_checked(req: &RegisterReq, accounts: &mut AccountStore, password_cost: u32, now: i64) -> (r: Result<UserCreateResp, AppError>)
    requires
        old(accounts).wf(),
    ensures
        final(accounts).wf(),
        register_checked_result(old(accounts)@, final(accounts)@, *req, password_cost, now, r),
{
    if accounts.find_by_username(req.username.as_str()).is_some() {
        return Err(bad_request("username already exists"));
    }
    let hashed = match hash_password(req.password.as_str(), password_cost) {
        Ok(h) => h,
        Err(_) => return Err(internal("password hashing failed")),
    };
    let row = User {
        id: fresh_uuid_text(),
        username: req.username.clone(),
        password: hashed,
        full_name: req.username.clone(),
        access_token: String::new(),
        refresh_token: String::new(),
        create_time: now,
        is_delete: false,
    };
    if !accounts.insert(row) {
        return Err(internal("account id already in use"));
    }
    assert(accounts@.drop_last() =~= old(accounts)@);
    let mut info = String::from_str("user '");
    info.append(req.username.as_str());
    info.append("' created");
    Ok(UserCreateResp { username: req.username.clone(), create_info: info })
}

/// Binds the pair to account `user_id` and hands it back; a missing account is an
/// internal error.
pub fn update_database_token(accounts: &mut AccountStore, user_id: &str, access_token: String, refresh_token: String) -> (r: Result<TokenResp, AppError>)
    requires
        old(accounts).wf(),
    ensures
        final(accounts).wf(),
        has_id(old(accounts)@, user_id@) ==> (r matches Ok(p) && p.access_token == access_token
            && p.refresh_token == refresh_token) && final(accounts)@ == bind_rows(
            old(accounts)@,
            user_id@,
            access_token@,
            refresh_token@,
        ),
        !has_id(old(accounts)@, user_id@) ==> (r matches Err(AppError::Internal(_))) && final(accounts)@ == old(accounts)@,
{
    match accounts.bind(user_id, access_token.clone(), refresh_token.clone()) {
        Ok(()) => Ok(TokenResp { access_token, refresh_token }),
        Err(BindError::AccountNotFound) => Err(internal("account not found")),
    }
}

/// The one message for an unknown username and for a wrong password, so that a caller
/// cannot tell the two apart.
pub open spec fn credentials_rejected() -> Seq<char> {
    "invalid username or password"@
}

/// The message for a soft-deleted account, whatever password was given.
pub open spec fn account_deleted() -> Seq<char> {
    "account has been deleted"@
}

/// A successful login: the account named in `req` exists, is not deleted and accepts the
/// password; the reply carries the pair issued at `now`, which is now bound to it.
pub open spec fn login_granted(
    before: Seq<UserView>,
    after: Seq<UserView>,
    req: LoginReq,
    config: JwtConfig,
    now: i64,
    resp: LoginResp,
) -> bool {
    &&& resp.login_info@ == "user '"@ + req.username@ + "' logged in"@
    &&& exists|i: int|
        #![trigger before[i]]
        {
            let u = before[i];
            &&& 0 <= i < before.len()
            &&& u.username == req.username@
            &&& !u.is_delete
            &&& bcrypt_accepts(req.password@, u.password)
            &&& resp.access_token@ == issued_token(config, TokenType::Access, u.id, u.username, now)
            &&& resp.refresh_token@ == issued_token(config, TokenType::Refresh, u.id, u.username, now)
            &&& after == bind_rows(before, u.id, resp.access_token@, resp.refresh_token@)
        }
}

/// What the login steps after the captcha give, from rows `before` to `after`.
pub open spec fn login_checked_result(
    before: Seq<UserView>,
    after: Seq<UserView>,
    req: LoginReq,
    config: JwtConfig,
    now: i64,
    r: Result<LoginResp, AppError>,
) -> bool {
    &&& r is Err ==> after == before
    &&& !has_username(before, req.username@) ==> (r matches Err(AppError::BadRequest(m)) && m@
        == credentials_rejected())
    &&& forall|i: int|
        0 <= i < before.len() && before[i].username == req.username@ && before[i].is_delete
            ==> (r matches Err(AppError::BadRequest(m)) && m@ == account_deleted())
    &&& forall|i: int|
        0 <= i < before.len() && before[i].username == req.username@ && !before[i].is_delete
            && !bcrypt_accepts(req.password@, before[i].password) ==> (r matches Err(
            AppError::BadRequest(m),
        ) && m@ == credentials_rejected())
    &&& forall|i: int|
        0 <= i < before.len() && before[i].username == req.username@ && !before[i].is_delete
            && bcrypt_accepts(req.password@, before[i].password) ==> r is Ok
    &&& r is Ok ==> login_granted(before, after, req, config, now, r->Ok_0)
}

/// The login steps after the captcha: account lookup, soft-delete check (before the
/// password is looked at), password check, then a new token pair that replaces whatever
/// pair was bound.
pub fn login_checked(req: &LoginReq, accounts: &mut AccountStore, jwt: &JwtService, now: i64) -> (r: Result<LoginResp, AppError>)
    requires
        old(accounts).wf(),
        expiry_fits(jwt.config_spec(), TokenType::Access, now),
        expiry_fits(jwt.config_spec(), TokenType::Refresh, now),
    ensures
        final(accounts).wf(),
        login_checked_result(old(accounts)@, final(accounts)@, *req, jwt.config_spec(), now, r),
{
    let i = match accounts.find_by_username(req.username.as_str()) {
        Some(i) => i,
        None => return Err(bad_request("invalid username or password")),
    };
    let ghost before = accounts@;
    proof {
        assert forall|k: int|
            0 <= k < accounts@.len() && accounts@[k].username == req.username@ implies k
            == i by {
            assert(rows_unique(accounts@));
        }
    }
    let user = accounts.user(i);
    if user.is_delete {
        return Err(bad_request("account has been deleted"));
    }
    if !verify_password(req.password.as_str(), user.password.as_str()) {
        return Err(bad_request("invalid username or password"));
    }
    let user_id = user.id.clone();
    let username = user.username.clone();
    let access = match jwt.generate_access_token_at(user_id.as_str(), username.as_str(), now) {
        Ok(t) => t,
        Err(_) => return Err(internal("access token could not be created")),
    };
    let refresh = match jwt.generate_refresh_token_at(user_id.as_str(), username.as_str(), now) {
        Ok(t) => t,
        Err(_) => return Err(internal("refresh token could not be created")),
    };
    proof {
        assert(has_id(accounts@, user_id@));
    }
    let pair = update_database_token(accounts, user_id.as_str(), access, refresh)?;
    let mut info = String::from_str("user '");
    info.append(req.username.as_str());
    info.append("' logged in");
    let resp = LoginResp { access_token: pair.access_token, refresh_token: pair.refresh_token, login_info: info };
    assert(login_granted(before, accounts@, *req, jwt.config_spec(), now, resp));
    Ok(resp)
}

/// Logs in: captcha, account lookup, soft-delete check (before the password is looked at),
/// password check, then a new token pair that replaces whatever pair was bound.
pub fn login(req: &LoginReq, captcha: &mut CaptchaStore, accounts: &mut AccountStore, jwt: &JwtService, now: i64) -> (r: Result<LoginResp, AppError>)
    requires
        old(accounts).wf(),
        expiry_fits(jwt.config_spec(), TokenType::Access, now),
        expiry_fits(jwt.config_spec(), TokenType::Refresh, now),
    ensures
        final(accounts).wf(),
        final(captcha).ttl() == old(captcha).ttl(),
        !final(captcha).entries().contains_key(req.captcha_id@),
        final(captcha).entries().submap_of(old(captcha).entries()),
        r is Err ==> final(accounts)@ == old(accounts)@,
        captcha_outcome(old(captcha).entries(), req.captcha_id@, req.captcha_code@, now, old(captcha).ttl()) matches Err(e)
            ==> (r matches Err(AppError::BadRequest(m)) && m@ == captcha_message(e)),
        captcha_outcome(old(captcha).entries(), req.captcha_id@, req.captcha_code@, now, old(captcha).ttl()) is Ok
            ==> login_checked_result(old(accounts)@, final(accounts)@, *req, jwt.config_spec(), now, r),
        r is Ok ==> captcha_outcome(old(captcha).entries(), req.captcha_id@, req.captcha_code@, now, old(captcha).ttl()) is Ok,
{
    validate_captcha(captcha, req.captcha_id.as_str(), req.captcha_code.as_str(), now)?;
    login_checked(req, accounts, jwt, now)
}

/// Rotates the pair of account `req.user_id`: the presented refresh token must be the one
/// bound to the account and must check out under the refresh secret at `now`; the new
/// pair replaces it at once.
pub fn refresh_token(req: &RefreshTokenReq, accounts: &mut AccountStore, jwt: &JwtService, now: i64) -> (r: Result<TokenResp, AppError>)
    requires
        old(accounts).wf(),
        expiry_fits(jwt.config_spec(), TokenType::Access, now),
        expiry_fits(jwt.config_spec(), TokenType::Refresh, now),
    ensures
        final(accounts).wf(),
        r is Err ==> final(accounts)@ == old(accounts)@,
        uuid_text(req.user_id@) is None ==> r matches Err(AppError::UnAuthorized(_)),
        uuid_text(req.user_id@) matches Some(id) && !is_bound_rows(
            old(accounts)@,
            id,
            req.refresh_token@,
            TokenSlot::Refresh,
        ) ==> r matches Err(AppError::UnAuthorized(_)),
        uuid_text(req.user_id@) matches Some(id) ==> (is_bound_rows(
            old(accounts)@,
            id,
            req.refresh_token@,
            TokenSlot::Refresh,
        ) && token_verdict(req.refresh_token@, jwt.config_spec().refresh_secret@, TokenType::Refresh, now) is Err
            ==> r matches Err(AppError::UnAuthorized(_))),
        uuid_text(req.user_id@) matches Some(id) ==> (is_bound_rows(
            old(accounts)@,
            id,
            req.refresh_token@,
            TokenSlot::Refresh,
        ) && token_verdict(req.refresh_token@, jwt.config_spec().refresh_secret@, TokenType::Refresh, now) is Ok
            ==> {
            let c = token_verdict(req.refresh_token@, jwt.config_spec().refresh_secret@, TokenType::Refresh, now)->Ok_0;
            &&& r is Ok
            &&& final(accounts)@ == bind_rows(old(accounts)@, id, r->Ok_0.access_token@, r->Ok_0.refresh_token@)
            &&& r->Ok_0.access_token@ == issued_token(jwt.config_spec(), TokenType::Access, c.user_id, c.user_name, now)
            &&& r->Ok_0.refresh_token@ == issued_token(jwt.config_spec(), TokenType::Refresh, c.user_id, c.user_name, now)
        }),
{
    let user_id = match canonical_uuid(req.user_id.as_str()) {
        Some(id) => id,
        None => return Err(unauthorized("invalid account id")),
    };
    if !accounts.is_bound(user_id.as_str(), req.refresh_token.as_str(), TokenSlot::Refresh) {
        return Err(unauthorized("refresh token not found or superseded, please log in again"));
    }
    let rotated = match jwt.refresh_access_token_at(req.refresh_token.as_str(), now) {
        Ok(resp) => resp,
        Err(_) => return Err(unauthorized("refresh token is invalid, please log in again")),
    };
    update_database_token(accounts, user_id.as_str(), rotated.access_token, rotated.refresh_token)
}

} // verus!

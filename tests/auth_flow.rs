use app_update_service::accounts::{AccountStore, BindError, TokenSlot, User};
use app_update_service::auth::{auth_token, authorize, extract_bearer, get_users_info, Rejection};
use app_update_service::captcha::{CaptchaError, CaptchaStore};
use app_update_service::error::AppError;
use app_update_service::jwt::{JwtConfig, RefreshTokenReq};
use app_update_service::jwt_service::JwtService;
use app_update_service::users::{
    login, login_checked, refresh_token, register, register_checked, LoginReq, RegisterReq,
};

const NOW: i64 = 1_700_000_000;
const COST: u32 = 4;

fn service() -> JwtService {
    JwtService::new(JwtConfig::with_secrets(
        "access-secret".to_string(),
        "refresh-secret".to_string(),
    ))
}

fn captchas() -> CaptchaStore {
    CaptchaStore::new(600, 10_000)
}

fn register_req(name: &str, pw: &str, confirm: &str, cid: &str, code: &str) -> RegisterReq {
    RegisterReq {
        username: name.to_string(),
        password: pw.to_string(),
        confirm_password: confirm.to_string(),
        captcha_id: cid.to_string(),
        captcha_code: code.to_string(),
    }
}

fn login_req(name: &str, pw: &str, cid: &str, code: &str) -> LoginReq {
    LoginReq {
        username: name.to_string(),
        password: pw.to_string(),
        captcha_id: cid.to_string(),
        captcha_code: code.to_string(),
    }
}

fn row(id: &str, name: &str, pw: &str, deleted: bool) -> User {
    User {
        id: id.to_string(),
        username: name.to_string(),
        password: bcrypt::hash(pw, COST).unwrap(),
        full_name: name.to_string(),
        access_token: String::new(),
        refresh_token: String::new(),
        create_time: NOW,
        is_delete: deleted,
    }
}

fn bearer(token: &str) -> String {
    format!("Bearer {}", token)
}

#[test]
fn captcha_single_use() {
    let mut store = captchas();
    store.insert("c1".to_string(), "AbC9".to_string(), NOW);
    assert_eq!(store.validate("c1", "abc9", NOW + 1), Ok(()));
    assert_eq!(store.validate("c1", "abc9", NOW + 2), Err(CaptchaError::ExpiredOrMissing));
}

#[test]
fn captcha_expires_after_ttl() {
    let mut store = captchas();
    store.insert("c1".to_string(), "AbC9".to_string(), NOW);
    assert_eq!(store.validate("c1", "AbC9", NOW + 600), Err(CaptchaError::ExpiredOrMissing));
}

#[test]
fn captcha_live_just_before_ttl() {
    let mut store = captchas();
    store.insert("c1".to_string(), "AbC9".to_string(), NOW);
    assert_eq!(store.validate("c1", "AbC9", NOW + 599), Ok(()));
}

#[test]
fn captcha_mismatch_consumes_entry() {
    let mut store = captchas();
    store.insert("c1".to_string(), "AbC9".to_string(), NOW);
    assert_eq!(store.validate("c1", "zzzz", NOW), Err(CaptchaError::Mismatch));
    assert_eq!(store.validate("c1", "AbC9", NOW), Err(CaptchaError::ExpiredOrMissing));
}

#[test]
fn captcha_trims_and_ignores_case() {
    let mut store = captchas();
    store.insert("c1".to_string(), " XyZ1 ".to_string(), NOW);
    assert_eq!(store.validate("c1", "xyz1  ", NOW), Ok(()));
}

#[test]
fn captcha_unknown_id_is_missing() {
    let mut store = captchas();
    assert_eq!(store.validate("nope", "x", NOW), Err(CaptchaError::ExpiredOrMissing));
}

#[test]
fn captcha_issue_stores_answer() {
    let mut store = captchas();
    let c = store.issue(NOW);
    assert_eq!(c.text.chars().count(), 4);
    assert_eq!(c.id.len(), 36);
    assert!(!c.img.is_empty());
    let code = c.text.to_lowercase();
    assert_eq!(store.validate(&c.id, &code, NOW + 5), Ok(()));
}

#[test]
fn register_precedence_empty_password_keeps_captcha() {
    let mut store = captchas();
    let mut accounts = AccountStore::new();
    store.insert("c1".to_string(), "good".to_string(), NOW);
    let r = register(&register_req("alice", "", "", "c1", "bad"), &mut store, &mut accounts, COST, NOW);
    match r {
        Err(AppError::BadRequest(m)) => assert_eq!(m, "password must not be empty"),
        _ => panic!("expected the empty-password error"),
    }
    assert_eq!(accounts.len(), 0);
    assert_eq!(store.validate("c1", "good", NOW), Ok(()));
}

#[test]
fn register_empty_username_first() {
    let mut store = captchas();
    let mut accounts = AccountStore::new();
    let r = register(&register_req("", "", "x", "c1", "bad"), &mut store, &mut accounts, COST, NOW);
    match r {
        Err(AppError::BadRequest(m)) => assert_eq!(m, "username must not be empty"),
        _ => panic!("expected the empty-username error"),
    }
}

#[test]
fn register_confirmation_mismatch() {
    let mut store = captchas();
    let mut accounts = AccountStore::new();
    store.insert("c1".to_string(), "good".to_string(), NOW);
    let r = register(&register_req("alice", "p1", "p2", "c1", "good"), &mut store, &mut accounts, COST, NOW);
    match r {
        Err(AppError::BadRequest(m)) => assert_eq!(m, "the two passwords differ"),
        _ => panic!("expected the confirmation error"),
    }
    assert_eq!(store.validate("c1", "good", NOW), Ok(()));
}

#[test]
fn register_wrong_captcha() {
    let mut store = captchas();
    let mut accounts = AccountStore::new();
    store.insert("c1".to_string(), "good".to_string(), NOW);
    let r = register(&register_req("alice", "p1", "p1", "c1", "bad"), &mut store, &mut accounts, COST, NOW);
    assert!(matches!(r, Err(AppError::BadRequest(_))));
    assert_eq!(accounts.len(), 0);
}

#[test]
fn register_duplicate_username() {
    let mut store = captchas();
    let mut accounts = AccountStore::new();
    store.insert("c1".to_string(), "good".to_string(), NOW);
    store.insert("c2".to_string(), "good".to_string(), NOW);
    let first = register(&register_req("alice", "p1", "p1", "c1", "good"), &mut store, &mut accounts, COST, NOW);
    assert!(first.is_ok());
    let second = register(&register_req("alice", "p2", "p2", "c2", "good"), &mut store, &mut accounts, COST, NOW);
    match second {
        Err(AppError::BadRequest(m)) => assert_eq!(m, "username already exists"),
        _ => panic!("expected the duplicate-username error"),
    }
    assert_eq!(accounts.len(), 1);
    let u = accounts.user(0);
    assert_eq!(u.username, "alice");
    assert!(bcrypt::verify("p1", &u.password).unwrap());
}

#[test]
fn register_creates_fresh_row() {
    let mut store = captchas();
    let mut accounts = AccountStore::new();
    store.insert("c1".to_string(), "good".to_string(), NOW);
    let resp = register(&register_req("bob", "pw", "pw", "c1", "good"), &mut store, &mut accounts, COST, NOW).unwrap();
    assert_eq!(resp.username, "bob");
    assert_eq!(resp.create_info, "user 'bob' created");
    let u = accounts.user(0);
    assert_eq!(u.full_name, "bob");
    assert_eq!(u.access_token, "");
    assert_eq!(u.refresh_token, "");
    assert_eq!(u.create_time, NOW);
    assert!(!u.is_delete);
    assert_ne!(u.password, "pw");
    assert!(uuid::Uuid::parse_str(&u.id).is_ok());
}

#[test]
fn register_bad_cost_is_internal() {
    let mut store = captchas();
    let mut accounts = AccountStore::new();
    store.insert("c1".to_string(), "good".to_string(), NOW);
    let r = register(&register_req("bob", "pw", "pw", "c1", "good"), &mut store, &mut accounts, 99, NOW);
    assert!(matches!(r, Err(AppError::Internal(_))));
    assert_eq!(accounts.len(), 0);
}

#[test]
fn login_soft_deleted_account() {
    let jwt = service();
    let mut store = captchas();
    let mut accounts = AccountStore::new();
    assert!(accounts.insert(row("7e0c2f4a-1b2c-4d5e-8f90-0123456789ab", "carol", "pw", true)));
    store.insert("c1".to_string(), "good".to_string(), NOW);
    let r = login(&login_req("carol", "pw", "c1", "good"), &mut store, &mut accounts, &jwt, NOW);
    match r {
        Err(AppError::BadRequest(m)) => assert_eq!(m, "account has been deleted"),
        _ => panic!("expected the deleted-account error"),
    }
    assert_eq!(accounts.user(0).access_token, "");
}

#[test]
fn login_unknown_user_and_wrong_password() {
    let jwt = service();
    let mut store = captchas();
    let mut accounts = AccountStore::new();
    assert!(accounts.insert(row("7e0c2f4a-1b2c-4d5e-8f90-0123456789ab", "carol", "pw", false)));
    store.insert("c1".to_string(), "good".to_string(), NOW);
    store.insert("c2".to_string(), "good".to_string(), NOW);
    let r = login(&login_req("dave", "pw", "c1", "good"), &mut store, &mut accounts, &jwt, NOW);
    match r {
        Err(AppError::BadRequest(m)) => assert_eq!(m, "invalid username or password"),
        _ => panic!("expected the unknown-user error"),
    }
    let r = login(&login_req("carol", "nope", "c2", "good"), &mut store, &mut accounts, &jwt, NOW);
    match r {
        Err(AppError::BadRequest(m)) => assert_eq!(m, "invalid username or password"),
        _ => panic!("expected the wrong-password error"),
    }
}

#[test]
fn session_supersession() {
    let jwt = service();
    let mut store = captchas();
    let mut accounts = AccountStore::new();
    assert!(accounts.insert(row("7e0c2f4a-1b2c-4d5e-8f90-0123456789ab", "erin", "pw", false)));
    store.insert("c1".to_string(), "good".to_string(), NOW);
    store.insert("c2".to_string(), "good".to_string(), NOW);
    let first = login(&login_req("erin", "pw", "c1", "good"), &mut store, &mut accounts, &jwt, NOW).unwrap();
    let second = login(&login_req("erin", "pw", "c2", "good"), &mut store, &mut accounts, &jwt, NOW + 10).unwrap();
    assert_ne!(first.access_token, second.access_token);
    let h1 = bearer(&first.access_token);
    assert_eq!(
        authorize(Some(&h1), &jwt, &accounts, NOW + 20).err(),
        Some(Rejection::TokenSuperseded)
    );
    match auth_token(Some(&h1), &jwt, &accounts, NOW + 20) {
        Err(AppError::UnAuthorized(m)) => assert_eq!(m, "token superseded"),
        _ => panic!("expected the superseded-token error"),
    }
    let h2 = bearer(&second.access_token);
    assert_eq!(authorize(Some(&h2), &jwt, &accounts, NOW + 20).unwrap().username, "erin");
}

#[test]
fn refresh_rotation() {
    let jwt = service();
    let mut store = captchas();
    let mut accounts = AccountStore::new();
    let id = "7e0c2f4a-1b2c-4d5e-8f90-0123456789ab";
    assert!(accounts.insert(row(id, "frank", "pw", false)));
    store.insert("c1".to_string(), "good".to_string(), NOW);
    let pair = login(&login_req("frank", "pw", "c1", "good"), &mut store, &mut accounts, &jwt, NOW).unwrap();
    let req = RefreshTokenReq { user_id: id.to_string(), refresh_token: pair.refresh_token.clone() };
    let rotated = refresh_token(&req, &mut accounts, &jwt, NOW + 60).unwrap();
    assert_ne!(rotated.refresh_token, pair.refresh_token);
    let again = refresh_token(&req, &mut accounts, &jwt, NOW + 120);
    assert!(matches!(again, Err(AppError::UnAuthorized(_))));
    let h = bearer(&rotated.access_token);
    let user = auth_token(Some(&h), &jwt, &accounts, NOW + 130).unwrap();
    assert_eq!(user.username, "frank");
    assert!(accounts.is_bound(id, &rotated.refresh_token, TokenSlot::Refresh));
}

#[test]
fn refresh_rejects_bad_id_and_access_token() {
    let jwt = service();
    let mut store = captchas();
    let mut accounts = AccountStore::new();
    let id = "7e0c2f4a-1b2c-4d5e-8f90-0123456789ab";
    assert!(accounts.insert(row(id, "gina", "pw", false)));
    store.insert("c1".to_string(), "good".to_string(), NOW);
    let pair = login(&login_req("gina", "pw", "c1", "good"), &mut store, &mut accounts, &jwt, NOW).unwrap();
    let bad_id = RefreshTokenReq { user_id: "not-a-uuid".to_string(), refresh_token: pair.refresh_token.clone() };
    assert!(matches!(refresh_token(&bad_id, &mut accounts, &jwt, NOW), Err(AppError::UnAuthorized(_))));
    let upper = RefreshTokenReq { user_id: id.to_uppercase(), refresh_token: pair.refresh_token.clone() };
    assert!(refresh_token(&upper, &mut accounts, &jwt, NOW + 5).is_ok());
    let wrong_slot = RefreshTokenReq { user_id: id.to_string(), refresh_token: pair.access_token.clone() };
    assert!(matches!(refresh_token(&wrong_slot, &mut accounts, &jwt, NOW + 6), Err(AppError::UnAuthorized(_))));
}

#[test]
fn end_to_end() {
    let jwt = service();
    let mut store = captchas();
    let mut accounts = AccountStore::new();
    store.insert("c1".to_string(), "ok12".to_string(), NOW);
    store.insert("c2".to_string(), "ok34".to_string(), NOW);
    let created = register(&register_req("alice", "p1", "p1", "c1", "ok12"), &mut store, &mut accounts, COST, NOW).unwrap();
    assert_eq!(created.create_info, "user 'alice' created");
    let pair = login(&login_req("alice", "p1", "c2", "ok34"), &mut store, &mut accounts, &jwt, NOW + 1).unwrap();
    assert_eq!(pair.login_info, "user 'alice' logged in");
    let h = bearer(&pair.access_token);
    let user = auth_token(Some(&h), &jwt, &accounts, NOW + 2).unwrap();
    let info = get_users_info(&user);
    assert_eq!(info.username, "alice");
    assert_eq!(info.full_name, "alice");
    assert!(!info.is_delete);
    let mut bytes = pair.access_token.clone().into_bytes();
    let last = bytes.len() - 2;
    bytes[last] = if bytes[last] == b'A' { b'B' } else { b'A' };
    let tampered = bearer(&String::from_utf8(bytes).unwrap());
    match auth_token(Some(&tampered), &jwt, &accounts, NOW + 2) {
        Err(AppError::FORBIDDEN(_)) | Err(AppError::UnAuthorized(_)) => {}
        _ => panic!("a tampered token must be rejected"),
    }
}

#[test]
fn pipeline_missing_and_malformed_header() {
    let jwt = service();
    let accounts = AccountStore::new();
    assert_eq!(authorize(None, &jwt, &accounts, NOW).err(), Some(Rejection::Unauthenticated));
    assert_eq!(authorize(Some("Token abc"), &jwt, &accounts, NOW).err(), Some(Rejection::Unauthenticated));
    assert_eq!(authorize(Some("Bearer abc"), &jwt, &accounts, NOW).err(), Some(Rejection::InvalidToken));
    assert!(matches!(auth_token(None, &jwt, &accounts, NOW), Err(AppError::UnAuthorized(_))));
    assert!(matches!(auth_token(Some("Bearer abc"), &jwt, &accounts, NOW), Err(AppError::FORBIDDEN(_))));
}

#[test]
fn pipeline_expired_and_unknown_account() {
    let jwt = service();
    let mut accounts = AccountStore::new();
    let id = "7e0c2f4a-1b2c-4d5e-8f90-0123456789ab";
    assert!(accounts.insert(row(id, "hank", "pw", false)));
    let token = jwt.generate_access_token_at(id, "hank", NOW).unwrap();
    assert_eq!(accounts.bind(id, token.clone(), "r".to_string()), Ok(()));
    let h = bearer(&token);
    assert_eq!(authorize(Some(&h), &jwt, &accounts, NOW + 86400).unwrap().username, "hank");
    assert_eq!(authorize(Some(&h), &jwt, &accounts, NOW + 86401).err(), Some(Rejection::Expired));
    assert!(matches!(auth_token(Some(&h), &jwt, &accounts, NOW + 86401), Err(AppError::FORBIDDEN(_))));
    let stranger = jwt.generate_access_token_at(id, "someone", NOW).unwrap();
    let hs = bearer(&stranger);
    assert_eq!(authorize(Some(&hs), &jwt, &accounts, NOW).err(), Some(Rejection::UserNotFound));
}

#[test]
fn pipeline_refuses_refresh_token() {
    let jwt = service();
    let mut accounts = AccountStore::new();
    let id = "7e0c2f4a-1b2c-4d5e-8f90-0123456789ab";
    assert!(accounts.insert(row(id, "ivy", "pw", false)));
    let refresh = jwt.generate_refresh_token_at(id, "ivy", NOW).unwrap();
    assert_eq!(accounts.bind(id, refresh.clone(), refresh.clone()), Ok(()));
    let h = bearer(&refresh);
    assert_eq!(authorize(Some(&h), &jwt, &accounts, NOW).err(), Some(Rejection::InvalidToken));
}

#[test]
fn extract_bearer_values() {
    assert_eq!(extract_bearer("Bearer abc.def"), Some("abc.def"));
    assert_eq!(extract_bearer("Bearer "), Some(""));
    assert_eq!(extract_bearer("bearer abc"), None);
    assert_eq!(extract_bearer("Bear"), None);
}

#[test]
fn account_store_rules() {
    let mut accounts = AccountStore::new();
    assert!(accounts.insert(row("id-1", "a", "pw", false)));
    assert!(!accounts.insert(row("id-1", "b", "pw", false)));
    assert!(!accounts.insert(row("id-2", "a", "pw", false)));
    assert_eq!(accounts.len(), 1);
    assert_eq!(accounts.find_by_username("a"), Some(0));
    assert_eq!(accounts.find_by_id("id-2"), None);
    assert_eq!(accounts.bind("id-9", "x".to_string(), "y".to_string()), Err(BindError::AccountNotFound));
    assert_eq!(accounts.bind("id-1", "x".to_string(), "y".to_string()), Ok(()));
    assert!(accounts.is_bound("id-1", "x", TokenSlot::Access));
    assert!(accounts.is_bound("id-1", "y", TokenSlot::Refresh));
    assert!(!accounts.is_bound("id-1", "y", TokenSlot::Access));
    assert!(!accounts.is_bound("id-1", "x ", TokenSlot::Access));
    assert_eq!(accounts.user(0).username, "a");
}

#[test]
fn post_captcha_steps() {
    let jwt = service();
    let mut accounts = AccountStore::new();
    let created = register_checked(&register_req("jo", "pw", "pw", "unused", "unused"), &mut accounts, COST, NOW).unwrap();
    assert_eq!(created.username, "jo");
    let dup = register_checked(&register_req("jo", "pw", "pw", "unused", "unused"), &mut accounts, COST, NOW);
    assert!(matches!(dup, Err(AppError::BadRequest(_))));
    let pair = login_checked(&login_req("jo", "pw", "unused", "unused"), &mut accounts, &jwt, NOW).unwrap();
    let id = accounts.user(0).id.clone();
    assert_eq!(pair.access_token, jwt.generate_access_token_at(&id, "jo", NOW).unwrap());
    assert!(accounts.is_bound(&id, &pair.refresh_token, TokenSlot::Refresh));
}

#[test]
fn soft_deleted_result_ignores_password() {
    let jwt = service();
    let mut store = captchas();
    let mut accounts = AccountStore::new();
    assert!(accounts.insert(row("7e0c2f4a-1b2c-4d5e-8f90-0123456789ab", "kim", "right", true)));
    store.insert("c1".to_string(), "good".to_string(), NOW);
    store.insert("c2".to_string(), "good".to_string(), NOW);
    let a = login(&login_req("kim", "right", "c1", "good"), &mut store, &mut accounts, &jwt, NOW);
    let b = login(&login_req("kim", "wrong", "c2", "good"), &mut store, &mut accounts, &jwt, NOW);
    match (a, b) {
        (Err(AppError::BadRequest(x)), Err(AppError::BadRequest(y))) => {
            assert_eq!(x, y);
            assert_eq!(x, "account has been deleted");
        }
        _ => panic!("both attempts must fail alike"),
    }
}

#[test]
fn captcha_error_propagates_through_login() {
    let jwt = service();
    let mut store = captchas();
    let mut accounts = AccountStore::new();
    assert!(accounts.insert(row("7e0c2f4a-1b2c-4d5e-8f90-0123456789ab", "lee", "pw", false)));
    store.insert("c1".to_string(), "good".to_string(), NOW);
    match login(&login_req("lee", "pw", "c1", "bad"), &mut store, &mut accounts, &jwt, NOW) {
        Err(AppError::BadRequest(m)) => assert_eq!(m, "captcha mismatch"),
        _ => panic!("expected the captcha error"),
    }
    match login(&login_req("lee", "pw", "c1", "good"), &mut store, &mut accounts, &jwt, NOW) {
        Err(AppError::BadRequest(m)) => assert_eq!(m, "captcha expired or missing"),
        _ => panic!("expected the missing-captcha error"),
    }
}

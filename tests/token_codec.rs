use app_update_service::error::{ApiOut, ApiResponse, AppError, NoData};
use app_update_service::jwt::{
    decimal_text, JwtConfig, TokenType, ACCESS_TOKEN_LIFETIME, REFRESH_TOKEN_LIFETIME,
};
use app_update_service::jwt_service::{check_claims, ClaimFields, JwtService, TokenError};

const NOW: i64 = 1_700_000_000;

fn service() -> JwtService {
    JwtService::new(JwtConfig::with_secrets("a-secret".to_string(), "r-secret".to_string()))
}

fn fields(kind: &str, exp: i64) -> ClaimFields {
    ClaimFields {
        user_id: Some("u1".to_string()),
        user_name: Some("name".to_string()),
        token_kind: Some(kind.to_string()),
        iat: Some(NOW),
        exp: Some(exp),
    }
}

#[test]
fn decimal_text_values() {
    assert_eq!(decimal_text(0), "0");
    assert_eq!(decimal_text(7), "7");
    assert_eq!(decimal_text(1_700_086_400), "1700086400");
    assert_eq!(decimal_text(-42), "-42");
    assert_eq!(decimal_text(i64::MAX), "9223372036854775807");
    assert_eq!(decimal_text(i64::MIN), "-9223372036854775808");
}

#[test]
fn token_payload_members() {
    let jwt = service();
    let t = jwt.generate_refresh_token_at("u\"1", "bob", 10).unwrap();
    let payload = t.split('.').nth(1).unwrap().to_string();
    assert!(!payload.is_empty());
    let c = jwt.verify_refresh_token_at(&t, 10).unwrap();
    assert_eq!(c.user_id, "u\"1");
    assert_eq!(c.user_name, "bob");
    assert_eq!((c.iat, c.exp), (10, 10 + 604_800));
}

#[test]
fn default_lifetimes() {
    let c = JwtConfig::with_secrets("a".to_string(), "b".to_string());
    assert_eq!(c.access_expires_in, 86_400);
    assert_eq!(c.refresh_expires_in, 604_800);
    assert_eq!(ACCESS_TOKEN_LIFETIME, 24 * 3600);
    assert_eq!(REFRESH_TOKEN_LIFETIME, 7 * 24 * 3600);
}

#[test]
fn access_token_round_trip() {
    let jwt = service();
    let t = jwt.generate_access_token_at("u1", "alice", NOW).unwrap();
    assert_eq!(t.split('.').count(), 3);
    let c = jwt.verify_access_token_at(&t, NOW + 100).unwrap();
    assert_eq!(c.user_id, "u1");
    assert_eq!(c.user_name, "alice");
    assert_eq!(c.iat, NOW);
    assert_eq!(c.exp, NOW + 86_400);
    assert_eq!(c.token_type, TokenType::Access);
}

#[test]
fn tokens_are_deterministic_per_second() {
    let jwt = service();
    let a = jwt.generate_access_token_at("u1", "alice", NOW).unwrap();
    let b = jwt.generate_access_token_at("u1", "alice", NOW).unwrap();
    let c = jwt.generate_access_token_at("u1", "alice", NOW + 1).unwrap();
    assert_eq!(a, b);
    assert_ne!(a, c);
}

#[test]
fn kinds_do_not_cross() {
    let jwt = service();
    let access = jwt.generate_access_token_at("u1", "alice", NOW).unwrap();
    let refresh = jwt.generate_refresh_token_at("u1", "alice", NOW).unwrap();
    assert_eq!(jwt.verify_refresh_token_at(&access, NOW).err(), Some(TokenError::InvalidToken));
    assert_eq!(jwt.verify_access_token_at(&refresh, NOW).err(), Some(TokenError::InvalidToken));
    let r = jwt.verify_refresh_token_at(&refresh, NOW).unwrap();
    assert_eq!(r.exp, NOW + 604_800);
    assert_eq!(r.token_type, TokenType::Refresh);
}

#[test]
fn shared_secret_still_checks_kind() {
    let jwt = JwtService::new(JwtConfig::with_secrets("same".to_string(), "same".to_string()));
    let refresh = jwt.generate_refresh_token_at("u1", "alice", NOW).unwrap();
    assert_eq!(jwt.verify_access_token_at(&refresh, NOW).err(), Some(TokenError::InvalidToken));
}

#[test]
fn expired_and_tampered_tokens() {
    let jwt = service();
    let t = jwt.generate_access_token_at("u1", "alice", NOW).unwrap();
    assert_eq!(jwt.verify_access_token_at(&t, NOW + 86_401).err(), Some(TokenError::TokenExpired));
    let mut tampered = t.clone();
    tampered.push('x');
    assert_eq!(jwt.verify_access_token_at(&tampered, NOW).err(), Some(TokenError::InvalidToken));
    assert_eq!(jwt.verify_access_token_at("garbage", NOW).err(), Some(TokenError::InvalidToken));
}

#[test]
fn refresh_issues_new_pair() {
    let jwt = service();
    let refresh = jwt.generate_refresh_token_at("u1", "alice", NOW).unwrap();
    let resp = jwt.refresh_access_token_at(&refresh, NOW + 60).unwrap();
    assert_eq!(resp.claims.user_id, "u1");
    assert_eq!(resp.access_token, jwt.generate_access_token_at("u1", "alice", NOW + 60).unwrap());
    assert_eq!(resp.refresh_token, jwt.generate_refresh_token_at("u1", "alice", NOW + 60).unwrap());
    assert_eq!(jwt.refresh_access_token_at("bad", NOW).err(), Some(TokenError::InvalidToken));
}

#[test]
fn clock_variants_work_now() {
    let jwt = service();
    let t = jwt.generate_access_token("u1", "alice").unwrap();
    assert_eq!(jwt.verify_access_token(&t).unwrap().user_name, "alice");
    let r = jwt.generate_refresh_token("u1", "alice").unwrap();
    assert!(jwt.verify_refresh_token(&r).is_ok());
    assert!(jwt.refresh_access_token(&r).is_ok());
}

#[test]
fn check_claims_verdicts() {
    let ok = check_claims(fields("Access", NOW), TokenType::Access, NOW).unwrap();
    assert_eq!(ok.user_id, "u1");
    assert_eq!(ok.exp, NOW);
    assert_eq!(check_claims(fields("Access", NOW - 1), TokenType::Access, NOW).err(), Some(TokenError::TokenExpired));
    assert_eq!(check_claims(fields("Refresh", NOW), TokenType::Access, NOW).err(), Some(TokenError::InvalidToken));
    assert_eq!(check_claims(fields("access", NOW), TokenType::Access, NOW).err(), Some(TokenError::InvalidToken));
    let mut missing = fields("Access", NOW);
    missing.user_name = None;
    assert_eq!(check_claims(missing, TokenType::Access, NOW).err(), Some(TokenError::InvalidToken));
}

#[test]
fn error_statuses_and_bodies() {
    assert_eq!(AppError::BadRequest("x".to_string()).http_status(), 400);
    assert_eq!(AppError::NotFound("x".to_string()).http_status(), 404);
    assert_eq!(AppError::Unprocessable("x".to_string()).http_status(), 422);
    assert_eq!(AppError::Internal("x".to_string()).http_status(), 500);
    assert_eq!(AppError::UnAuthorized("x".to_string()).http_status(), 401);
    assert_eq!(AppError::FORBIDDEN("x".to_string()).http_status(), 403);
    let body = AppError::FORBIDDEN("token expired".to_string()).to_body();
    assert!(body.data.is_none());
    assert_eq!(body.code, 403);
    assert_eq!(body.msg, "token expired");
    let ok: ApiResponse<u8> = ApiResponse::ok(5);
    assert_eq!((ok.data, ok.code, ok.msg.as_str()), (Some(5), 200, "ok"));
    let e: ApiResponse<NoData> = ApiResponse::err(404, "missing".to_string());
    assert_eq!((e.code, e.msg.as_str()), (404, "missing"));
    assert!(matches!(ApiOut::ok(1u8), ApiOut::Success(r) if r.code == 200));
    assert!(matches!(ApiOut::<u8>::err(AppError::NotFound("n".to_string())), ApiOut::Failure(AppError::NotFound(_))));
}

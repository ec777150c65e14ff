//! Account authentication and session binding for the app update service:
//! captcha-gated registration and login, signed access/refresh token pairs,
//! one live session per account, and the per-request authorization pipeline.

pub mod accounts;
pub mod auth;
pub mod captcha;
pub mod error;
pub mod ids;
pub mod jwt;
pub mod jwt_service;
pub mod password;
pub mod ping;
pub mod users;

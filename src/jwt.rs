//! Token configuration, claims, and the JSON text that a token signs.

use vstd::prelude::*;

verus! {

/// The two token kinds; each is signed with its own secret.
#[derive(PartialEq, Eq, Structural, Clone, Copy, Debug)]
pub enum TokenType {
    /// Authorizes ordinary API calls.
    Access,
    /// Used only to obtain a new access/refresh pair.
    Refresh,
}

/// Signing secrets and lifetimes (seconds) of the two token kinds.
#[derive(Debug)]
pub struct JwtConfig {
    pub access_secret: String,
    pub refresh_secret: String,
    pub access_expires_in: i64,
    pub refresh_expires_in: i64,
}

/// Default lifetime of an access token: one day.
pub const ACCESS_TOKEN_LIFETIME: i64 = 86400;

/// Default lifetime of a refresh token: seven days.
pub const REFRESH_TOKEN_LIFETIME: i64 = 604800;

impl JwtConfig {
    /// The given secrets with the default lifetimes.
    pub fn with_secrets(access_secret: String, refresh_secret: String) -> (r: JwtConfig)
        ensures
            r.access_secret == access_secret,
            r.refresh_secret == refresh_secret,
            r.access_expires_in == ACCESS_TOKEN_LIFETIME,
            r.refresh_expires_in == REFRESH_TOKEN_LIFETIME,
    {
        JwtConfig {
            access_secret,
            refresh_secret,
            access_expires_in: ACCESS_TOKEN_LIFETIME,
            refresh_expires_in: REFRESH_TOKEN_LIFETIME,
        }
    }
}

/// Claims carried by a token of either kind; times are Unix seconds.
#[derive(Debug)]
pub struct TokenClaims {
    pub user_id: String,
    pub user_name: String,
    pub token_type: TokenType,
    pub iat: i64,
    pub exp: i64,
}

/// Mathematical model of the claims of a token.
pub struct ClaimsModel {
    pub user_id: Seq<char>,
    pub user_name: Seq<char>,
    pub token_type: TokenType,
    pub iat: i64,
    pub exp: i64,
}

impl View for TokenClaims {
    type V = ClaimsModel;

    open spec fn view(&self) -> ClaimsModel {
        ClaimsModel {
            user_id: self.user_id@,
            user_name: self.user_name@,
            token_type: self.token_type,
            iat: self.iat,
            exp: self.exp,
        }
    }
}

impl View for AccessTokenClaims {
    type V = ClaimsModel;

    open spec fn view(&self) -> ClaimsModel {
        ClaimsModel {
            user_id: self.user_id@,
            user_name: self.user_name@,
            token_type: self.token_type,
            iat: self.iat,
            exp: self.exp,
        }
    }
}

impl View for RefreshTokenClaims {
    type V = ClaimsModel;

    open spec fn view(&self) -> ClaimsModel {
        ClaimsModel {
            user_id: self.user_id@,
            user_name: self.user_name@,
            token_type: self.token_type,
            iat: self.iat,
            exp: self.exp,
        }
    }
}

/// Claims of an access token.
#[derive(Debug)]
pub struct AccessTokenClaims {
    pub user_name: String,
    pub user_id: String,
    pub exp: i64,
    pub iat: i64,
    pub token_type: TokenType,
}

/// Claims of a refresh token.
#[derive(Debug)]
pub struct RefreshTokenClaims {
    pub user_name: String,
    pub user_id: String,
    pub exp: i64,
    pub iat: i64,
    pub token_type: TokenType,
}

/// Body of a refresh request.
#[derive(Debug)]
pub struct RefreshTokenReq {
    pub user_id: String,
    pub refresh_token: String,
}

/// A rotated pair, with the claims of the refresh token that was presented.
#[derive(Debug)]
pub struct RefreshTokenResp {
    pub claims: RefreshTokenClaims,
    pub access_token: String,
    pub refresh_token: String,
}

/// A token pair handed to the client.
#[derive(Debug)]
pub struct TokenResp {
    pub access_token: String,
    pub refresh_token: String,
}

/// Wire name of a token kind.
pub open spec fn kind_text(k: TokenType) -> Seq<char> {
    match k {
        TokenType::Access => "Access"@,
        TokenType::Refresh => "Refresh"@,
    }
}

/// The token kind named by `t`, if any.
pub open spec fn kind_of_text(t: Seq<char>) -> Option<TokenType> {
    if t == "Access"@ {
        Some(TokenType::Access)
    } else if t == "Refresh"@ {
        Some(TokenType::Refresh)
    } else {
        None
    }
}

/// Decimal digit `d` as a character.
pub open spec fn digit_char(d: nat) -> char {
    if d == 0 {
        '0'
    } else if d == 1 {
        '1'
    } else if d == 2 {
        '2'
    } else if d == 3 {
        '3'
    } else if d == 4 {
        '4'
    } else if d == 5 {
        '5'
    } else if d == 6 {
        '6'
    } else if d == 7 {
        '7'
    } else if d == 8 {
        '8'
    } else {
        '9'
    }
}

/// Decimal digits of `n`, most significant first, without leading zeros.
pub open spec fn digits(n: nat) -> Seq<char>
    decreases n,
{
    if n < 10 {
        seq![digit_char(n)]
    } else {
        digits(n / 10) + seq![digit_char(n % 10)]
    }
}

/// Decimal text of an integer, with a leading `-` when negative.
pub open spec fn decimal(n: int) -> Seq<char> {
    if n < 0 {
        seq!['-'] + digits((-n) as nat)
    } else {
        digits(n as nat)
    }
}

fn digit_text(d: u64) -> (r: &'static str)
    requires
        d < 10,
    ensures
        r@ == seq![digit_char(d as nat)],
{
    proof {
        reveal_strlit("0");
        reveal_strlit("1");
        reveal_strlit("2");
        reveal_strlit("3");
        reveal_strlit("4");
        reveal_strlit("5");
        reveal_strlit("6");
        reveal_strlit("7");
        reveal_strlit("8");
        reveal_strlit("9");
    }
    if d == 0 {
        "0"
    } else if d == 1 {
        "1"
    } else if d == 2 {
        "2"
    } else if d == 3 {
        "3"
    } else if d == 4 {
        "4"
    } else if d == 5 {
        "5"
    } else if d == 6 {
        "6"
    } else if d == 7 {
        "7"
    } else if d == 8 {
        "8"
    } else {
        "9"
    }
}

fn digits_text(n: u64) -> (r: String)
    ensures
        r@ == digits(n as nat),
    decreases n,
{
    if n < 10 {
        String::from_str(digit_text(n))
    } else {
        let mut s = digits_text(n / 10);
        s.append(digit_text(n % 10));
        s
    }
}

/// Decimal text of `n`.
pub fn decimal_text(n: i64) -> (r: String)
    ensures
        r@ == decimal(n as int),
{
    if n < 0 {
        let m: u64 = (0i128 - n as i128) as u64;
        let mut s = String::from_str("-");
        proof {
            reveal_strlit("-");
        }
        let d = digits_text(m);
        s.append(d.as_str());
        s
    } else {
        digits_text(n as u64)
    }
}

/// Wire name of `kind`.
pub fn kind_name(kind: TokenType) -> (r: &'static str)
    ensures
        r@ == kind_text(kind),
{
    match kind {
        TokenType::Access => "Access",
        TokenType::Refresh => "Refresh",
    }
}

} // verus!

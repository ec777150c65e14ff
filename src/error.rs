//! Error taxonomy and the uniform `{ data, code, msg }` response envelope.

use vstd::prelude::*;

verus! {

/// Every failure that crosses the service boundary, classified into one kind.
#[derive(Debug)]
#[allow(non_camel_case_types)]
pub enum AppError {
    /// Malformed input, captcha failure, credential mismatch, duplicate username.
    BadRequest(String),
    /// A referenced resource is absent.
    NotFound(String),
    /// The request is well formed but cannot be processed.
    Unprocessable(String),
    /// Hashing, signing or persistence failures not caused by the caller.
    Internal(String),
    /// Missing, invalid or superseded credentials.
    UnAuthorized(String),
    /// Expired token or invalid signature at the authorization boundary.
    FORBIDDEN(String),
}

/// HTTP status code of each error kind.
pub open spec fn status_of(e: AppError) -> u16 {
    match e {
        AppError::BadRequest(_) => 400,
        AppError::NotFound(_) => 404,
        AppError::Unprocessable(_) => 422,
        AppError::Internal(_) => 500,
        AppError::UnAuthorized(_) => 401,
        AppError::FORBIDDEN(_) => 403,
    }
}

/// The human-readable message carried by an error.
pub open spec fn message_of(e: AppError) -> Seq<char> {
    match e {
        AppError::BadRequest(m) => m@,
        AppError::NotFound(m) => m@,
        AppError::Unprocessable(m) => m@,
        AppError::Internal(m) => m@,
        AppError::UnAuthorized(m) => m@,
        AppError::FORBIDDEN(m) => m@,
    }
}

impl AppError {
    /// The HTTP status that renders this error.
    pub fn http_status(&self) -> (r: u16)
        ensures
            r == status_of(*self),
    {
        match self {
            AppError::BadRequest(_) => 400,
            AppError::NotFound(_) => 404,
            AppError::Unprocessable(_) => 422,
            AppError::Internal(_) => 500,
            AppError::UnAuthorized(_) => 401,
            AppError::FORBIDDEN(_) => 403,
        }
    }

    /// The error's message.
    pub fn message(&self) -> (r: String)
        ensures
            r@ == message_of(*self),
    {
        match self {
            AppError::BadRequest(m) => m.clone(),
            AppError::NotFound(m) => m.clone(),
            AppError::Unprocessable(m) => m.clone(),
            AppError::Internal(m) => m.clone(),
            AppError::UnAuthorized(m) => m.clone(),
            AppError::FORBIDDEN(m) => m.clone(),
        }
    }

    /// The envelope that reports this error: no data, the status as code, the message.
    pub fn to_body(&self) -> (r: ApiResponse<NoData>)
        ensures
            r.data is None,
            r.code == status_of(*self),
            r.msg@ == message_of(*self),
    {
        ApiResponse { data: None, code: self.http_status(), msg: self.message() }
    }
}

/// Payload of an envelope that carries no data.
#[derive(Debug)]
pub struct NoData {}

/// The uniform response envelope; `code` mirrors the HTTP status.
#[derive(Debug)]
pub struct ApiResponse<T> {
    pub data: Option<T>,
    pub code: u16,
    pub msg: String,
}

impl<T> ApiResponse<T> {
    /// A successful envelope around `data`.
    pub fn ok(data: T) -> (r: Self)
        ensures
            r.data == Some(data),
            r.code == 200,
            r.msg@ == "ok"@,
    {
        ApiResponse { data: Some(data), code: 200, msg: String::from_str("ok") }
    }

    /// An envelope without data, with the given status and message.
    pub fn err(status: u16, msg: String) -> (r: Self)
        ensures
            r.data is None,
            r.code == status,
            r.msg == msg,
    {
        ApiResponse { data: None, code: status, msg }
    }
}

/// What a handler returns: a success envelope or a classified error.
#[derive(Debug)]
pub enum ApiOut<T> {
    Success(ApiResponse<T>),
    Failure(AppError),
}

impl<T> ApiOut<T> {
    /// Wraps `data` in a successful envelope.
    pub fn ok(data: T) -> (r: Self)
        ensures
            r matches ApiOut::Success(resp) && resp.data == Some(data) && resp.code == 200,
    {
        ApiOut::Success(ApiResponse::ok(data))
    }

    /// Reports `err`.
    pub fn err(err: AppError) -> (r: Self)
        ensures
            r == ApiOut::<T>::Failure(err),
    {
        ApiOut::Failure(err)
    }
}

/// The generic message for an error status that no handler reported itself.
pub open spec fn fallback_message(status: u16) -> Seq<char> {
    if status == 400 {
        "bad request"@
    } else if status == 404 {
        "not found"@
    } else if status == 405 {
        "method not allowed"@
    } else if status == 422 {
        "unprocessable entity"@
    } else {
        "internal server error"@
    }
}

/// The envelope that the error catcher renders for a finished response: only for a
/// client or server error status that no handler already reported as JSON.
pub fn json_error_body(status: u16, already_written: bool) -> (r: Option<ApiResponse<NoData>>)
    ensures
        (status < 400 || status > 599 || already_written) <==> r is None,
        r matches Some(b) ==> b.data is None && b.code == status && b.msg@ == fallback_message(status),
{
    if status < 400 || status > 599 || already_written {
        return None;
    }
    let msg = if status == 400 {
        "bad request"
    } else if status == 404 {
        "not found"
    } else if status == 405 {
        "method not allowed"
    } else if status == 422 {
        "unprocessable entity"
    } else {
        "internal server error"
    };
    Some(ApiResponse::err(status, String::from_str(msg)))
}

} // verus!

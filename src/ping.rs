//! Health and diagnostic endpoints.

use vstd::prelude::*;
use crate::error::AppError;
use crate::users::{GetUserReq, GetUserResp};

verus! {

/// Reply of the health check.
pub fn ping() -> (r: String)
    ensures
        r@ == "ping success!"@,
{
    String::from_str("ping success!")
}

/// The one known test user's name.
pub open spec fn test_user_name() -> Seq<char> {
    "Desmond"@
}

/// Looks up a test user by id: a non-positive id is a bad request, an id other than 1
/// is not found.
pub fn resp_test(req: &GetUserReq) -> (r: Result<GetUserResp, AppError>)
    ensures
        req.id <= 0 ==> r matches Err(AppError::BadRequest(_)),
        req.id > 1 ==> r matches Err(AppError::NotFound(_)),
        req.id == 1 ==> r is Ok && r->Ok_0.name@ == test_user_name(),
{
    if req.id <= 0 {
        return Err(AppError::BadRequest(String::from_str("id must be positive")));
    }
    if req.id != 1 {
        let mut msg = String::from_str("user ");
        msg.append(crate::jwt::decimal_text(req.id).as_str());
        msg.append(" not found");
        return Err(AppError::NotFound(msg));
    }
    Ok(GetUserResp { name: String::from_str("Desmond") })
}

/// The same lookup, replying with the bare name.
pub fn bad_test(req: &GetUserReq) -> (r: Result<String, AppError>)
    ensures
        req.id <= 0 ==> r matches Err(AppError::BadRequest(_)),
        req.id > 1 ==> r matches Err(AppError::NotFound(_)),
        req.id == 1 ==> r is Ok && r->Ok_0@ == test_user_name(),
{
    match resp_test(req) {
        Ok(u) => Ok(u.name),
        Err(e) => Err(e),
    }
}

} // verus!

//! Authentication data model and the local login decision.

use vstd::prelude::*;
use vstd::string::StringExecFns;

use crate::platform::fresh_uuid;

verus! {

/// An authenticated user.
#[derive(Debug, Clone, PartialEq)]
pub struct User {
    pub id: String,
    pub username: String,
    pub display_name: String,
    pub role: String,
    pub institution_id: Option<String>,
}

/// Credentials presented at login.
#[derive(Debug)]
pub struct LoginRequest {
    pub username: String,
    pub password: String,
}

/// Outcome of a login attempt.
#[derive(Debug)]
pub struct LoginResponse {
    pub success: bool,
    pub user: Option<User>,
    pub token: Option<String>,
    pub message: String,
}

/// Decide a login attempt: empty credentials are rejected; any other pair is
/// accepted with a fresh user id and a mock token.
pub fn login(request: LoginRequest) -> (r: LoginResponse)
    ensures
        (request.username@.len() == 0 || request.password@.len() == 0) ==> !r.success && r.user
            is None && r.token is None && r.message@ == "用户名和密码不能为空"@,
        (request.username@.len() > 0 && request.password@.len() > 0) ==> r.success && r.user
            is Some && r.user.unwrap().id@.len() == 36 && r.user.unwrap().username
            == request.username && r.user.unwrap().display_name == request.username
            && r.user.unwrap().role@ == "user"@ && r.user.unwrap().institution_id is None
            && r.token is Some && r.token.unwrap()@ == "mock-jwt-token"@ && r.message@
            == "登录成功"@,
{
    if request.username.as_str().is_empty() || request.password.as_str().is_empty() {
        return LoginResponse {
            success: false,
            user: None,
            token: None,
            message: String::from_str("用户名和密码不能为空"),
        };
    }
    let user = User {
        id: fresh_uuid(),
        username: request.username.clone(),
        display_name: request.username.clone(),
        role: String::from_str("user"),
        institution_id: None,
    };
    LoginResponse {
        success: true,
        user: Some(user),
        token: Some(String::from_str("mock-jwt-token")),
        message: String::from_str("登录成功"),
    }
}

} // verus!

//! Records of the browser client's API layer.
//!
//! The client speaks to the service over JSON; these are the request
//! and response shapes it exchanges, as plain data.

use vstd::prelude::*;

verus! {

/// Standard error body of the API.
#[derive(Debug)]
pub struct ApiError {
    pub error: String,
}

/// Response of the upload endpoint.
#[derive(Debug)]
pub struct UploadResponse {
    pub ticket_id: String,
    pub message: String,
}

/// Credentials the client sends to log in.
#[derive(Debug)]
pub struct LoginRequest {
    pub email: String,
    pub password: String,
}

/// The user fields a login returns.
#[derive(Debug)]
pub struct UserInfo {
    pub email: String,
    pub nombre: Option<String>,
    pub is_demo: bool,
}

/// A successful login: the token and the user it names.
#[derive(Debug)]
pub struct LoginResponse {
    pub token: String,
    pub user: UserInfo,
}

/// Fields the client sends to register an account.
#[derive(Debug)]
pub struct RegisterRequest {
    pub email: String,
    pub password: String,
    pub nombre: Option<String>,
}

} // verus!

//! Request and response records of the service boundary.
//!
//! Plain data carried between the transport layer and the engine:
//! the ticket-processing payload, the authentication records, and the
//! statistics query parameters with their defaults.

use vstd::prelude::*;

verus! {

/// Payload of a ticket-processing request.
#[derive(Debug)]
pub struct TicketProcessPayload {
    pub ticket_id: String,
    pub file_name: String,
    pub file_content_b64: String,
    /// When present, the processed ticket is also ingested for this
    /// user.
    pub usuario_email: Option<String>,
}

/// Credentials of a login request.
#[derive(Debug)]
pub struct LoginRequest {
    pub email: String,
    pub password: String,
}

/// Fields of a registration request.
#[derive(Debug)]
pub struct RegisterRequest {
    pub email: String,
    pub password: String,
    pub nombre: Option<String>,
}

/// Public user fields of an authentication response.
#[derive(Debug)]
pub struct UserInfo {
    pub email: String,
    pub nombre: Option<String>,
}

/// A successful authentication: the token and the user it names.
#[derive(Debug)]
pub struct AuthResponse {
    pub token: String,
    pub user: UserInfo,
}

/// Claims carried inside an access token.
#[derive(Debug)]
pub struct JwtClaims {
    pub sub: String,
    pub exp: usize,
    pub iat: usize,
}

/// The user a verified token authenticates.
#[derive(Debug)]
pub struct AuthenticatedUser {
    pub email: String,
}

/// A stored user account row.
#[derive(Debug)]
pub struct User {
    pub email: String,
    pub password_hash: String,
    pub nombre: Option<String>,
    pub created_at: i64,
    pub updated_at: i64,
}

/// A user without credential material, for public responses.
#[derive(Debug)]
pub struct UserPublic {
    pub email: String,
    pub nombre: Option<String>,
}

impl From<User> for UserPublic {
    fn from(user: User) -> (r: UserPublic) {
        UserPublic { email: user.email, nombre: user.nombre }
    }
}

impl vstd::std_specs::convert::FromSpecImpl<User> for UserPublic {
    open spec fn obeys_from_spec() -> bool {
        true
    }

    open spec fn from_spec(user: User) -> UserPublic {
        UserPublic { email: user.email, nombre: user.nombre }
    }
}

/// Query parameters of the dashboard endpoint.
#[derive(Debug)]
pub struct DashboardQueryParams {
    pub days: i64,
    pub limit: i64,
}

/// Days of trend shown when the query names none.
pub fn default_days() -> (r: i64)
    ensures
        r == 30,
{
    30
}

/// Top-product rows shown when the query names none.
pub fn default_limit() -> (r: i64)
    ensures
        r == 5,
{
    5
}

impl Default for DashboardQueryParams {
    fn default() -> (r: DashboardQueryParams)
        ensures
            r.days == 30,
            r.limit == 5,
    {
        DashboardQueryParams { days: default_days(), limit: default_limit() }
    }
}

/// Query parameters of the monthly-evolution endpoint.
#[derive(Debug)]
pub struct MonthlyEvolutionQueryParams {
    pub months: i64,
}

/// Months of history shown when the query names none.
pub fn default_months() -> (r: i64)
    ensures
        r == 12,
{
    12
}

impl Default for MonthlyEvolutionQueryParams {
    fn default() -> (r: MonthlyEvolutionQueryParams)
        ensures
            r.months == 12,
    {
        MonthlyEvolutionQueryParams { months: default_months() }
    }
}

/// Query parameters of the ticket-history endpoint.
#[derive(Debug)]
pub struct HistoryQueryParams {
    pub usuario_email: Option<String>,
    pub limit: Option<i64>,
    pub offset: Option<i64>,
}

} // verus!

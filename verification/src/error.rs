//! The error taxonomy of the engine.
//!
//! Every failure an ingestion can surface is one closed variant, each
//! carrying only the data its classification needs.  The HTTP-level
//! classification (status code, public message) is computed here;
//! building the transport response itself is left to the caller.

use vstd::prelude::*;
use vstd::string::*;

verus! {

/// Application-level failures, classified.
#[derive(Debug)]
pub enum AppError {
    DatabaseError(String),
    NotFound(String),
    Unauthorized(String),
    BadRequest(String),
    InternalError(String),
    ServiceUnavailable(String),
    MissingInvoiceNumber,
    InvalidTotals(String),
    DuplicatePurchase(String),
    DatabaseIntegrity(String),
    InvalidTicketData(String),
}

/// JSON body of an error response.
#[derive(Debug)]
pub struct ErrorResponse {
    pub error: String,
}

/// The response classification of each error kind.
pub open spec fn spec_status_code(e: AppError) -> int {
    match e {
        AppError::DatabaseError(_) => 500,
        AppError::NotFound(_) => 404,
        AppError::Unauthorized(_) => 401,
        AppError::BadRequest(_) => 400,
        AppError::InternalError(_) => 500,
        AppError::ServiceUnavailable(_) => 503,
        AppError::MissingInvoiceNumber => 422,
        AppError::InvalidTotals(_) => 422,
        AppError::DuplicatePurchase(_) => 409,
        AppError::DatabaseIntegrity(_) => 422,
        AppError::InvalidTicketData(_) => 422,
    }
}

/// The caller-visible message of each error kind.  Internal failures
/// are replaced by a generic text so storage details do not leak.
pub open spec fn spec_public_message(e: AppError) -> Seq<char> {
    match e {
        AppError::DatabaseError(_) => "Error en la base de datos"@,
        AppError::NotFound(m) => m@,
        AppError::Unauthorized(m) => m@,
        AppError::BadRequest(m) => m@,
        AppError::InternalError(_) => "Error interno del servidor"@,
        AppError::ServiceUnavailable(_) => "Servicio temporalmente no disponible"@,
        AppError::MissingInvoiceNumber => "El ticket no contiene numero de factura"@,
        AppError::InvalidTotals(m) => m@,
        AppError::DuplicatePurchase(invoice) => "La compra con numero de factura "@ + invoice@
            + " ya existe"@,
        AppError::DatabaseIntegrity(m) => "Error de integridad: "@ + m@,
        AppError::InvalidTicketData(m) => m@,
    }
}

impl AppError {
    /// HTTP status the error maps to.
    pub fn status_code(&self) -> (r: u16)
        ensures
            r == spec_status_code(*self),
    {
        match self {
            AppError::DatabaseError(_) => 500,
            AppError::NotFound(_) => 404,
            AppError::Unauthorized(_) => 401,
            AppError::BadRequest(_) => 400,
            AppError::InternalError(_) => 500,
            AppError::ServiceUnavailable(_) => 503,
            AppError::MissingInvoiceNumber => 422,
            AppError::InvalidTotals(_) => 422,
            AppError::DuplicatePurchase(_) => 409,
            AppError::DatabaseIntegrity(_) => 422,
            AppError::InvalidTicketData(_) => 422,
        }
    }

    /// Caller-visible message of the error.
    pub fn public_message(&self) -> (r: String)
        ensures
            r@ == spec_public_message(*self),
    {
        match self {
            AppError::DatabaseError(_) => "Error en la base de datos".to_owned(),
            AppError::NotFound(m) => m.clone(),
            AppError::Unauthorized(m) => m.clone(),
            AppError::BadRequest(m) => m.clone(),
            AppError::InternalError(_) => "Error interno del servidor".to_owned(),
            AppError::ServiceUnavailable(_) => "Servicio temporalmente no disponible".to_owned(),
            AppError::MissingInvoiceNumber => "El ticket no contiene numero de factura".to_owned(),
            AppError::InvalidTotals(m) => m.clone(),
            AppError::DuplicatePurchase(invoice) => "La compra con numero de factura ".to_owned()
                .concat(invoice.as_str()).concat(" ya existe"),
            AppError::DatabaseIntegrity(m) => "Error de integridad: ".to_owned().concat(m.as_str()),
            AppError::InvalidTicketData(m) => m.clone(),
        }
    }

    /// Builds the response body the error surfaces as.
    pub fn to_response(&self) -> (r: (u16, ErrorResponse))
        ensures
            r.0 == spec_status_code(*self),
            r.1.error@ == spec_public_message(*self),
    {
        (self.status_code(), ErrorResponse { error: self.public_message() })
    }
}

/// Shorthand for results whose error side is the taxonomy.
pub type AppResult<T> = Result<T, AppError>;

} // verus!

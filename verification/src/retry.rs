//! Retry policy for calls to the external extraction service.
//!
//! The outside call itself (HTTP, a timeout, a sleep) is the caller's
//! business; this module is the decision function the caller's loop
//! follows: which response classes are retried, how many times, and
//! with what delay.  Only a service-temporarily-unavailable answer is
//! retried, with a linearly growing backoff; every other failure is
//! classified and surfaced at once.

use vstd::prelude::*;

use crate::error::AppError;

verus! {

/// Milliseconds of backoff per attempt already made.
pub const RETRY_BACKOFF_STEP_MS: u64 = 200;

/// How one attempt against the upstream service ended, as seen by the
/// transport.
#[derive(Debug)]
pub enum UpstreamResponse {
    /// A success status: the response body can be used.
    Success,
    /// A service-temporarily-unavailable status: transient, retryable.
    Unavailable,
    /// The request timed out on the client side.
    Timeout,
    /// Any other non-success status.
    Failure(u16),
}

/// What the caller's loop does next.
#[derive(Debug)]
pub enum RetryAction {
    /// Use the response.
    Proceed,
    /// Wait this many milliseconds, then try again.
    RetryAfter(u64),
    /// Stop and surface this error.
    Fail(AppError),
}

/// The bounded-retry policy: how many retries are allowed after the
/// first attempt.
#[derive(Debug)]
pub struct RetryPolicy {
    pub max_retries: u32,
}

impl RetryPolicy {
    /// Decides the next step after attempt number `attempt` (counting
    /// from zero) came back as `response`.
    ///
    /// Exactly the unavailable class is retried, and only while fewer
    /// than `max_retries` retries have been spent; the delay grows by
    /// a fixed step per attempt already made.
    pub fn next_action(&self, attempt: u32, response: &UpstreamResponse) -> (r: RetryAction)
        ensures
            response is Success ==> r is Proceed,
            response is Unavailable && attempt < self.max_retries ==> r is RetryAfter
                && r->RetryAfter_0 == RETRY_BACKOFF_STEP_MS * (attempt + 1) as u64,
            response is Unavailable && attempt >= self.max_retries ==> r is Fail
                && r->Fail_0 is ServiceUnavailable,
            response is Timeout ==> r is Fail && r->Fail_0 is ServiceUnavailable,
            response is Failure ==> r is Fail && (400 <= response->Failure_0 < 500 ==> r->Fail_0
                is BadRequest) && (!(400 <= response->Failure_0 < 500) ==> r->Fail_0
                is InternalError),
            r is RetryAfter ==> attempt < self.max_retries,
    {
        match response {
            UpstreamResponse::Success => RetryAction::Proceed,
            UpstreamResponse::Unavailable => {
                if attempt < self.max_retries {
                    RetryAction::RetryAfter(RETRY_BACKOFF_STEP_MS * (attempt as u64 + 1))
                } else {
                    RetryAction::Fail(
                        AppError::ServiceUnavailable(
                            "servicio de inteligencia no disponible despues de reintentos".to_owned(),
                        ),
                    )
                }
            },
            UpstreamResponse::Timeout => RetryAction::Fail(
                AppError::ServiceUnavailable(
                    "la peticion al servicio de inteligencia supero el timeout".to_owned(),
                ),
            ),
            UpstreamResponse::Failure(status) => {
                if 400 <= *status && *status < 500 {
                    RetryAction::Fail(
                        AppError::BadRequest(
                            "El servicio de extraccion rechazo la peticion".to_owned(),
                        ),
                    )
                } else {
                    RetryAction::Fail(
                        AppError::InternalError(
                            "Respuesta inesperada del servicio de extraccion".to_owned(),
                        ),
                    )
                }
            },
        }
    }
}

} // verus!

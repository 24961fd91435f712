use crate::error::Error;
use crate::utils::{errorize_spec, SatispayError};
use vstd::prelude::*;

verus! {

/// What the body of a response turned out to be.
#[derive(Debug, Clone, PartialEq, Eq)]
pub enum ResponseEnvelope<T> {
    /// The body that the call expects.
    Success(T),
    /// The gateway's error body.
    GatewayError { code: i64, message: String },
    /// Neither of the two; nothing can be read from such a body.
    Unclassified,
}

/// The envelope for a body, given what reading it as the expected body
/// and what reading it as an error body came to. The expected body wins;
/// the error body counts only where the first reading failed.
pub open spec fn classify_spec<T>(
    success: Option<T>,
    error: Option<SatispayError>,
) -> ResponseEnvelope<T> {
    match success {
        Some(value) => ResponseEnvelope::Success(value),
        None => match error {
            Some(e) => ResponseEnvelope::GatewayError { code: e.code, message: e.message },
            None => ResponseEnvelope::Unclassified,
        },
    }
}

/// Classifies a body from the outcomes of the two readings.
pub fn classify<T>(success: Option<T>, error: Option<SatispayError>) -> (envelope:
    ResponseEnvelope<T>)
    ensures
        envelope == classify_spec(success, error),
{
    match success {
        Some(value) => ResponseEnvelope::Success(value),
        None => match error {
            Some(e) => ResponseEnvelope::GatewayError { code: e.code, message: e.message },
            None => ResponseEnvelope::Unclassified,
        },
    }
}

/// Classifies the body `raw_body`. It is first read as the expected body
/// by `read_success`; only if that fails it is read as an error body by
/// `read_error`; if that fails too the body is unclassified.
pub fn decode<T, S, G>(raw_body: &str, read_success: S, read_error: G) -> (envelope:
    ResponseEnvelope<T>)
    where
        S: FnOnce(&str) -> Option<T>,
        G: FnOnce(&str) -> Option<SatispayError>,
    requires
        read_success.requires((raw_body,)),
        read_error.requires((raw_body,)),
    ensures
        exists|success: Option<T>, error: Option<SatispayError>|
            {
                &&& read_success.ensures((raw_body,), success)
                &&& success is None ==> read_error.ensures((raw_body,), error)
                &&& envelope == #[trigger] classify_spec(success, error)
            },
{
    let success = read_success(raw_body);
    match success {
        Some(value) => {
            proof {
                assert(ResponseEnvelope::Success(value) == classify_spec(
                    success,
                    None::<SatispayError>,
                ));
            }
            ResponseEnvelope::Success(value)
        },
        None => {
            let error = read_error(raw_body);
            classify(None, error)
        },
    }
}

impl<T> ResponseEnvelope<T> {
    /// The envelope as a result: the expected body, or the error that
    /// stands for the other two cases.
    pub open spec fn spec_into_result(self) -> Result<T, Error> {
        match self {
            ResponseEnvelope::Success(value) => Ok(value),
            ResponseEnvelope::GatewayError { code, message } => Err(
                Error::SatispayError { code, message },
            ),
            ResponseEnvelope::Unclassified => Err(Error::GenericError),
        }
    }

    /// Turns the envelope into a result: the expected body, the gateway's
    /// error with its code and message, or the generic error.
    pub fn into_result(self) -> (res: Result<T, Error>)
        ensures
            res == self.spec_into_result(),
    {
        match self {
            ResponseEnvelope::Success(value) => Ok(value),
            ResponseEnvelope::GatewayError { code, message } => Err(
                Error::SatispayError { code, message },
            ),
            ResponseEnvelope::Unclassified => Err(Error::GenericError),
        }
    }
}

/// The error of `errorize` is the error of the envelope: where reading
/// the expected body failed, the result of the envelope is the error that
/// `errorize` makes of the reading of the error body.
pub proof fn lemma_errorize_is_the_envelope_error<T, E>(result: Result<SatispayError, E>)
    ensures
        classify_spec::<T>(
            None,
            match result {
                Ok(e) => Some(e),
                Err(_) => None,
            },
        ).spec_into_result() == Err::<T, Error>(errorize_spec(result)),
{
}

} // verus!

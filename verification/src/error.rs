use vstd::prelude::*;

verus! {

/// Everything that can go wrong between building a request and reading the
/// gateway's answer.
#[derive(Debug, Clone, PartialEq, Eq)]
pub enum Error {
    /// The HTTP exchange itself failed.
    HTTPError,
    /// The gateway answered with a structured error body.
    SatispayError { code: i64, message: String },
    /// The answer matched neither the expected body nor the error body.
    GenericError,
    /// The private key bytes are not a PKCS#1 RSA private key.
    KeyFormatError,
    /// The RSA signing operation failed.
    SigningError,
}

} // verus!

//! Client-side request signing for the Satispay business gateway.
//!
//! Every request sent to the gateway carries a content digest and an RSA
//! signature over a canonical rendering of the request. This crate builds
//! that rendering, signs it and assembles the `Authorization` header, and
//! classifies what the gateway answers.

pub mod canonical;
pub mod daily_closure;
pub mod decimal;
pub mod digest;
pub mod encoding;
pub mod endpoints;
pub mod error;
pub mod json;
pub mod key;
pub mod payment;
pub mod person;
pub mod request;
pub mod response;
pub mod signer;
pub mod utils;

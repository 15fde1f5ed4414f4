//! Core protocol logic of OpenID for Verifiable Presentations: claim formats,
//! presentation submissions, response parameters, DID-based request
//! verification and response submission.
pub mod credential_format;
pub mod did_verification;
pub mod encoding;
pub mod json;
pub mod presentation_submission;
pub mod request_signer;
pub mod response_parameters;
pub mod text;
pub mod utils;
pub mod wallet;

//! The HTTP client of the `reqwest` crate, as the decoder handles use it.

use vstd::prelude::*;

verus! {

#[verifier::external_type_specification]
#[verifier::external_body]
pub struct ExClient(reqwest::Client);

#[verifier::external_type_specification]
#[verifier::external_body]
pub struct ExError(reqwest::Error);

/// The request timeout, in milliseconds, that a client was configured with
/// (`ClientBuilder::timeout` stores it in the client's configuration).
pub uninterp spec fn client_timeout_ms(client: reqwest::Client) -> u64;

/// `<reqwest::Client as Clone>::clone`: a handle on the same client (the
/// client is an `Arc` around its configuration), so it keeps the configured
/// request timeout. Nothing else is stated of the result.
pub assume_specification[ <reqwest::Client as Clone>::clone ](client: &reqwest::Client) -> (copy: reqwest::Client)
    ensures
        client_timeout_ms(copy) == client_timeout_ms(*client),
;

/// Builds a `reqwest::Client` whose requests time out after `millis`
/// milliseconds (`ClientBuilder::timeout` then `ClientBuilder::build`).
///
/// The contract claims that the client's configured request timeout is
/// `millis`; nothing else is stated of the client. With the TLS features
/// of `reqwest` switched off, `build` only fails when an earlier builder call
/// recorded an error, and `timeout` records none, so the `expect` does not
/// fire.
#[verifier::external_body]
pub(crate) fn build_client(millis: u64) -> (client: reqwest::Client)
    ensures
        client_timeout_ms(client) == millis,
{
    reqwest::Client::builder()
        .timeout(std::time::Duration::from_millis(millis))
        .build()
        .expect("Unable to initialize a new client.")
}

/// The text that `reqwest::Error`'s `Display` writes for an error: its kind,
/// the URL it concerns and its source, as `error.rs` formats them.
pub uninterp spec fn reqwest_error_text(error: reqwest::Error) -> Seq<char>;

/// `format!("{}", error)` on a `reqwest::Error`: the text its `Display`
/// writes. The contract claims only that this text is the one named by
/// `reqwest_error_text` for the error.
#[verifier::external_body]
pub(crate) fn http_error_text(error: &reqwest::Error) -> (text: String)
    ensures
        text@ == reqwest_error_text(*error),
{
    format!("{}", error)
}

} // verus!

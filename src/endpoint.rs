//! The JSON-RPC endpoint that the height is asked of.
use vstd::prelude::*;
use alloy::transports::http::reqwest::Url;
use crate::fetch::FetchError;

verus! {

#[verifier::external_type_specification]
#[verifier::external_body]
pub struct ExUrl(Url);

/// The public Ethereum node that is asked.
pub const ENDPOINT: &'static str = "https://eth.merkle.io";

/// Whether the URL parser accepts a text.
pub uninterp spec fn url_accepts(text: Seq<char>) -> bool;

/// Relies on `FromStr` of `url::Url`, which alloy's HTTP transport takes
/// through its `reqwest` re-export: it parses the text as a URL, and on
/// failure its error's `Display` text describes why.
#[verifier::external_body]
fn parse_url(text: &str) -> (r: Result<Url, String>)
    ensures
        r is Ok <==> url_accepts(text@),
{
    text.parse::<Url>().map_err(|e| e.to_string())
}

/// Parses an endpoint address; the parser's message comes back in
/// `InvalidEndpoint` when it refuses the text.
pub fn parse_endpoint(text: &str) -> (r: Result<Url, FetchError>)
    ensures
        r is Ok <==> url_accepts(text@),
        r is Err ==> r->Err_0 is InvalidEndpoint,
{
    match parse_url(text) {
        Ok(u) => Ok(u),
        Err(m) => Err(FetchError::InvalidEndpoint(m)),
    }
}

/// The address of the node that is asked, parsed.
pub fn endpoint_url() -> (r: Result<Url, FetchError>)
    ensures
        r is Ok <==> url_accepts(ENDPOINT@),
        r is Err ==> r->Err_0 is InvalidEndpoint,
{
    parse_endpoint(ENDPOINT)
}

} // verus!

//! The outgoing request that carries a rendered query.
use vstd::prelude::*;
use vstd::utf8::encode_utf8;
use crate::request_builder::{RequestBuilder, query_text};

verus! {

#[verifier::external_type_specification]
#[verifier::external_body]
pub struct ExUrl(url::Url);

#[verifier::external_type_specification]
#[verifier::external_body]
pub struct ExParseError(url::ParseError);

/// Whether `url::Url::parse` accepts the text as an absolute URL.
pub uninterp spec fn url_parses(s: Seq<char>) -> bool;

/// Relies on `url::Url::parse`: it succeeds or fails according to the input
/// text alone.
pub assume_specification[ url::Url::parse ](input: &str) -> (r: Result<url::Url, url::ParseError>)
    ensures
        r is Ok <==> url_parses(input@),
;

/// Name of the header that carries the API key.
pub const HEADER_KEY_NAME: &'static str = "user-key";

/// Name of the content-type header.
pub const CONTENT_TYPE_NAME: &'static str = "content-type";

/// Content type of a query body.
pub const CONTENT_TYPE: &'static str = "application/text";

/// A request ready to be sent with the GET method: target, headers as
/// name and value, and body.
pub struct Request {
    pub url: url::Url,
    pub headers: Vec<(&'static str, String)>,
    pub body: Vec<u8>,
}

/// Why a request could not be assembled.
pub enum BuildError {
    /// The target address is not a valid absolute URL.
    InvalidUrl(url::ParseError),
}

/// Views of the header pairs.
pub open spec fn header_views(headers: Seq<(&'static str, String)>) -> Seq<(Seq<char>, Seq<char>)> {
    headers.map_values(|h: (&'static str, String)| (h.0@, h.1@))
}

/// The headers of a request made with `api_key`.
pub open spec fn request_headers(api_key: Seq<char>) -> Seq<(Seq<char>, Seq<char>)> {
    seq![(HEADER_KEY_NAME@, api_key), (CONTENT_TYPE_NAME@, CONTENT_TYPE@)]
}

impl RequestBuilder {
    /// Wraps the rendered query into a request for `url`, authenticated by
    /// `api_key`. Fails exactly when `url` is not a valid URL.
    pub fn build(&self, api_key: &str, url: &str) -> (r: Result<Request, BuildError>)
        ensures
            r is Ok <==> url_parses(url@),
            r matches Ok(req) ==> {
                &&& req.body@ == encode_utf8(query_text(self@))
                &&& header_views(req.headers@) == request_headers(api_key@)
            },
    {
        let target = match url::Url::parse(url) {
            Ok(u) => u,
            Err(e) => {
                return Err(BuildError::InvalidUrl(e));
            },
        };
        let body = self.build_body();
        let mut headers: Vec<(&'static str, String)> = Vec::new();
        headers.push((HEADER_KEY_NAME, api_key.to_owned()));
        headers.push((CONTENT_TYPE_NAME, CONTENT_TYPE.to_owned()));
        assert(header_views(headers@) =~= request_headers(api_key@));
        Ok(Request { url: target, headers, body })
    }
}

} // verus!

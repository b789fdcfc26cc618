//! What the library hands to the transport, and what the transport can
//! report back when it fails.
//!
//! The transport itself (sending, waiting, timing out) is outside the
//! library. A caller sends a [`PreparedRequest`] as a POST and gives the
//! status code and the body of the answer to the pipeline's classifier.

use vstd::prelude::*;
use vstd::string::StringExecFns;

verus! {

/// A failure below the level of requests and responses.
#[derive(Debug, Clone)]
pub enum TransportError {
    /// The endpoint's address is no absolute URL; `url` holds what the URL
    /// parser said of it.
    BadUrl { url: String },
    /// The transport gave up; `detail` holds its own description.
    Failed { detail: String },
}

/// Model of a [`TransportError`].
pub enum TransportFailure {
    BadUrl { url: Seq<char> },
    Failed { detail: Seq<char> },
}

impl View for TransportError {
    type V = TransportFailure;

    open spec fn view(&self) -> TransportFailure {
        match self {
            TransportError::BadUrl { url } => TransportFailure::BadUrl { url: url@ },
            TransportError::Failed { detail } => TransportFailure::Failed { detail: detail@ },
        }
    }
}

/// Model of a client: what it was configured with.
pub struct ClientConfig {
    pub api_key: Seq<char>,
    pub base_url: Seq<char>,
    /// Time allowed for one call, in milliseconds.
    pub timeout: u64,
}

/// The remote host that a client talks to unless it is told otherwise.
pub open spec fn default_base_url() -> Seq<char> {
    "https://api.openai.com"@
}

/// Time allowed for one call unless the client is told otherwise, in
/// milliseconds.
pub const DEFAULT_TIMEOUT: u64 = 60000;

/// The value of the `Authorization` header for an API key.
pub open spec fn bearer(api_key: Seq<char>) -> Seq<char> {
    "Bearer "@ + api_key
}

/// The value of the `Authorization` header for `api_key`.
pub fn bearer_token(api_key: &str) -> (r: String)
    ensures
        r@ == bearer(api_key@),
{
    let mut token = String::from_str("Bearer ");
    token.append(api_key);
    token
}

/// One outbound call, ready to be sent as a POST.
#[derive(Debug, Clone)]
pub struct PreparedRequest {
    /// The endpoint, as the URL parser wrote it back.
    pub url: String,
    /// Header names and values, in the order in which they were set.
    pub headers: Vec<(String, String)>,
    /// Time allowed for the call, in milliseconds.
    pub timeout: u64,
    pub body: Vec<u8>,
}

/// Model of a [`PreparedRequest`].
pub struct Outbound {
    pub url: Seq<char>,
    pub headers: Seq<(Seq<char>, Seq<char>)>,
    pub timeout: u64,
    pub body: Seq<u8>,
}

impl View for PreparedRequest {
    type V = Outbound;

    open spec fn view(&self) -> Outbound {
        Outbound {
            url: self.url@,
            headers: self.headers.deep_view(),
            timeout: self.timeout,
            body: self.body@,
        }
    }
}

/// Model of what [`address`] returns.
pub open spec fn addressed(r: Result<PreparedRequest, TransportError>) -> Result<
    Outbound,
    TransportFailure,
> {
    match r {
        Ok(request) => Ok(request@),
        Err(e) => Err(e@),
    }
}

/// What the transport reports of a call: the status code and the body of
/// the answer, or its own failure.
pub open spec fn report_view(report: Result<(u16, Vec<u8>), TransportError>) -> Result<
    (u16, Seq<u8>),
    TransportFailure,
> {
    match report {
        Ok((status, body)) => Ok((status, body@)),
        Err(e) => Err(e@),
    }
}

/// What `url::Url::parse` makes of `text`: the URL written back as a string,
/// or the parser's message.
pub uninterp spec fn url_parse_result(text: Seq<char>) -> Result<Seq<char>, Seq<char>>;

/// Calls `url::Url::parse` and turns the URL into its serialisation and the
/// error into its `Display` text. The contract only names the outcome.
#[verifier::external_body]
pub(crate) fn parse_url(text: &str) -> (r: Result<String, String>)
    ensures
        match r {
            Ok(href) => url_parse_result(text@) == Ok::<Seq<char>, Seq<char>>(href@),
            Err(message) => url_parse_result(text@) == Err::<Seq<char>, Seq<char>>(message@),
        },
{
    match url::Url::parse(text) {
        Ok(parsed) => Ok(String::from(parsed)),
        Err(error) => Err(error.to_string()),
    }
}

/// The request for an endpoint whose address parsed to `parsed`.
pub open spec fn outbound_for(
    parsed: Result<Seq<char>, Seq<char>>,
    headers: Seq<(Seq<char>, Seq<char>)>,
    timeout: u64,
    body: Seq<u8>,
) -> Result<Outbound, TransportFailure> {
    match parsed {
        Ok(href) => Ok(Outbound { url: href, headers, timeout, body }),
        Err(message) => Err(TransportFailure::BadUrl { url: message }),
    }
}

/// Puts a request together once the URL parser has spoken: a parsed address
/// gives the request, a refused one gives `BadUrl` with the parser's words.
pub fn address(
    parsed: Result<String, String>,
    headers: Vec<(String, String)>,
    timeout: u64,
    body: Vec<u8>,
) -> (r: Result<PreparedRequest, TransportError>)
    ensures
        addressed(r) == outbound_for(
            match parsed {
                Ok(href) => Ok(href@),
                Err(message) => Err(message@),
            },
            headers.deep_view(),
            timeout,
            body@,
        ),
{
    match parsed {
        Ok(href) => Ok(PreparedRequest { url: href, headers, timeout, body }),
        Err(message) => Err(TransportError::BadUrl { url: message }),
    }
}

/// A request to `base_url` followed by `path`.
pub fn prepare_post(
    base_url: &str,
    path: &str,
    headers: Vec<(String, String)>,
    timeout: u64,
    body: Vec<u8>,
) -> (r: Result<PreparedRequest, TransportError>)
    ensures
        addressed(r) == outbound_for(
            url_parse_result(base_url@ + path@),
            headers.deep_view(),
            timeout,
            body@,
        ),
{
    let mut endpoint = String::from_str(base_url);
    endpoint.append(path);
    address(parse_url(endpoint.as_str()), headers, timeout, body)
}

/// The header list with one more header at its end.
pub fn with_header(headers: Vec<(String, String)>, name: &str, value: String) -> (r: Vec<
    (String, String),
>)
    ensures
        r.deep_view() == headers.deep_view().push((name@, value@)),
{
    let mut headers = headers;
    let ghost before = headers.deep_view();
    headers.push((String::from_str(name), value));
    assert(headers.deep_view() =~= before.push((name@, value@)));
    headers
}

} // verus!

//! The authenticated HTTP client shared, read-only, by every request.
use vstd::prelude::*;
use vstd::string::StringExecFns;
use reqwest::header::HeaderValue;
use reqwest::Client;

verus! {

#[verifier::external_type_specification]
#[verifier::external_body]
pub struct ExClient(reqwest::Client);

#[verifier::external_type_specification]
#[verifier::external_body]
pub struct ExHeaderValue(reqwest::header::HeaderValue);

/// Whether a character may stand in an HTTP header value: a tab, or any
/// character but a control character (characters past ASCII are encoded as
/// bytes of 128 and above, which are allowed).
pub open spec fn header_char_ok(c: char) -> bool {
    c == '\t' || (c as u32 >= 32 && c as u32 != 127)
}

pub open spec fn header_text_ok(s: Seq<char>) -> bool {
    forall|i: int| 0 <= i < s.len() ==> header_char_ok(#[trigger] s[i])
}

pub open spec fn bearer_spec(token: Seq<char>) -> Seq<char> {
    "Bearer "@ + token
}

/// Relies on http's HeaderValue::from_str (re-exported by reqwest), which
/// accepts a text exactly when each of its bytes is a tab or at least 32 and
/// not 127.
#[verifier::external_body]
fn header_value(text: &str) -> (r: Option<HeaderValue>)
    ensures
        r is Some == header_text_ok(text@),
{
    HeaderValue::from_str(text).ok()
}

/// Relies on HeaderValue::set_sensitive: marks the value as secret so that
/// it is kept out of logs and caches.
#[verifier::external_body]
fn mark_sensitive(v: &mut HeaderValue) {
    v.set_sensitive(true)
}

/// Relies on reqwest's ClientBuilder::build, given default headers that send
/// JSON and carry `authorization`; building can fail (no TLS backend).
#[verifier::external_body]
fn build_client(authorization: HeaderValue) -> (r: Option<Client>) {
    let mut headers = reqwest::header::HeaderMap::new();
    headers.insert(
        reqwest::header::CONTENT_TYPE,
        HeaderValue::from_static("application/json"),
    );
    headers.insert(reqwest::header::AUTHORIZATION, authorization);
    reqwest::ClientBuilder::new().default_headers(headers).build().ok()
}

/// Why a client could not be made.
#[derive(Debug, Clone, Copy, PartialEq, Eq, Structural)]
pub enum ClientError {
    /// The credential cannot be sent in a header.
    InvalidToken,
    /// The HTTP client could not be built.
    Build,
}

/// The bearer authorization text for `token`.
pub fn bearer(token: &str) -> (r: String)
    ensures
        r@ == bearer_spec(token@),
{
    let mut text = String::from_str("Bearer ");
    text.append(token);
    text
}

/// A client of the generation service, with its poll budget.
pub struct Dalle {
    client: Client,
    number_of_polls: usize,
}

impl Dalle {
    pub closed spec fn polls_spec(&self) -> usize {
        self.number_of_polls
    }

    /// A client that authenticates with `token` and polls each task at most
    /// `number_of_polls + 1` times. Fails with `InvalidToken` exactly when the
    /// bearer text cannot be a header value.
    pub fn new(token: &str, number_of_polls: usize) -> (r: Result<Dalle, ClientError>)
        ensures
            !header_text_ok(bearer_spec(token@)) <==> r == Err::<Dalle, ClientError>(
                ClientError::InvalidToken,
            ),
            r is Err ==> r->Err_0 == ClientError::InvalidToken || r->Err_0 == ClientError::Build,
            r matches Ok(d) ==> d.polls_spec() == number_of_polls,
    {
        let text = bearer(token);
        let mut authorization = match header_value(text.as_str()) {
            Some(v) => v,
            None => {
                return Err(ClientError::InvalidToken);
            },
        };
        mark_sensitive(&mut authorization);
        match build_client(authorization) {
            Some(client) => Ok(Dalle { client, number_of_polls }),
            None => Err(ClientError::Build),
        }
    }

    /// The HTTP client, for sending requests.
    pub fn client(&self) -> &Client {
        &self.client
    }

    pub fn number_of_polls(&self) -> (r: usize)
        ensures
            r == self.polls_spec(),
    {
        self.number_of_polls
    }
}

} // verus!

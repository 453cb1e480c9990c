//! The client: the service's endpoints and a transport handle that carries
//! the credential on every request.
use vstd::prelude::*;
use reqwest::header::{HeaderValue, InvalidHeaderValue};
use reqwest::Client as HttpClient;

verus! {

#[verifier::external_type_specification]
#[verifier::external_body]
pub struct ExHttpClient(HttpClient);

#[verifier::external_type_specification]
#[verifier::external_body]
pub struct ExHttpError(reqwest::Error);

#[verifier::external_type_specification]
#[verifier::external_body]
pub struct ExHeaderValue(HeaderValue);

#[verifier::external_type_specification]
#[verifier::external_body]
pub struct ExInvalidHeaderValue(InvalidHeaderValue);

/// A character that an HTTP header value may hold: a tab, or any character
/// from the space up but the delete character.
pub open spec fn header_char_ok(c: char) -> bool {
    c == '\t' || (c as u32 >= 32 && c as u32 != 127)
}

/// A text that an HTTP header value may hold.
pub open spec fn header_text_ok(s: Seq<char>) -> bool {
    forall|i: int| 0 <= i < s.len() ==> header_char_ok(#[trigger] s[i])
}

/// Relies on `HeaderValue::from_str`, which refuses a text exactly when one
/// of its bytes is a control byte other than tab, or the delete byte. The
/// bytes of a character past ASCII are all accepted.
pub assume_specification[ HeaderValue::from_str ](src: &str) -> (r: Result<HeaderValue, InvalidHeaderValue>)
    ensures
        r is Ok <==> header_text_ok(src@),
;

/// Relies on reqwest's `ClientBuilder`: builds a client that sends the two
/// given headers, authorization and content type, with every request; the
/// build fails where the TLS backend or the resolver cannot be set up.
#[verifier::external_body]
fn http_client(authorization: HeaderValue, content_type: HeaderValue) -> (r: Result<HttpClient, reqwest::Error>) {
    let mut headers = reqwest::header::HeaderMap::new();
    headers.insert(reqwest::header::AUTHORIZATION, authorization);
    headers.insert(reqwest::header::CONTENT_TYPE, content_type);
    HttpClient::builder().default_headers(headers).build()
}

/// The ways a call can fail.
#[derive(Debug, Clone, Copy, PartialEq, Eq, Structural)]
pub enum ClientError {
    /// The credential cannot be written into a header.
    Configuration,
    /// The connection failed, or the transport could not be set up.
    Transport,
    /// The response body does not have the expected shape.
    Deserialization,
}

/// The secret that authorizes calls.
#[derive(Debug, Clone)]
pub struct ApiKey(pub String);

impl From<String> for ApiKey {
    fn from(key: String) -> (r: ApiKey) {
        ApiKey(key)
    }
}

impl vstd::std_specs::convert::FromSpecImpl<String> for ApiKey {
    open spec fn obeys_from_spec() -> bool {
        true
    }

    open spec fn from_spec(v: String) -> ApiKey {
        ApiKey(v)
    }
}

/// The value of the authorization header for a key.
pub open spec fn authorization_text(key: Seq<char>) -> Seq<char> {
    "Bearer "@ + key
}

/// The content type that every request declares.
pub open spec fn json_content_type() -> Seq<char> {
    "application/json"@
}

/// The service's base address.
pub open spec fn service_url() -> Seq<char> {
    "https://api.openai.com/v1"@
}

/// The authorization header's value for a key.
pub fn authorization(key: &ApiKey) -> (r: String)
    ensures
        r@ == authorization_text(key.0@),
{
    let mut out = String::from_str("Bearer ");
    out.append(key.0.as_str());
    out
}

/// Whether the key can stand in the authorization header. A client can be
/// made only for such a key.
pub fn key_fits_header(key: &ApiKey) -> (r: bool)
    ensures
        r == header_text_ok(authorization_text(key.0@)),
{
    let auth = authorization(key);
    HeaderValue::from_str(auth.as_str()).is_ok()
}

/// A client of the service. It holds no state between calls.
#[derive(Debug)]
pub struct Client {
    /// The address all endpoints are relative to.
    base_url: String,
    /// The authorization header the transport sends.
    authorization: String,
    /// The content-type header the transport sends.
    content_type: String,
    /// The transport, which carries both headers.
    http: HttpClient,
}

impl Client {
    pub closed spec fn spec_base_url(&self) -> Seq<char> {
        self.base_url@
    }

    pub closed spec fn spec_authorization(&self) -> Seq<char> {
        self.authorization@
    }

    pub closed spec fn spec_content_type(&self) -> Seq<char> {
        self.content_type@
    }

    /// Sets up a client for a key that fits a header (see `key_fits_header`):
    /// its transport sends `Bearer <key>` as authorization and a JSON content
    /// type with every request. Fails with `Transport` where the transport
    /// cannot be built.
    pub fn new(api_key: ApiKey) -> (r: Result<Client, ClientError>)
        requires
            header_text_ok(authorization_text(api_key.0@)),
        ensures
            r matches Err(e) ==> e == ClientError::Transport,
            r matches Ok(c) ==> {
                &&& c.spec_base_url() == service_url()
                &&& c.spec_authorization() == authorization_text(api_key.0@)
                &&& c.spec_content_type() == json_content_type()
            },
    {
        let auth = authorization(&api_key);
        let content_type = String::from_str("application/json");
        proof {
            reveal_strlit("application/json");
        }
        let auth_value = match HeaderValue::from_str(auth.as_str()) {
            Ok(v) => v,
            Err(_) => {
                proof {
                    assert(false);
                }
                return Err(ClientError::Configuration);
            },
        };
        let type_value = match HeaderValue::from_str(content_type.as_str()) {
            Ok(v) => v,
            Err(_) => {
                proof {
                    assert(false);
                }
                return Err(ClientError::Configuration);
            },
        };
        match http_client(auth_value, type_value) {
            Ok(http) => Ok(
                Client {
                    base_url: String::from_str("https://api.openai.com/v1"),
                    authorization: auth,
                    content_type,
                    http,
                },
            ),
            Err(_) => Err(ClientError::Transport),
        }
    }

    /// The authorization header's value.
    pub fn authorization(&self) -> (r: &str)
        ensures
            r@ == self.spec_authorization(),
    {
        self.authorization.as_str()
    }

    /// The content-type header's value.
    pub fn content_type(&self) -> (r: &str)
        ensures
            r@ == self.spec_content_type(),
    {
        self.content_type.as_str()
    }

    /// The transport that calls go through.
    pub fn http(&self) -> &HttpClient {
        &self.http
    }

    pub fn base_url(&self) -> (r: &str)
        ensures
            r@ == self.spec_base_url(),
    {
        self.base_url.as_str()
    }

    /// The completion endpoint.
    pub fn completions_url(&self) -> (r: String)
        ensures
            r@ == self.spec_base_url() + "/completions"@,
    {
        let mut out = self.base_url.clone();
        out.append("/completions");
        out
    }

    /// The chat endpoint.
    pub fn chat_url(&self) -> (r: String)
        ensures
            r@ == self.spec_base_url() + "/chat/completions"@,
    {
        let mut out = self.base_url.clone();
        out.append("/chat/completions");
        out
    }
}

} // verus!

//! The request client: validated configuration, the HTTP request it sends
//! for a list of messages, and what the caller gets from the transport.
use crate::encoding::{base64_of, encode_base64, encoded_len_fits};
use crate::json::{request_body, request_json};
use crate::message::{build_text_message, build_vision_message, is_user_image, is_user_text, Message};
use vstd::prelude::*;

verus! {

/// The token limit used where none is given.
pub const DEFAULT_MAX_TOKENS: usize = 1024;

/// A required configuration value that is missing or empty.
#[derive(Clone, Copy, Debug, PartialEq, Eq, Structural)]
pub enum ConfigError {
    MissingApiKey,
    MissingApiUrl,
    MissingApiVersion,
}

/// The HTTP exchange could not be completed (connection, DNS, TLS, timeout).
#[derive(Clone, Debug, PartialEq, Eq)]
pub struct TransportError {
    pub cause: String,
}

/// What the transport reports for one request.
#[derive(Clone, Debug, PartialEq, Eq)]
pub enum TransportOutcome {
    /// The server answered, with any status.
    Response { status: u16, body: String },
    /// No answer came.
    Failed { cause: String },
}

/// A POST to be issued: target, headers in order, and JSON body.
#[derive(Clone, Debug, PartialEq, Eq)]
pub struct HttpRequest {
    pub url: String,
    pub headers: Vec<(String, String)>,
    pub body: String,
}

/// Sends message lists on behalf of a client.
#[derive(Clone, Copy, Debug, PartialEq, Eq, Structural)]
pub struct Messages;

/// A client holding the three required configuration values.
#[derive(Debug)]
pub struct Anthropic {
    api_key: String,
    api_url: String,
    api_version: String,
    pub messages: Messages,
}

/// `o` holds a non-empty value.
pub open spec fn is_present(o: Option<String>) -> bool {
    o matches Some(s) && s@.len() > 0
}

/// The text of a present value.
pub open spec fn present_value(o: Option<String>) -> Seq<char> {
    match o {
        Some(s) => s@,
        None => seq![],
    }
}

/// The error for the first of the three values, in the order key, URL,
/// version, that is missing.
pub open spec fn first_missing(
    api_key: Option<String>,
    api_url: Option<String>,
    api_version: Option<String>,
) -> ConfigError {
    if !is_present(api_key) {
        ConfigError::MissingApiKey
    } else if !is_present(api_url) {
        ConfigError::MissingApiUrl
    } else {
        ConfigError::MissingApiVersion
    }
}

/// `h` is the header list for the given key and protocol version.
pub open spec fn request_headers(h: Seq<(String, String)>, key: Seq<char>, version: Seq<char>) -> bool {
    &&& h.len() == 3
    &&& h[0].0@ == "x-api-key"@ && h[0].1@ == key
    &&& h[1].0@ == "anthropic-version"@ && h[1].1@ == version
    &&& h[2].0@ == "content-type"@ && h[2].1@ == "application/json"@
}

fn owned(s: &str) -> (r: String)
    ensures
        r@ == s@,
{
    String::from_str(s)
}

fn take_present(o: Option<String>) -> (r: Option<String>)
    ensures
        r is Some <==> is_present(o),
        r matches Some(s) ==> s@ == present_value(o),
{
    match o {
        Some(s) => {
            if s.as_str().unicode_len() > 0 {
                Some(s)
            } else {
                None
            }
        },
        None => None,
    }
}

impl Anthropic {
    #[verifier::type_invariant]
    spec fn inv(&self) -> bool {
        &&& self.api_key@.len() > 0
        &&& self.api_url@.len() > 0
        &&& self.api_version@.len() > 0
    }

    /// The configured API key.
    pub closed spec fn key(&self) -> Seq<char> {
        self.api_key@
    }

    /// The configured endpoint URL.
    pub closed spec fn url(&self) -> Seq<char> {
        self.api_url@
    }

    /// The configured protocol version.
    pub closed spec fn version(&self) -> Seq<char> {
        self.api_version@
    }

    /// A client from the three configuration values; each must be present
    /// and non-empty, and the first that is not is named in the error.
    pub fn new(api_key: Option<String>, api_url: Option<String>, api_version: Option<String>) -> (r:
        Result<Anthropic, ConfigError>)
        ensures
            r is Ok <==> is_present(api_key) && is_present(api_url) && is_present(api_version),
            r matches Ok(c) ==> c.key() == present_value(api_key) && c.url() == present_value(
                api_url,
            ) && c.version() == present_value(api_version),
            r matches Err(e) ==> e == first_missing(api_key, api_url, api_version),
    {
        let key = match take_present(api_key) {
            Some(k) => k,
            None => return Err(ConfigError::MissingApiKey),
        };
        let url = match take_present(api_url) {
            Some(u) => u,
            None => return Err(ConfigError::MissingApiUrl),
        };
        let version = match take_present(api_version) {
            Some(v) => v,
            None => return Err(ConfigError::MissingApiVersion),
        };
        Ok(Anthropic { api_key: key, api_url: url, api_version: version, messages: Messages })
    }

    /// The API key, sent in the `x-api-key` header.
    pub fn get_api_key(&self) -> (r: &str)
        ensures
            r@ == self.key(),
            r@.len() > 0,
    {
        proof {
            use_type_invariant(self);
        }
        self.api_key.as_str()
    }

    /// The endpoint that requests are posted to.
    pub fn get_api_url(&self) -> (r: &str)
        ensures
            r@ == self.url(),
            r@.len() > 0,
    {
        proof {
            use_type_invariant(self);
        }
        self.api_url.as_str()
    }

    /// The protocol version, sent in the `anthropic-version` header.
    pub fn get_api_version(&self) -> (r: &str)
        ensures
            r@ == self.version(),
            r@.len() > 0,
    {
        proof {
            use_type_invariant(self);
        }
        self.api_version.as_str()
    }

    /// The single user message whose content is one image block holding
    /// the base64 text of `image` with type `image_media_type`.
    pub fn pack_vision_content(image: &[u8], image_media_type: &str) -> (r: Vec<Message>)
        requires
            encoded_len_fits(image@.len()),
        ensures
            r@.len() == 1,
            is_user_image(r@[0], base64_of(image@), image_media_type@),
    {
        let data = encode_base64(image);
        build_vision_message(data.as_str(), image_media_type)
    }
}

impl Messages {
    /// The POST that asks `client`'s endpoint for a completion of
    /// `messages` by `model`, within `max_tokens` tokens.
    pub fn create(&self, client: &Anthropic, model: &str, max_tokens: usize, messages: &[Message]) -> (r:
        HttpRequest)
        ensures
            r.url@ == client.url(),
            request_headers(r.headers@, client.key(), client.version()),
            r.body@ == request_json(model@, max_tokens as nat, messages@),
    {
        let mut headers: Vec<(String, String)> = Vec::new();
        headers.push((owned("x-api-key"), owned(client.get_api_key())));
        headers.push((owned("anthropic-version"), owned(client.get_api_version())));
        headers.push((owned("content-type"), owned("application/json")));
        HttpRequest {
            url: owned(client.get_api_url()),
            headers,
            body: request_body(model, max_tokens, messages),
        }
    }
}

/// The request for a completion of the text `content` by `model`, with the
/// default token limit.
pub fn prepare_text_request(client: &Anthropic, content: &str, model: &str) -> (r: HttpRequest)
    ensures
        r.url@ == client.url(),
        request_headers(r.headers@, client.key(), client.version()),
        exists|ms: Seq<Message>|
            ms.len() == 1 && is_user_text(ms[0], content@) && r.body@ == request_json(
                model@,
                DEFAULT_MAX_TOKENS as nat,
                ms,
            ),
{
    let ms = build_text_message(content);
    let r = client.messages.create(client, model, DEFAULT_MAX_TOKENS, ms.as_slice());
    assert(ms@.len() == 1 && is_user_text(ms@[0], content@));
    r
}

/// The request for a completion by `model` of the image `image`, of type
/// `image_media_type`, with the default token limit.
pub fn prepare_image_request(client: &Anthropic, image: &[u8], image_media_type: &str, model: &str) -> (r:
    HttpRequest)
    requires
        encoded_len_fits(image@.len()),
    ensures
        r.url@ == client.url(),
        request_headers(r.headers@, client.key(), client.version()),
        exists|ms: Seq<Message>|
            ms.len() == 1 && is_user_image(ms[0], base64_of(image@), image_media_type@) && r.body@
                == request_json(model@, DEFAULT_MAX_TOKENS as nat, ms),
{
    let ms = Anthropic::pack_vision_content(image, image_media_type);
    let r = client.messages.create(client, model, DEFAULT_MAX_TOKENS, ms.as_slice());
    assert(ms@.len() == 1 && is_user_image(ms@[0], base64_of(image@), image_media_type@));
    r
}

/// What the caller receives for a transport outcome: the body of any
/// response verbatim, whatever its status, or the transport's failure.
pub fn response_text(outcome: TransportOutcome) -> (r: Result<String, TransportError>)
    ensures
        match outcome {
            TransportOutcome::Response { status, body } => r matches Ok(t) && t@ == body@,
            TransportOutcome::Failed { cause } => r matches Err(e) && e.cause@ == cause@,
        },
{
    match outcome {
        TransportOutcome::Response { body, .. } => Ok(body),
        TransportOutcome::Failed { cause } => Err(TransportError { cause }),
    }
}

} // verus!

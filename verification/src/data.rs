//! The configuration record, the body variants, and the validating builder.

use vstd::prelude::*;
use crate::errors::HttpError;
use crate::pattern::is_valid_base_url;
use crate::pattern::is_valid_url;

verus! {

/// Default headers as (name, value) pairs: duplicates permitted, insertion
/// order preserved, names stored verbatim.
pub type Header = Vec<(String, String)>;

/// Query parameters as (name, value) pairs; duplicates give repeated query
/// keys, an empty sequence gives no query string.
pub type Query = Vec<(&'static str, &'static str)>;

/// The payload shape of a request, exactly one variant at a time.
#[derive(Debug, PartialEq)]
pub enum Body {
    /// No body is attached.
    Empty,
    /// A structured value, serialized as JSON.
    JSON(serde_json::Value),
    /// Raw bytes, attached verbatim.
    BYTES(Vec<u8>),
    /// A string, attached verbatim as a text body.
    TXT(String),
    /// (name, value) pairs, URL-encoded as a form body in the given order.
    /// A form that stands for a mapping has no duplicate names
    /// ([`form_keys_unique`]); the encoder itself asks no such thing.
    FORM(Vec<(String, String)>),
    /// One multipart section per (field name, content, file name) entry.
    MULTIPART(Vec<(String, Vec<u8>, String)>),
}

/// The shape of a form body that stands for a mapping: no two pairs share
/// a name. Nothing requires it; duplicate names are encoded in order like
/// any pairs.
pub open spec fn form_keys_unique(pairs: Seq<(String, String)>) -> bool {
    forall|i: int, j: int| 0 <= i < j < pairs.len() ==> pairs[i].0@ != pairs[j].0@
}

impl Default for Body {
    fn default() -> (r: Self)
        ensures
            r is Empty,
    {
        Body::Empty
    }
}

/// The body kinds this build can encode: a capability descriptor, fixed at
/// startup and consulted by the body encoder.
#[derive(Clone, Copy, PartialEq, Eq, Structural, Debug)]
pub struct Caps {
    /// JSON serialization is compiled in.
    pub json: bool,
    /// Native multipart construction is available.
    pub native: bool,
}

impl Default for Caps {
    fn default() -> (r: Self)
        ensures
            r.json,
            r.native,
    {
        Caps { json: true, native: true }
    }
}

/// The validated configuration: a base endpoint, default headers, a
/// transport client, and the capability descriptor.
///
/// `base_url` has the shape required by [`crate::pattern`]; the invariant is
/// enforced at construction time only. `client` stays `None` — unusable —
/// until one is supplied at construction or built by [`Http::config`].
#[derive(Debug, Clone)]
pub struct Http {
    pub base_url: String,
    pub headers: Header,
    pub client: Option<reqwest::Client>,
    pub caps: Caps,
}

impl Http {
    /// The construction-time invariant: the base endpoint has the required
    /// shape.
    pub open spec fn wf(&self) -> bool {
        is_valid_base_url(self.base_url@)
    }

    /// Starts a builder with no field set and every capability present.
    pub fn new() -> (b: HttpBuilder)
        ensures
            b.base_url is None,
            b.headers is None,
            b.client is None,
            b.caps == (Caps { json: true, native: true }),
    {
        HttpBuilder { base_url: None, headers: None, client: None, caps: Caps { json: true, native: true } }
    }
}

/// Collects the fields of an [`Http`] and validates them on
/// [`HttpBuilder::build`].
pub struct HttpBuilder {
    pub base_url: Option<String>,
    pub headers: Option<Header>,
    pub client: Option<reqwest::Client>,
    pub caps: Caps,
}

impl HttpBuilder {
    pub fn base_url(self, base_url: &str) -> (r: Self)
        ensures
            r.base_url matches Some(u) && u@ == base_url@,
            r.headers == self.headers,
            r.client == self.client,
            r.caps == self.caps,
    {
        HttpBuilder { base_url: Some(base_url.to_owned()), ..self }
    }

    pub fn headers(self, headers: Header) -> (r: Self)
        ensures
            r.headers == Some(headers),
            r.base_url == self.base_url,
            r.client == self.client,
            r.caps == self.caps,
    {
        HttpBuilder { headers: Some(headers), ..self }
    }

    pub fn client(self, client: reqwest::Client) -> (r: Self)
        ensures
            r.client == Some(client),
            r.base_url == self.base_url,
            r.headers == self.headers,
            r.caps == self.caps,
    {
        HttpBuilder { client: Some(client), ..self }
    }

    pub fn caps(self, caps: Caps) -> (r: Self)
        ensures
            r.caps == caps,
            r.base_url == self.base_url,
            r.headers == self.headers,
            r.client == self.client,
    {
        HttpBuilder { caps, ..self }
    }

    /// Validates the collected fields: `base_url` and `headers` must have
    /// been set and `base_url` must have the required shape. On success the
    /// configuration is returned as given; on failure nothing else is
    /// reported or retried.
    pub fn build(self) -> (r: Result<Http, HttpError>)
        ensures
            (r is Ok) <==> ((self.base_url matches Some(u) && is_valid_base_url(u@))
                && self.headers is Some),
            r matches Ok(h) ==> {
                &&& self.base_url matches Some(u) && h.base_url == u
                &&& self.headers matches Some(hs) && h.headers == hs
                &&& h.client == self.client
                &&& h.caps == self.caps
                &&& h.wf()
            },
            self.base_url is None ==> (r matches Err(e) && e matches HttpError::MissingField(f)
                && f@ == "base_url"@),
            self.base_url is Some && self.headers is None ==> (r matches Err(e)
                && e matches HttpError::MissingField(f) && f@ == "headers"@),
            (self.base_url matches Some(u) && !is_valid_base_url(u@)) && self.headers is Some
                ==> r == Err::<Http, HttpError>(HttpError::InvalidUrl),
    {
        let HttpBuilder { base_url, headers, client, caps } = self;
        let base_url = match base_url {
            Some(u) => u,
            None => {
                return Err(HttpError::MissingField("base_url".to_owned()));
            },
        };
        let headers = match headers {
            Some(h) => h,
            None => {
                return Err(HttpError::MissingField("headers".to_owned()));
            },
        };
        if !is_valid_url(base_url.as_str()) {
            return Err(HttpError::InvalidUrl);
        }
        Ok(Http { base_url, headers, client, caps })
    }
}

} // verus!

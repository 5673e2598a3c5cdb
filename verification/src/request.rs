//! The request a verb operation shapes, before the transport sends it.

use vstd::prelude::*;
use crate::body::encode_unsupported;
use crate::body::encodes;
use crate::data::Body;
use crate::data::Http;
use crate::data::Query;
use crate::errors::HttpError;
use crate::transport;
use crate::transport::get_builder;
use crate::transport::patch_builder;
use crate::transport::put_builder;
use crate::transport::query_attached;
use crate::transport::str_pairs_view;

verus! {

/// The verb of a request.
#[derive(Clone, Copy, PartialEq, Eq, Structural, Debug)]
pub enum Method {
    Get,
    Put,
    Patch,
}

/// A fully-shaped request: the verb, the composed URL, the query pairs and
/// the body. The verb operations produce one; [`Http::to_request`] maps it
/// onto the transport's builder.
pub struct PreparedRequest {
    pub method: Method,
    pub url: String,
    pub query: Query,
    pub body: Body,
}

/// The transport builder a verb and URL pick.
pub open spec fn spec_method_builder(
    c: reqwest::Client,
    method: Method,
    url: Seq<char>,
) -> reqwest::RequestBuilder {
    match method {
        Method::Get => get_builder(c, url),
        Method::Put => put_builder(c, url),
        Method::Patch => patch_builder(c, url),
    }
}

impl Http {
    /// Maps a prepared request onto the transport's request builder: the
    /// verb and URL pick the builder, the query pairs are attached, and the
    /// body is encoded. A body variant without its capability is refused
    /// here, before any send could happen.
    pub fn to_request(&self, prep: PreparedRequest) -> (r: Result<
        reqwest::RequestBuilder,
        HttpError,
    >)
        requires
            self.client is Some,
        ensures
            (r is Err) <==> encode_unsupported(self.caps, prep.body),
            r matches Err(e) ==> e is UnsupportedCapability,
            self.client matches Some(c) ==> encodes(
                self.caps,
                query_attached(
                    spec_method_builder(c, prep.method, prep.url@),
                    str_pairs_view(prep.query@),
                ),
                prep.body,
                r,
            ),
    {
        let PreparedRequest { method, url, query, body } = prep;
        let client = self.client.as_ref().unwrap();
        let rb = match method {
            Method::Get => transport::client_get(client, url.as_str()),
            Method::Put => transport::client_put(client, url.as_str()),
            Method::Patch => transport::client_patch(client, url.as_str()),
        };
        let rb = transport::req_query(rb, &query);
        self.body(rb, body)
    }
}

} // verus!

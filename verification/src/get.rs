//! The GET verb operation.

use vstd::prelude::*;
use crate::data::Body;
use crate::data::Http;
use crate::data::Query;
use crate::request::Method;
use crate::request::PreparedRequest;
use crate::url::spec_compose;

verus! {

impl Http {
    /// Shapes a GET request: the composed URL, the given query pairs, and
    /// no body.
    pub fn get(&self, path: &str, query: Query) -> (r: PreparedRequest)
        ensures
            r.method == Method::Get,
            r.url@ == spec_compose(self.base_url@, path@),
            r.query == query,
            r.body is Empty,
    {
        PreparedRequest { method: Method::Get, url: self.url(path), query, body: Body::Empty }
    }
}

} // verus!

//! The PUT verb operation.

use vstd::prelude::*;
use crate::data::Body;
use crate::data::Http;
use crate::data::Query;
use crate::request::Method;
use crate::request::PreparedRequest;
use crate::url::spec_compose;

verus! {

impl Http {
    /// Shapes a PUT request: the composed URL, the given query pairs, and
    /// `body` as given; whether the body can be encoded is decided by
    /// [`Http::to_request`].
    pub fn put(&self, path: &str, query: Query, body: Body) -> (r: PreparedRequest)
        ensures
            r.method == Method::Put,
            r.url@ == spec_compose(self.base_url@, path@),
            r.query == query,
            r.body == body,
    {
        PreparedRequest { method: Method::Put, url: self.url(path), query, body }
    }
}

} // verus!

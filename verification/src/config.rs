//! Rebuilding the transport client from the stored headers.

use vstd::prelude::*;
use crate::data::Header;
use crate::data::Http;
use crate::errors::HttpError;
use crate::transport;
use crate::transport::ascii_lower;
use crate::transport::client_default_headers;
use crate::transport::fresh_builder_headers;
use crate::transport::map_entries;
use crate::transport::valid_header_name;
use crate::transport::valid_header_value;

verus! {

/// Every stored header parses: each name and each value is one the
/// transport's header types accept.
pub open spec fn headers_acceptable(hs: Seq<(String, String)>) -> bool {
    forall|i: int|
        0 <= i < hs.len() ==> valid_header_name(#[trigger] hs[i].0@) && valid_header_value(
            hs[i].1@,
        )
}

/// The header table the stored pairs describe: names lowercased, a later
/// pair replacing an earlier one of the same name, every value flagged
/// sensitive.
pub open spec fn spec_header_entries(hs: Seq<(String, String)>) -> Map<Seq<char>, (Seq<char>, bool)>
    decreases hs.len(),
{
    if hs.len() == 0 {
        Map::empty()
    } else {
        spec_header_entries(hs.drop_last()).insert(ascii_lower(hs.last().0@), (hs.last().1@, true))
    }
}

/// The default-header table a client configured from the stored pairs
/// applies: the transport's own `accept` default, overridden by the stored
/// pairs.
pub open spec fn spec_client_headers(hs: Seq<(String, String)>) -> Map<Seq<char>, (Seq<char>, bool)> {
    fresh_builder_headers().union_prefer_right(spec_header_entries(hs))
}

/// How a successful `config` call relates the configuration after to the
/// one before: base URL, headers and capabilities are untouched, and a
/// client configured from the stored headers is present.
pub open spec fn configured(pre: Http, post: Http) -> bool {
    &&& post.base_url == pre.base_url
    &&& post.headers == pre.headers
    &&& post.caps == pre.caps
    &&& post.client matches Some(c) && client_default_headers(c) == spec_client_headers(
        pre.headers@,
    )
}

/// Builds the header map the transport is handed: each stored pair parsed,
/// each value flagged sensitive, a later pair replacing an earlier one of
/// the same name. A pair the transport's header types refuse — or a map
/// grown past the transport's fixed capacity — is `ClientBuildFailed`.
#[verifier::loop_isolation(false)]
pub fn build_header_map(headers: &Header) -> (r: Result<reqwest::header::HeaderMap, HttpError>)
    ensures
        r matches Ok(m) ==> map_entries(m) == spec_header_entries(headers@)
            && headers_acceptable(headers@),
        !headers_acceptable(headers@) ==> r is Err,
        r is Err ==> r == Err::<reqwest::header::HeaderMap, HttpError>(
            HttpError::ClientBuildFailed,
        ),
{
    let mut map = transport::header_map_new();
    let mut i: usize = 0;
    while i < headers.len()
        invariant
            i <= headers.len(),
            map_entries(map) == spec_header_entries(headers@.take(i as int)),
            forall|k: int|
                0 <= k < i ==> (#[trigger] valid_header_name(headers@[k].0@))
                    && valid_header_value(headers@[k].1@),
        decreases headers.len() - i,
    {
        let name = match transport::parse_header_name(headers[i].0.as_str()) {
            Ok(n) => n,
            Err(_) => {
                return Err(HttpError::ClientBuildFailed);
            },
        };
        let mut value = match transport::parse_header_value(headers[i].1.as_str()) {
            Ok(v) => v,
            Err(_) => {
                return Err(HttpError::ClientBuildFailed);
            },
        };
        transport::set_sensitive(&mut value, true);
        if transport::header_map_try_insert(&mut map, name, value).is_err() {
            return Err(HttpError::ClientBuildFailed);
        }
        proof {
            assert(valid_header_name(headers@[i as int].0@));
            assert(valid_header_value(headers@[i as int].1@));
            assert(headers@.take(i + 1).drop_last() =~= headers@.take(i as int));
            assert(headers@.take(i + 1).last() == headers@[i as int]);
            assert forall|k: int|
                0 <= k < i + 1 implies (#[trigger] valid_header_name(headers@[k].0@))
                && valid_header_value(headers@[k].1@) by {
                if k == i {
                    assert(valid_header_name(headers@[k].0@));
                }
            }
        }
        i += 1;
    }
    proof {
        assert(headers@.take(headers@.len() as int) =~= headers@);
        assert forall|k: int|
            0 <= k < headers@.len() implies valid_header_name(#[trigger] headers@[k].0@)
            && valid_header_value(headers@[k].1@) by {
            assert(valid_header_name(headers@[k].0@) && valid_header_value(headers@[k].1@));
        }
        assert(headers_acceptable(headers@));
    }
    Ok(map)
}

impl Http {
    /// Builds a new transport client that applies the stored headers to
    /// every request it sends — each value flagged sensitive, so the
    /// transport renders none of them in diagnostic output — and replaces
    /// `client` with it, leaving `base_url` and `headers` untouched. A
    /// header the backend refuses, or a client that cannot be constructed,
    /// is `ClientBuildFailed`, and `client` is then left as it was. May be
    /// called again; each success fully replaces the prior client.
    pub fn config(&mut self) -> (r: Result<(), HttpError>)
        ensures
            final(self).base_url == old(self).base_url,
            final(self).headers == old(self).headers,
            final(self).caps == old(self).caps,
            r is Ok ==> configured(*old(self), *final(self)),
            r is Ok ==> headers_acceptable(old(self).headers@),
            !headers_acceptable(old(self).headers@) ==> r is Err,
            r is Err ==> r == Err::<(), HttpError>(HttpError::ClientBuildFailed)
                && final(self).client == old(self).client,
    {
        let map = match build_header_map(&self.headers) {
            Ok(m) => m,
            Err(e) => {
                return Err(e);
            },
        };
        let builder = transport::client_builder();
        let builder = transport::builder_default_headers(builder, map);
        match transport::builder_build(builder) {
            Ok(c) => {
                self.client = Some(c);
                Ok(())
            },
            Err(_) => Err(HttpError::ClientBuildFailed),
        }
    }
}

/// Two `config` calls in sequence leave the configuration as one call does:
/// the fields other than the client are those of the start, and a client
/// configured from those same stored headers is present.
pub proof fn lemma_config_twice(h0: Http, h1: Http, h2: Http)
    requires
        configured(h0, h1),
        configured(h1, h2),
    ensures
        configured(h0, h2),
{
}

} // verus!

//! Joining a base URL and a relative path into one request URL.

use vstd::prelude::*;
use crate::data::Http;

verus! {

/// The join rule: when the base ends with `/` or the path starts with `/`,
/// the two are concatenated directly; otherwise exactly one `/` is put
/// between them. When both hold, the result keeps the doubled `/`: that is
/// the documented behaviour, not a repair site.
pub open spec fn spec_compose(base: Seq<char>, path: Seq<char>) -> Seq<char> {
    if (base.len() > 0 && base.last() == '/') || (path.len() > 0 && path.first() == '/') {
        base + path
    } else {
        base + seq!['/'] + path
    }
}

/// Joins `base` and `path` by the rule of [`spec_compose`]. Total over all
/// string inputs and free of side effects.
pub fn compose(base: &str, path: &str) -> (r: String)
    ensures
        r@ == spec_compose(base@, path@),
{
    let n = base.unicode_len();
    let pn = path.unicode_len();
    let direct = (n > 0 && base.get_char(n - 1) == '/') || (pn > 0 && path.get_char(0) == '/');
    let mut r = base.to_owned();
    if direct {
        r.append(path);
        proof {
            assert(r@ =~= spec_compose(base@, path@));
        }
    } else {
        r.append("/");
        r.append(path);
        proof {
            reveal_strlit("/");
            assert("/"@ =~= seq!['/']);
            assert(r@ =~= spec_compose(base@, path@));
        }
    }
    r
}

impl Http {
    /// The request URL for `path` against this configuration's base.
    pub fn url(&self, path: &str) -> (r: String)
        ensures
            r@ == spec_compose(self.base_url@, path@),
    {
        compose(self.base_url.as_str(), path)
    }
}

} // verus!

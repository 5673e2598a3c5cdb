//! The shape a base URL must have, and a checker for it.
//!
//! A base URL is an optional scheme (`http://` or `https://`), then a host
//! made of one or more dot-terminated labels of letters, digits and `-`
//! followed by a top-level domain of two or more letters, then an optional
//! path that starts with `/` and may not span a line break. As a pattern:
//! `^(https?://)?([a-zA-Z0-9-]+\.)+[a-zA-Z]{2,}(/.*)?$`.

use vstd::prelude::*;

verus! {

pub open spec fn is_alpha(c: char) -> bool {
    ('a' <= c && c <= 'z') || ('A' <= c && c <= 'Z')
}

pub open spec fn is_digit(c: char) -> bool {
    '0' <= c && c <= '9'
}

/// A character allowed in a host label: a letter, a digit, or `-`.
pub open spec fn is_label_char(c: char) -> bool {
    is_alpha(c) || is_digit(c) || c == '-'
}

/// A top-level domain: two or more letters.
pub open spec fn is_tld(s: Seq<char>) -> bool {
    s.len() >= 2 && (forall|i: int| 0 <= i < s.len() ==> is_alpha(#[trigger] s[i]))
}

/// A host: one or more labels, each non-empty and dot-terminated, followed
/// by a top-level domain.
pub open spec fn is_host(s: Seq<char>) -> bool
    decreases s.len(),
{
    exists|i: int|
        1 <= i < s.len() && (forall|j: int| 0 <= j < i ==> is_label_char(#[trigger] s[j]))
            && s[i] == '.' && (is_tld(s.skip(i + 1)) || is_host(s.skip(i + 1)))
}

/// What may follow the host: nothing, or a path that starts with `/` and
/// contains no line break.
pub open spec fn is_tail(s: Seq<char>) -> bool {
    s.len() == 0 || (s[0] == '/' && (forall|i: int| 1 <= i < s.len() ==> #[trigger] s[i] != '\n'))
}

/// A host followed by a tail.
pub open spec fn is_host_tail(s: Seq<char>) -> bool {
    exists|i: int| 0 <= i <= s.len() && is_host(#[trigger] s.take(i)) && is_tail(s.skip(i))
}

pub open spec fn has_scheme_http(s: Seq<char>) -> bool {
    s.len() >= 7 && s[0] == 'h' && s[1] == 't' && s[2] == 't' && s[3] == 'p' && s[4] == ':'
        && s[5] == '/' && s[6] == '/'
}

pub open spec fn has_scheme_https(s: Seq<char>) -> bool {
    s.len() >= 8 && s[0] == 'h' && s[1] == 't' && s[2] == 't' && s[3] == 'p' && s[4] == 's'
        && s[5] == ':' && s[6] == '/' && s[7] == '/'
}

/// A valid base URL: an optional scheme, then a host and tail.
pub open spec fn is_valid_base_url(s: Seq<char>) -> bool {
    ||| is_host_tail(s)
    ||| (has_scheme_http(s) && is_host_tail(s.skip(7)))
    ||| (has_scheme_https(s) && is_host_tail(s.skip(8)))
}

proof fn lemma_host_elim(s: Seq<char>) -> (i: int)
    requires
        is_host(s),
    ensures
        1 <= i < s.len(),
        forall|j: int| 0 <= j < i ==> is_label_char(#[trigger] s[j]),
        s[i] == '.',
        is_tld(s.skip(i + 1)) || is_host(s.skip(i + 1)),
{
    choose|i: int|
        1 <= i < s.len() && (forall|j: int| 0 <= j < i ==> is_label_char(#[trigger] s[j]))
            && s[i] == '.' && (is_tld(s.skip(i + 1)) || is_host(s.skip(i + 1)))
}

/// Every character of a host is a label character or a dot.
proof fn lemma_host_chars(s: Seq<char>)
    requires
        is_host(s),
    ensures
        forall|k: int| 0 <= k < s.len() ==> is_label_char(#[trigger] s[k]) || s[k] == '.',
    decreases s.len(),
{
    let i = lemma_host_elim(s);
    if is_host(s.skip(i + 1)) {
        lemma_host_chars(s.skip(i + 1));
    }
    assert forall|k: int| 0 <= k < s.len() implies is_label_char(#[trigger] s[k]) || s[k] == '.' by {
        if k > i {
            assert(s.skip(i + 1)[k - i - 1] == s[k]);
            if is_tld(s.skip(i + 1)) {
                assert(is_alpha(s.skip(i + 1)[k - i - 1]));
            }
        }
    }
}

fn alpha_char(c: char) -> (r: bool)
    ensures
        r == is_alpha(c),
{
    let u = c as u32;
    (97 <= u && u <= 122) || (65 <= u && u <= 90)
}

fn label_char(c: char) -> (r: bool)
    ensures
        r == is_label_char(c),
{
    let u = c as u32;
    (97 <= u && u <= 122) || (65 <= u && u <= 90) || (48 <= u && u <= 57) || u == 45
}

#[verifier::loop_isolation(false)]
fn str_chars(s: &str) -> (v: Vec<char>)
    ensures
        v@ == s@,
{
    let n = s.unicode_len();
    let mut v: Vec<char> = Vec::new();
    let mut i: usize = 0;
    while i < n
        invariant
            i <= n,
            n == s@.len(),
            v@ == s@.take(i as int),
        decreases n - i,
    {
        v.push(s.get_char(i));
        proof {
            assert(s@.take(i + 1) =~= s@.take(i as int).push(s@[i as int]));
        }
        i += 1;
    }
    proof {
        assert(s@.take(n as int) =~= s@);
    }
    v
}

#[verifier::loop_isolation(false)]
fn check_tld(v: &Vec<char>, lo: usize, hi: usize) -> (r: bool)
    requires
        lo <= hi <= v.len(),
    ensures
        r == is_tld(v@.subrange(lo as int, hi as int)),
{
    let ghost sub = v@.subrange(lo as int, hi as int);
    if hi - lo < 2 {
        return false;
    }
    let mut j = lo;
    while j < hi
        invariant
            lo <= j <= hi <= v.len(),
            forall|k: int| lo <= k < j ==> is_alpha(#[trigger] v@[k]),
        decreases hi - j,
    {
        if !alpha_char(v[j]) {
            proof {
                assert(sub[j - lo] == v@[j as int]);
            }
            return false;
        }
        j += 1;
    }
    proof {
        assert forall|i: int| 0 <= i < sub.len() implies is_alpha(#[trigger] sub[i]) by {
            assert(sub[i] == v@[lo + i]);
        }
    }
    true
}

#[verifier::loop_isolation(false)]
fn check_host(v: &Vec<char>, lo: usize, hi: usize) -> (r: bool)
    requires
        lo <= hi <= v.len(),
    ensures
        r == is_host(v@.subrange(lo as int, hi as int)),
    decreases hi - lo,
{
    let ghost sub = v@.subrange(lo as int, hi as int);
    let mut j = lo;
    while j < hi && label_char(v[j])
        invariant
            lo <= j <= hi <= v.len(),
            forall|k: int| lo <= k < j ==> is_label_char(#[trigger] v@[k]),
        decreases hi - j,
    {
        j += 1;
    }
    if j == hi {
        // all characters are label characters, so the host has no dot
        proof {
            assert forall|i: int|
                !(1 <= i < sub.len() && (forall|jj: int|
                    0 <= jj < i ==> is_label_char(#[trigger] sub[jj])) && sub[i] == '.' && (is_tld(
                    sub.skip(i + 1),
                ) || is_host(sub.skip(i + 1)))) by {
                if 1 <= i < sub.len() {
                    assert(sub[i] == v@[lo + i]);
                    assert(is_label_char(sub[i]));
                }
            }
        }
        return false;
    }
    let c = v[j];
    let ghost jr = j - lo;
    if c != '.' {
        // a character that can stand in no part of a host
        proof {
            assert(sub[jr] == v@[j as int]);
            assert forall|i: int|
                !(1 <= i < sub.len() && (forall|jj: int|
                    0 <= jj < i ==> is_label_char(#[trigger] sub[jj])) && sub[i] == '.' && (is_tld(
                    sub.skip(i + 1),
                ) || is_host(sub.skip(i + 1)))) by {
                if 1 <= i < sub.len() {
                    if i < jr {
                        assert(sub[i] == v@[lo + i]);
                        assert(is_label_char(sub[i]));
                    } else if i == jr {
                        assert(sub[i] != '.');
                    } else {
                        assert(!is_label_char(sub[jr]));
                    }
                }
            }
        }
        return false;
    }
    if j == lo {
        // the first label would be empty
        proof {
            assert(sub[0] == v@[j as int]);
            assert forall|i: int|
                !(1 <= i < sub.len() && (forall|jj: int|
                    0 <= jj < i ==> is_label_char(#[trigger] sub[jj])) && sub[i] == '.' && (is_tld(
                    sub.skip(i + 1),
                ) || is_host(sub.skip(i + 1)))) by {
                if 1 <= i < sub.len() {
                    assert(!is_label_char(sub[0]));
                }
            }
        }
        return false;
    }
    // a non-empty label ends at the first dot; the rest is a top-level
    // domain or a further host
    let rest = check_tld(v, j + 1, hi) || check_host(v, j + 1, hi);
    proof {
        assert(sub.skip(jr + 1) =~= v@.subrange(j + 1, hi as int));
        assert(sub[jr] == v@[j as int]);
        if rest {
            assert forall|jj: int| 0 <= jj < jr implies is_label_char(#[trigger] sub[jj]) by {
                assert(sub[jj] == v@[lo + jj]);
            }
            assert(is_tld(sub.skip(jr + 1)) || is_host(sub.skip(jr + 1)));
            assert(is_host(sub));
        } else {
            assert forall|i: int|
                !(1 <= i < sub.len() && (forall|jj: int|
                    0 <= jj < i ==> is_label_char(#[trigger] sub[jj])) && sub[i] == '.' && (is_tld(
                    sub.skip(i + 1),
                ) || is_host(sub.skip(i + 1)))) by {
                if 1 <= i < sub.len() {
                    if i < jr {
                        assert(sub[i] == v@[lo + i]);
                        assert(is_label_char(sub[i]));
                    } else if i == jr {
                        assert(!is_tld(sub.skip(jr + 1)) && !is_host(sub.skip(jr + 1)));
                    } else {
                        assert(!is_label_char(sub[jr]));
                    }
                }
            }
            assert(!is_host(sub));
        }
    }
    rest
}

#[verifier::loop_isolation(false)]
fn check_host_tail(v: &Vec<char>, lo: usize, hi: usize) -> (r: bool)
    requires
        lo <= hi <= v.len(),
    ensures
        r == is_host_tail(v@.subrange(lo as int, hi as int)),
{
    let ghost sub = v@.subrange(lo as int, hi as int);
    // the host may not contain a slash, so it ends at the first one
    let mut p = lo;
    while p < hi && v[p] != '/'
        invariant
            lo <= p <= hi <= v.len(),
            forall|k: int| lo <= k < p ==> #[trigger] v@[k] != '/',
        decreases hi - p,
    {
        p += 1;
    }
    let ghost pr = p - lo;
    proof {
        assert(sub.take(pr) =~= v@.subrange(lo as int, p as int));
    }
    let host_ok = check_host(v, lo, p);
    if !host_ok {
        proof {
            assert forall|i: int|
                !(0 <= i <= sub.len() && is_host(#[trigger] sub.take(i)) && is_tail(
                    sub.skip(i),
                )) by {
                if 0 <= i <= sub.len() && is_host(sub.take(i)) && is_tail(sub.skip(i)) {
                    if i < pr {
                        assert(sub.skip(i)[0] == v@[lo + i]);
                        assert(sub.skip(i).len() > 0);
                    } else if i == pr {
                        assert(!is_host(sub.take(pr)));
                    } else {
                        lemma_host_chars(sub.take(i));
                        assert(sub.take(i)[pr] == v@[p as int]);
                        assert(v@[p as int] == '/');
                        assert(is_label_char(sub.take(i)[pr]) || sub.take(i)[pr] == '.');
                    }
                }
            }
        }
        return false;
    }
    if p < hi {
        // the tail starts at the slash and may not contain a line break
        let mut q = p + 1;
        while q < hi && v[q] != '\n'
            invariant
                p < q <= hi <= v.len(),
                forall|k: int| p < k < q ==> #[trigger] v@[k] != '\n',
            decreases hi - q,
        {
            q += 1;
        }
        if q < hi {
            proof {
                assert(v@[q as int] == '\n');
                assert forall|i: int|
                    !(0 <= i <= sub.len() && is_host(#[trigger] sub.take(i)) && is_tail(
                        sub.skip(i),
                    )) by {
                    if 0 <= i <= sub.len() && is_host(sub.take(i)) && is_tail(sub.skip(i)) {
                        if i < pr {
                            assert(sub.skip(i)[0] == v@[lo + i]);
                            assert(sub.skip(i).len() > 0);
                        } else if i == pr {
                            assert(sub.skip(pr)[q - p] == v@[q as int]);
                            assert(1 <= q - p < sub.skip(pr).len());
                        } else {
                            lemma_host_chars(sub.take(i));
                            assert(sub.take(i)[pr] == v@[p as int]);
                            assert(v@[p as int] == '/');
                            assert(is_label_char(sub.take(i)[pr]) || sub.take(i)[pr] == '.');
                        }
                    }
                }
            }
            return false;
        }
        proof {
            assert(sub.skip(pr)[0] == v@[p as int]);
            assert forall|k: int| 1 <= k < sub.skip(pr).len() implies #[trigger] sub.skip(pr)[k]
                != '\n' by {
                assert(sub.skip(pr)[k] == v@[p + k]);
            }
            assert(is_tail(sub.skip(pr)));
            assert(is_host_tail(sub));
        }
        true
    } else {
        proof {
            assert(sub.skip(pr) =~= Seq::<char>::empty());
            assert(is_tail(sub.skip(pr)));
            assert(is_host_tail(sub));
        }
        true
    }
}

/// Under an `http://` scheme no match without the scheme is possible: the
/// colon can stand in no host, and no dot comes before it.
proof fn lemma_scheme_http_excludes(s: Seq<char>)
    requires
        has_scheme_http(s),
    ensures
        !is_host_tail(s),
{
    assert forall|i: int|
        !(0 <= i <= s.len() && is_host(#[trigger] s.take(i)) && is_tail(s.skip(i))) by {
        if 0 <= i <= s.len() && is_host(s.take(i)) {
            if i > 4 {
                lemma_host_chars(s.take(i));
                assert(s.take(i)[4] == ':');
                assert(is_label_char(s.take(i)[4]) || s.take(i)[4] == '.');
            } else {
                let ii = lemma_host_elim(s.take(i));
                assert(s.take(i)[ii] == s[ii]);
                assert(s[1] == 't' && s[2] == 't' && s[3] == 'p');
            }
        }
    }
}

/// Under an `https://` scheme no match without the scheme is possible.
proof fn lemma_scheme_https_excludes(s: Seq<char>)
    requires
        has_scheme_https(s),
    ensures
        !is_host_tail(s),
{
    assert forall|i: int|
        !(0 <= i <= s.len() && is_host(#[trigger] s.take(i)) && is_tail(s.skip(i))) by {
        if 0 <= i <= s.len() && is_host(s.take(i)) {
            if i > 5 {
                lemma_host_chars(s.take(i));
                assert(s.take(i)[5] == ':');
                assert(is_label_char(s.take(i)[5]) || s.take(i)[5] == '.');
            } else {
                let ii = lemma_host_elim(s.take(i));
                assert(s.take(i)[ii] == s[ii]);
                assert(s[1] == 't' && s[2] == 't' && s[3] == 'p' && s[4] == 's');
            }
        }
    }
}

/// Decides whether `s` is a valid base URL.
pub fn is_valid_url(s: &str) -> (r: bool)
    ensures
        r == is_valid_base_url(s@),
{
    let v = str_chars(s);
    let n = v.len();
    let http = n >= 7 && v[0] == 'h' && v[1] == 't' && v[2] == 't' && v[3] == 'p' && v[4] == ':'
        && v[5] == '/' && v[6] == '/';
    let https = n >= 8 && v[0] == 'h' && v[1] == 't' && v[2] == 't' && v[3] == 'p' && v[4] == 's'
        && v[5] == ':' && v[6] == '/' && v[7] == '/';
    if http {
        let r = check_host_tail(&v, 7, n);
        proof {
            assert(v@.subrange(7, n as int) =~= s@.skip(7));
            lemma_scheme_http_excludes(s@);
        }
        r
    } else if https {
        let r = check_host_tail(&v, 8, n);
        proof {
            assert(v@.subrange(8, n as int) =~= s@.skip(8));
            lemma_scheme_https_excludes(s@);
        }
        r
    } else {
        let r = check_host_tail(&v, 0, n);
        proof {
            assert(v@.subrange(0, n as int) =~= s@);
        }
        r
    }
}

} // verus!

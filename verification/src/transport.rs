//! The trusted boundary to the transport and to JSON values.
//!
//! Everything here is believed, not verified: the type declarations make the
//! outside types usable in signatures, the named results stand for what the
//! outside calls return, and each wrapper holds exactly one outside call.
//! The transport's own work — pooling, TLS, sending — is the outside
//! crate's responsibility.

use vstd::prelude::*;

verus! {

#[verifier::external_type_specification]
#[verifier::external_body]
pub struct ExClient(reqwest::Client);

#[verifier::external_type_specification]
#[verifier::external_body]
pub struct ExClientBuilder(reqwest::ClientBuilder);

#[verifier::external_type_specification]
#[verifier::external_body]
pub struct ExRequestBuilder(reqwest::RequestBuilder);

#[verifier::external_type_specification]
#[verifier::external_body]
#[verifier::reject_recursive_types(T)]
pub struct ExHeaderMap<T>(reqwest::header::HeaderMap<T>);

#[verifier::external_type_specification]
#[verifier::external_body]
pub struct ExHeaderName(reqwest::header::HeaderName);

#[verifier::external_type_specification]
#[verifier::external_body]
pub struct ExHeaderValue(reqwest::header::HeaderValue);

#[verifier::external_type_specification]
#[verifier::external_body]
pub struct ExInvalidHeaderName(reqwest::header::InvalidHeaderName);

#[verifier::external_type_specification]
#[verifier::external_body]
pub struct ExInvalidHeaderValue(reqwest::header::InvalidHeaderValue);

#[verifier::external_type_specification]
#[verifier::external_body]
pub struct ExMaxSizeReached(reqwest::header::MaxSizeReached);

#[verifier::external_type_specification]
#[verifier::external_body]
pub struct ExReqwestError(reqwest::Error);

#[verifier::external_type_specification]
#[verifier::external_body]
pub struct ExMultipartForm(reqwest::multipart::Form);

#[verifier::external_type_specification]
#[verifier::external_body]
pub struct ExMultipartPart(reqwest::multipart::Part);

#[verifier::external_type_specification]
#[verifier::external_body]
pub struct ExJsonValue(serde_json::Value);

// What the deterministic builder transformations return. Each name stands
// for the result of one outside call as a function of its arguments alone;
// what a name is on given values is said nowhere, so nothing rests on it
// but the identities the wrappers state.

/// The GET request builder reqwest::Client::get returns for a URL.
pub uninterp spec fn get_builder(c: reqwest::Client, url: Seq<char>) -> reqwest::RequestBuilder;

/// The PUT request builder reqwest::Client::put returns for a URL.
pub uninterp spec fn put_builder(c: reqwest::Client, url: Seq<char>) -> reqwest::RequestBuilder;

/// The PATCH request builder reqwest::Client::patch returns for a URL.
pub uninterp spec fn patch_builder(c: reqwest::Client, url: Seq<char>) -> reqwest::RequestBuilder;

/// The builder with the (name, value) pairs appended to its query string.
pub uninterp spec fn query_attached(
    rb: reqwest::RequestBuilder,
    q: Seq<(Seq<char>, Seq<char>)>,
) -> reqwest::RequestBuilder;

/// The builder with the value serialized as its JSON body.
pub uninterp spec fn json_attached(
    rb: reqwest::RequestBuilder,
    v: serde_json::Value,
) -> reqwest::RequestBuilder;

/// The builder with the bytes attached verbatim as its body.
pub uninterp spec fn bytes_attached(rb: reqwest::RequestBuilder, b: Seq<u8>) -> reqwest::RequestBuilder;

/// The builder with the string attached verbatim as its text body.
pub uninterp spec fn text_attached(rb: reqwest::RequestBuilder, t: Seq<char>) -> reqwest::RequestBuilder;

/// The builder with the (name, value) pairs URL-encoded as its form body.
pub uninterp spec fn form_attached(
    rb: reqwest::RequestBuilder,
    pairs: Seq<(Seq<char>, Seq<char>)>,
) -> reqwest::RequestBuilder;

/// The builder with the multipart form attached as its body. The form's
/// boundary is drawn at random when the form is created, so this is a
/// function of the form value, never of its sections alone.
pub uninterp spec fn multipart_attached(
    rb: reqwest::RequestBuilder,
    f: reqwest::multipart::Form,
) -> reqwest::RequestBuilder;

/// The (field name, content, file name) sections a multipart form holds, in
/// order.
pub uninterp spec fn form_sections(f: reqwest::multipart::Form) -> Seq<(Seq<char>, Seq<u8>, Seq<char>)>;

/// The content bytes a multipart part holds.
pub uninterp spec fn part_content(p: reqwest::multipart::Part) -> Seq<u8>;

/// The file name set on a multipart part.
pub uninterp spec fn part_file_name(p: reqwest::multipart::Part) -> Seq<char>;

/// The characters of a parsed header name (stored lowercased).
pub uninterp spec fn header_name_chars(n: reqwest::header::HeaderName) -> Seq<char>;

/// The characters a header value was parsed from.
pub uninterp spec fn header_value_chars(v: reqwest::header::HeaderValue) -> Seq<char>;

/// Whether a header value is flagged sensitive: excluded from plaintext
/// rendering by every debug and log facility of the transport.
pub uninterp spec fn value_sensitive(v: reqwest::header::HeaderValue) -> bool;

/// What a header map holds: for each stored (lowercased) name, the value's
/// characters and its sensitivity flag.
pub uninterp spec fn map_entries(m: reqwest::header::HeaderMap) -> Map<Seq<char>, (Seq<char>, bool)>;

/// The default-header table a client builder was configured with.
pub uninterp spec fn builder_headers(b: reqwest::ClientBuilder) -> Map<Seq<char>, (Seq<char>, bool)>;

/// The default-header table a built client applies to every request.
pub uninterp spec fn client_default_headers(c: reqwest::Client) -> Map<Seq<char>, (Seq<char>, bool)>;

/// (name, value) pairs of `&str`, as character sequences.
pub open spec fn str_pairs_view(q: Seq<(&str, &str)>) -> Seq<(Seq<char>, Seq<char>)> {
    q.map_values(|p: (&str, &str)| (p.0@, p.1@))
}

/// (name, value) pairs of `String`, as character sequences.
pub open spec fn string_pairs_view(q: Seq<(String, String)>) -> Seq<(Seq<char>, Seq<char>)> {
    q.map_values(|p: (String, String)| (p.0@, p.1@))
}

/// A character the http crate accepts in a header name: the token set
/// `! # $ % & ' * + - . ^ _ ` | ~`, digits and letters (upper case is
/// accepted and stored lowercased).
pub open spec fn valid_header_name_char(c: char) -> bool {
    ||| ('a' <= c && c <= 'z')
    ||| ('A' <= c && c <= 'Z')
    ||| ('0' <= c && c <= '9')
    ||| c == '!' || c == '#' || c == '$' || c == '%' || c == '&' || c == '\'' || c == '*'
    ||| c == '+' || c == '-' || c == '.' || c == '^' || c == '_' || c == '`' || c == '|'
    ||| c == '~'
}

/// A header name the http crate accepts: non-empty, at most 65535 bytes,
/// every character from the token set.
pub open spec fn valid_header_name(s: Seq<char>) -> bool {
    1 <= s.len() <= 65535 && (forall|i: int|
        0 <= i < s.len() ==> valid_header_name_char(#[trigger] s[i]))
}

/// A character the http crate accepts in a header value: horizontal tab, or
/// anything that is neither a control character below space nor delete.
pub open spec fn valid_header_value_char(c: char) -> bool {
    c == '\t' || (c as u32 >= 32 && c as u32 != 127)
}

/// A header value the http crate accepts: every character valid.
pub open spec fn valid_header_value(s: Seq<char>) -> bool {
    forall|i: int| 0 <= i < s.len() ==> valid_header_value_char(#[trigger] s[i])
}

/// An upper-case ASCII letter lowered; every other character unchanged.
pub open spec fn ascii_lower_char(c: char) -> char {
    if 'A' <= c && c <= 'Z' {
        ((c as u8) + 32) as char
    } else {
        c
    }
}

/// The sequence with its upper-case ASCII letters lowered, as the http
/// crate normalizes header names.
pub open spec fn ascii_lower(s: Seq<char>) -> Seq<char> {
    s.map_values(|c: char| ascii_lower_char(c))
}

/// The empty header table.
pub open spec fn no_header_entries() -> Map<Seq<char>, (Seq<char>, bool)> {
    Map::empty()
}

/// The default-header table a fresh reqwest client builder starts with: an
/// `accept: */*` entry, not flagged sensitive.
pub open spec fn fresh_builder_headers() -> Map<Seq<char>, (Seq<char>, bool)> {
    no_header_entries().insert("accept"@, ("*/*"@, false))
}

/// Relies on reqwest::Client::get: a GET request builder for `url`.
#[verifier::external_body]
pub(crate) fn client_get(c: &reqwest::Client, url: &str) -> (r: reqwest::RequestBuilder)
    ensures
        r == get_builder(*c, url@),
{
    c.get(url)
}

/// Relies on reqwest::Client::put: a PUT request builder for `url`.
#[verifier::external_body]
pub(crate) fn client_put(c: &reqwest::Client, url: &str) -> (r: reqwest::RequestBuilder)
    ensures
        r == put_builder(*c, url@),
{
    c.put(url)
}

/// Relies on reqwest::Client::patch: a PATCH request builder for `url`.
#[verifier::external_body]
pub(crate) fn client_patch(c: &reqwest::Client, url: &str) -> (r: reqwest::RequestBuilder)
    ensures
        r == patch_builder(*c, url@),
{
    c.patch(url)
}

/// Relies on reqwest::RequestBuilder::query: appends the (name, value)
/// pairs to the URL's query string, in order; an empty sequence leaves the
/// URL without a query string.
#[verifier::external_body]
pub(crate) fn req_query(rb: reqwest::RequestBuilder, query: &Vec<(&str, &str)>) -> (r:
    reqwest::RequestBuilder)
    ensures
        r == query_attached(rb, str_pairs_view(query@)),
{
    rb.query(query)
}

/// Relies on reqwest::RequestBuilder::json: serializes the value as the
/// JSON request body and sets the JSON content type.
#[verifier::external_body]
pub(crate) fn req_json(rb: reqwest::RequestBuilder, value: &serde_json::Value) -> (r:
    reqwest::RequestBuilder)
    ensures
        r == json_attached(rb, *value),
{
    rb.json(value)
}

/// Relies on reqwest::RequestBuilder::body: attaches the bytes verbatim.
#[verifier::external_body]
pub(crate) fn req_body_bytes(rb: reqwest::RequestBuilder, bytes: Vec<u8>) -> (r:
    reqwest::RequestBuilder)
    ensures
        r == bytes_attached(rb, bytes@),
{
    rb.body(bytes)
}

/// Relies on reqwest::RequestBuilder::body: attaches the string verbatim.
#[verifier::external_body]
pub(crate) fn req_body_text(rb: reqwest::RequestBuilder, text: String) -> (r:
    reqwest::RequestBuilder)
    ensures
        r == text_attached(rb, text@),
{
    rb.body(text)
}

/// Relies on reqwest::RequestBuilder::form: URL-encodes the (name, value)
/// pairs, in order, as the form body and sets the form content type.
#[verifier::external_body]
pub(crate) fn req_form(rb: reqwest::RequestBuilder, pairs: &Vec<(String, String)>) -> (r:
    reqwest::RequestBuilder)
    ensures
        r == form_attached(rb, string_pairs_view(pairs@)),
{
    rb.form(pairs)
}

/// Relies on reqwest::RequestBuilder::multipart: attaches the form as a
/// multipart body.
#[verifier::external_body]
pub(crate) fn req_multipart(rb: reqwest::RequestBuilder, form: reqwest::multipart::Form) -> (r:
    reqwest::RequestBuilder)
    ensures
        r == multipart_attached(rb, form),
{
    rb.multipart(form)
}

/// Relies on reqwest::multipart::Form::new: an empty multipart form.
#[verifier::external_body]
pub(crate) fn multipart_form_new() -> (r: reqwest::multipart::Form)
    ensures
        form_sections(r) == Seq::<(Seq<char>, Seq<u8>, Seq<char>)>::empty(),
{
    reqwest::multipart::Form::new()
}

/// Relies on reqwest::multipart::Part::bytes: a part holding the bytes.
#[verifier::external_body]
pub(crate) fn multipart_part_bytes(bytes: Vec<u8>) -> (r: reqwest::multipart::Part)
    ensures
        part_content(r) == bytes@,
{
    reqwest::multipart::Part::bytes(bytes)
}

/// Relies on reqwest::multipart::Part::file_name: the part with its file
/// name set and its content kept.
#[verifier::external_body]
pub(crate) fn multipart_part_file_name(part: reqwest::multipart::Part, filename: String) -> (r:
    reqwest::multipart::Part)
    ensures
        part_content(r) == part_content(part),
        part_file_name(r) == filename@,
{
    part.file_name(filename)
}

/// Relies on reqwest::multipart::Form::part: the form with the named part
/// appended after the existing sections.
#[verifier::external_body]
pub(crate) fn multipart_form_part(
    form: reqwest::multipart::Form,
    name: String,
    part: reqwest::multipart::Part,
) -> (r: reqwest::multipart::Form)
    ensures
        form_sections(r) == form_sections(form).push(
            (name@, part_content(part), part_file_name(part)),
        ),
{
    form.part(name, part)
}

/// Relies on reqwest::header::HeaderMap::new: an empty header map.
#[verifier::external_body]
pub(crate) fn header_map_new() -> (r: reqwest::header::HeaderMap)
    ensures
        map_entries(r) == no_header_entries(),
{
    reqwest::header::HeaderMap::new()
}

/// Relies on reqwest::header::HeaderName::from_bytes: accepts exactly the
/// non-empty names of at most 65535 token characters, and stores them
/// lowercased.
#[verifier::external_body]
pub(crate) fn parse_header_name(s: &str) -> (r: Result<
    reqwest::header::HeaderName,
    reqwest::header::InvalidHeaderName,
>)
    ensures
        (r is Ok) <==> valid_header_name(s@),
        r matches Ok(n) ==> header_name_chars(n) == ascii_lower(s@),
{
    reqwest::header::HeaderName::from_bytes(s.as_bytes())
}

/// Relies on reqwest::header::HeaderValue::from_str: accepts exactly the
/// strings whose characters are valid in a value, keeps them verbatim, and
/// starts with the sensitivity flag off.
#[verifier::external_body]
pub(crate) fn parse_header_value(s: &str) -> (r: Result<
    reqwest::header::HeaderValue,
    reqwest::header::InvalidHeaderValue,
>)
    ensures
        (r is Ok) <==> valid_header_value(s@),
        r matches Ok(v) ==> header_value_chars(v) == s@ && !value_sensitive(v),
{
    reqwest::header::HeaderValue::from_str(s)
}

/// Relies on reqwest::header::HeaderValue::set_sensitive: sets the flag
/// that keeps the value out of plaintext debug and log rendering; the
/// value's characters are untouched.
#[verifier::external_body]
pub(crate) fn set_sensitive(value: &mut reqwest::header::HeaderValue, sensitive: bool)
    ensures
        header_value_chars(*final(value)) == header_value_chars(*old(value)),
        value_sensitive(*final(value)) == sensitive,
{
    value.set_sensitive(sensitive);
}

/// Relies on reqwest::header::HeaderMap::try_insert: stores the value under
/// the name — a later insert for the same name replaces the earlier value —
/// handing back what the name was mapped to before, if anything; refuses,
/// rather than aborts, when the map's fixed capacity is reached.
#[verifier::external_body]
pub(crate) fn header_map_try_insert(
    map: &mut reqwest::header::HeaderMap,
    name: reqwest::header::HeaderName,
    value: reqwest::header::HeaderValue,
) -> (r: Result<Option<reqwest::header::HeaderValue>, reqwest::header::MaxSizeReached>)
    ensures
        r is Ok ==> map_entries(*final(map)) == map_entries(*old(map)).insert(
            header_name_chars(name),
            (header_value_chars(value), value_sensitive(value)),
        ),
{
    map.try_insert(name, value)
}

/// Relies on reqwest::Client::builder: a client builder with default
/// settings, whose default-header table holds only `accept: */*`.
#[verifier::external_body]
pub(crate) fn client_builder() -> (r: reqwest::ClientBuilder)
    ensures
        builder_headers(r) == fresh_builder_headers(),
{
    reqwest::Client::builder()
}

/// Relies on reqwest::ClientBuilder::default_headers: inserts each entry of
/// the map over the builder's table, replacing an entry of the same name
/// and keeping the others.
#[verifier::external_body]
pub(crate) fn builder_default_headers(
    builder: reqwest::ClientBuilder,
    headers: reqwest::header::HeaderMap,
) -> (r: reqwest::ClientBuilder)
    ensures
        builder_headers(r) == builder_headers(builder).union_prefer_right(map_entries(headers)),
{
    builder.default_headers(headers)
}

/// Relies on reqwest::ClientBuilder::build: constructs the client, or
/// reports why the transport could not be set up; a built client applies
/// the builder's default-header table to every request it sends.
#[verifier::external_body]
pub(crate) fn builder_build(builder: reqwest::ClientBuilder) -> (r: Result<
    reqwest::Client,
    reqwest::Error,
>)
    ensures
        r matches Ok(c) ==> client_default_headers(c) == builder_headers(builder),
{
    builder.build()
}

} // verus!

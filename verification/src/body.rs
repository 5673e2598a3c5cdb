//! Mapping a body variant onto the transport's request attachment.

use vstd::prelude::*;
use crate::data::Body;
use crate::data::Caps;
use crate::data::Http;
use crate::errors::HttpError;
use crate::transport;
use crate::transport::bytes_attached;
use crate::transport::form_attached;
use crate::transport::form_sections;
use crate::transport::json_attached;
use crate::transport::multipart_attached;
use crate::transport::string_pairs_view;
use crate::transport::text_attached;

verus! {

/// When encoding must be refused: the variant needs a capability this build
/// does not have.
pub open spec fn encode_unsupported(caps: Caps, body: Body) -> bool {
    ||| (body is JSON && !caps.json)
    ||| (body is MULTIPART && !caps.native)
}

/// The multipart sections a list of (field name, content, file name)
/// entries describes, in order.
pub open spec fn sections_of(parts: Seq<(String, Vec<u8>, String)>) -> Seq<
    (Seq<char>, Seq<u8>, Seq<char>),
>
    decreases parts.len(),
{
    if parts.len() == 0 {
        Seq::empty()
    } else {
        seq![(parts[0].0@, parts[0].1@, parts[0].2@)] + sections_of(parts.skip(1))
    }
}

/// What the encoder returns for each variant under the given capabilities:
/// the untouched builder for an empty body, the builder with the payload
/// attached for the supported variants — named by the transport boundary's
/// identities — and the capability refusal, with its exact message, for a
/// variant this build cannot encode. A multipart form's boundary is drawn
/// at random, so there the result is pinned up to the form value, whose
/// sections are stated exactly.
pub open spec fn encodes(
    caps: Caps,
    req: reqwest::RequestBuilder,
    body: Body,
    r: Result<reqwest::RequestBuilder, HttpError>,
) -> bool {
    match body {
        Body::Empty => r == Ok::<reqwest::RequestBuilder, HttpError>(req),
        Body::JSON(v) => if caps.json {
            r == Ok::<reqwest::RequestBuilder, HttpError>(json_attached(req, v))
        } else {
            r matches Err(HttpError::UnsupportedCapability(m)) && m@
                == "JSON feature must be provided"@
        },
        Body::BYTES(bytes) => r == Ok::<reqwest::RequestBuilder, HttpError>(
            bytes_attached(req, bytes@),
        ),
        Body::TXT(text) => r == Ok::<reqwest::RequestBuilder, HttpError>(
            text_attached(req, text@),
        ),
        Body::FORM(pairs) => r == Ok::<reqwest::RequestBuilder, HttpError>(
            form_attached(req, string_pairs_view(pairs@)),
        ),
        Body::MULTIPART(parts) => if caps.native {
            r matches Ok(rb) && (exists|f: reqwest::multipart::Form|
                rb == multipart_attached(req, f) && #[trigger] form_sections(f) == sections_of(
                    parts@,
                ))
        } else {
            r matches Err(HttpError::UnsupportedCapability(m)) && m@
                == "Multipart is not supported on this target. On WASM use web_sys::FormData."@
        },
    }
}

impl Http {
    /// Attaches `body` to the request under construction, by variant. With
    /// no body the builder is handed back untouched. A variant whose
    /// capability is absent is refused with `UnsupportedCapability`, never
    /// by aborting: callers handle platform variance themselves.
    #[verifier::loop_isolation(false)]
    pub fn body(&self, req: reqwest::RequestBuilder, body: Body) -> (r: Result<
        reqwest::RequestBuilder,
        HttpError,
    >)
        ensures
            encodes(self.caps, req, body, r),
            (r is Err) <==> encode_unsupported(self.caps, body),
            body is Empty ==> r == Ok::<reqwest::RequestBuilder, HttpError>(req),
    {
        match body {
            Body::Empty => Ok(req),
            Body::JSON(v) => {
                if self.caps.json {
                    Ok(transport::req_json(req, &v))
                } else {
                    Err(HttpError::UnsupportedCapability("JSON feature must be provided".to_owned()))
                }
            },
            Body::BYTES(bytes) => Ok(transport::req_body_bytes(req, bytes)),
            Body::TXT(text) => Ok(transport::req_body_text(req, text)),
            Body::FORM(pairs) => Ok(transport::req_form(req, &pairs)),
            Body::MULTIPART(mut parts) => {
                if self.caps.native {
                    let ghost parts0 = parts@;
                    let mut form = transport::multipart_form_new();
                    proof {
                        assert(form_sections(form) + sections_of(parts@) =~= sections_of(parts0));
                    }
                    while parts.len() > 0
                        invariant
                            form_sections(form) + sections_of(parts@) == sections_of(parts0),
                        decreases parts.len(),
                    {
                        let ghost before = parts@;
                        let (name, bytes, filename) = parts.remove(0);
                        let part = transport::multipart_part_bytes(bytes);
                        let part = transport::multipart_part_file_name(part, filename);
                        let ghost sections_before = form_sections(form);
                        form = transport::multipart_form_part(form, name, part);
                        proof {
                            assert(parts@ =~= before.skip(1));
                            assert(form_sections(form) + sections_of(parts@) =~= sections_before
                                + sections_of(before));
                        }
                    }
                    proof {
                        assert(form_sections(form) + sections_of(parts@) =~= form_sections(form));
                    }
                    let r = transport::req_multipart(req, form);
                    proof {
                        assert(r == multipart_attached(req, form) && form_sections(form)
                            == sections_of(parts0));
                    }
                    Ok(r)
                } else {
                    Err(HttpError::UnsupportedCapability(
                        "Multipart is not supported on this target. On WASM use web_sys::FormData.".to_owned(),
                    ))
                }
            },
        }
    }
}

} // verus!

//! The error classes of the configuration layer.

use vstd::prelude::*;

verus! {

/// Every failure this layer can raise. Build-time errors come only from the
/// validating builder, `ClientBuildFailed` only from the configurator, and
/// `UnsupportedCapability` only from the body encoder; transport failures
/// stay with the transport and are never wrapped here.
#[derive(Debug)]
pub enum HttpError {
    /// A required field was never given to the builder; holds the field name.
    MissingField(String),
    /// The base URL does not have the required shape.
    InvalidUrl,
    /// The transport client could not be built from the stored headers.
    ClientBuildFailed,
    /// The body variant needs a capability this build does not have; holds
    /// the description of the restriction.
    UnsupportedCapability(String),
}

impl HttpError {
    /// A human-readable description of the error.
    pub fn message(&self) -> (r: String)
        ensures
            match self {
                HttpError::MissingField(f) => r@ == "missing field: "@ + f@,
                HttpError::InvalidUrl => r@ == "Invalid URL format"@,
                HttpError::ClientBuildFailed => r@ == "failed to build the transport client"@,
                HttpError::UnsupportedCapability(m) => r@ == m@,
            },
    {
        match self {
            HttpError::MissingField(f) => {
                let mut r = "missing field: ".to_owned();
                r.append(f.as_str());
                r
            },
            HttpError::InvalidUrl => "Invalid URL format".to_owned(),
            HttpError::ClientBuildFailed => "failed to build the transport client".to_owned(),
            HttpError::UnsupportedCapability(m) => m.as_str().to_owned(),
        }
    }
}

} // verus!

//! The IIIF data model: image information (v2 and v3), presentation
//! manifests (v2 and v3), and the errors their handling can raise.

pub mod image;
pub mod image_v2;
pub mod image_v3;
pub mod manifest;
pub mod manifest_v2;
pub mod manifest_v3;
pub mod one_or_many;
pub mod scaling;

use vstd::prelude::*;

verus! {

/// Errors raised while interpreting IIIF metadata. Variants that wrap a
/// failure of an outside layer (transport, UTF-8 decoding, JSON parsing)
/// carry the reported message as text.
#[derive(Debug, PartialEq, Eq)]
pub enum IiifError {
    Channel(String),
    FromUtf8(String),
    Deserialization(String),
    IiifMissingInfo(String),
    IiifFormatError(String),
    IiifStdIoError(String),
    IiifParseIntError(String),
}

} // verus!

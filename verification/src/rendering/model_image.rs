//! The alternative 3D asset a canvas can show instead of a tiled image.

use vstd::prelude::*;
use vstd::string::StringExecFns;

verus! {

/// A 3D model image, addressed by the URL its scene is loaded from.
#[derive(Debug, PartialEq)]
pub struct ModelImage {
    pub url: String,
}

impl ModelImage {
    pub fn new(url: &str) -> (r: ModelImage)
        ensures
            r.url@ == url@,
    {
        ModelImage { url: String::from_str(url) }
    }
}

} // verus!

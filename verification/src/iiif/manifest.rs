//! The presentation manifest of either schema version, and the identity of
//! the image a canvas shows.

use vstd::prelude::*;
use vstd::string::StringExecFns;

use crate::iiif::{manifest_v2, manifest_v3, IiifError};

verus! {

/// The `none` language key.
pub const NONE: &'static str = "none";

pub const EN: &'static str = "en";

pub const FR: &'static str = "fr";

pub const DE: &'static str = "de";

pub const ZH: &'static str = "zh";

/// A presentation manifest of either schema version.
#[derive(Debug)]
pub enum Manifest {
    Version2(manifest_v2::Manifest),
    Version3(manifest_v3::Manifest),
}

/// The identity of the image shown on one canvas: its type tag, its id, and
/// its image service's base URL.
#[derive(Debug, PartialEq)]
pub struct ImageRef {
    pub type_: String,
    pub id: String,
    pub service: String,
}

impl Manifest {
    /// Whether the canvas at the position shows an image: for version 2 the
    /// canvas of the first sequence has one, for version 3 the canvas's
    /// first annotation page does.
    pub open spec fn spec_has_image(self, canvas_index: int) -> bool {
        match self {
            Manifest::Version2(m) => {
                &&& m.sequences@.len() > 0
                &&& 0 <= canvas_index < m.sequences@[0].canvases@.len()
                &&& m.sequences@[0].canvases@[canvas_index].images@.len() > 0
            },
            Manifest::Version3(m) => {
                &&& 0 <= canvas_index < m.items@.len()
                &&& m.items@[canvas_index].items@.len() > 0
                &&& m.items@[canvas_index].items@[0].items@.len() > 0
            },
        }
    }

    /// The image identity of the first sequence's canvas at the position, as
    /// the version's structure defines it: for version 2 the first image of
    /// the canvas in the first sequence, for version 3 the first image of
    /// the canvas's first annotation page.
    pub fn image_ref_at(&self, canvas_index: usize) -> (r: Result<ImageRef, IiifError>)
        ensures
            match self {
                Manifest::Version2(m) => match r {
                    Result::Ok(ir) => {
                        &&& m.sequences@.len() > 0
                        &&& canvas_index < m.sequences@[0].canvases@.len()
                        &&& m.sequences@[0].canvases@[canvas_index as int].images@.len() > 0
                        &&& ({
                            let img = m.sequences@[0].canvases@[canvas_index as int].images@[0];
                            ir.type_@ == img.resource.type_@ && ir.id@ == img.resource.id@
                                && ir.service@ == img.resource.service.id@
                        })
                    },
                    Result::Err(_) => m.sequences@.len() == 0 || canvas_index >= m.sequences@[
                        0
                    ].canvases@.len() || m.sequences@[0].canvases@[
                        canvas_index as int
                    ].images@.len() == 0,
                },
                Manifest::Version3(m) => match r {
                    Result::Ok(ir) => {
                        &&& canvas_index < m.items@.len()
                        &&& m.items@[canvas_index as int].items@.len() > 0
                        &&& m.items@[canvas_index as int].items@[0].items@.len() > 0
                        &&& ({
                            let img = m.items@[canvas_index as int].items@[0].items@[0];
                            ir.type_@ == img.body.type_@ && ir.id@ == img.body.id@ && ir.service@
                                == img.spec_service()
                        })
                    },
                    Result::Err(_) => canvas_index >= m.items@.len() || m.items@[
                        canvas_index as int
                    ].items@.len() == 0 || m.items@[canvas_index as int].items@[0].items@.len()
                        == 0,
                },
            },
    {
        match self {
            Manifest::Version2(m) => {
                let seq0 = match m.get_sequence(0) {
                    Result::Ok(s) => s,
                    Result::Err(e) => {
                        return Result::Err(e);
                    },
                };
                let canvas = match seq0.get_canvas(canvas_index) {
                    Result::Ok(c) => c,
                    Result::Err(e) => {
                        return Result::Err(e);
                    },
                };
                let image = match canvas.get_image(0) {
                    Result::Ok(im) => im,
                    Result::Err(e) => {
                        return Result::Err(e);
                    },
                };
                Result::Ok(
                    ImageRef {
                        type_: String::from_str(image.get_type()),
                        id: String::from_str(image.get_id()),
                        service: String::from_str(image.get_service()),
                    },
                )
            },
            Manifest::Version3(m) => {
                let canvas = match m.get_canvas(canvas_index) {
                    Result::Ok(c) => c,
                    Result::Err(e) => {
                        return Result::Err(e);
                    },
                };
                let image = match canvas.get_image(0) {
                    Result::Ok(im) => im,
                    Result::Err(e) => {
                        return Result::Err(e);
                    },
                };
                Result::Ok(
                    ImageRef {
                        type_: String::from_str(image.get_type()),
                        id: String::from_str(image.get_id()),
                        service: String::from_str(image.get_service()),
                    },
                )
            },
        }
    }

    /// Whether the manifest shows at least one image on its first canvas;
    /// a manifest without one is rejected right after parsing.
    pub fn has_first_image(&self) -> (r: bool)
        ensures
            r == self.spec_has_image(0),
    {
        self.image_ref_at(0).is_ok()
    }
}

/// What loading a canvas asks of the collaborators: fetch a 3D model, or
/// fetch the image information document of an image service.
#[derive(Debug, PartialEq)]
pub enum CanvasAction {
    LoadModel(String),
    FetchImageInfo(String),
}

/// Decide how the canvas's image is loaded: an image whose type tag is
/// `Model` is a 3D asset loaded from its id; any other image is fetched
/// through its image service.
pub fn canvas_load_action(image: &ImageRef) -> (r: CanvasAction)
    ensures
        image.type_@ == "Model"@ ==> r == CanvasAction::LoadModel(image.id),
        image.type_@ != "Model"@ ==> r == CanvasAction::FetchImageInfo(image.service),
{
    if crate::text::str_eq(image.type_.as_str(), "Model") {
        CanvasAction::LoadModel(image.id.clone())
    } else {
        CanvasAction::FetchImageInfo(image.service.clone())
    }
}

} // verus!

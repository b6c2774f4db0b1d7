//! The application's mutable state, and the single-slot download channel a
//! background fetch reports into.

use vstd::prelude::*;
use vstd::string::StringExecFns;

verus! {

/// What a manifest fetch is for.
#[derive(Debug, PartialEq)]
pub struct ManifestDownloadInfo {
    pub url: String,
}

/// What an image-description fetch is for.
#[derive(Debug, PartialEq)]
pub struct ImageDownloadInfo {
    pub iiif_endpoint: String,
    pub canvas_index: usize,
}

/// A single-slot, versioned download channel: the frame loop issues a
/// request by writing `InProgress` with its URL, the fetch callback reports
/// a completion, and a completion is accepted only while its URL is the one
/// most recently issued — a stale completion is discarded without effect, so
/// at most one fetch per stream is ever meaningful.
#[derive(Debug, PartialEq)]
pub enum DownloadState<T> {
    Idle,
    InProgress { url: String },
    Done { json: String, info: T },
    Error { url: String, msg: String },
}

impl<T> DownloadState<T> {
    /// Issue a request: any earlier state is superseded, so a completion of
    /// an older request will be ignored.
    pub fn begin(&mut self, url: String)
        ensures
            *final(self) == (DownloadState::<T>::InProgress { url }),
    {
        *self = DownloadState::InProgress { url };
    }

    /// Report a completed fetch. The report is accepted exactly when the
    /// slot still waits for this URL; then a successful body becomes `Done`
    /// and a failure becomes `Error`, and otherwise nothing changes.
    pub fn complete(&mut self, url: String, outcome: Result<String, String>, info: T) -> (accepted:
        bool)
        ensures
            accepted == (*old(self) is InProgress && old(self)->InProgress_url@ == url@),
            accepted ==> *final(self) == match outcome {
                Result::Ok(json) => DownloadState::Done { json, info },
                Result::Err(msg) => DownloadState::<T>::Error { url, msg },
            },
            !accepted ==> *final(self) == *old(self),
    {
        let matches_current = match &*self {
            DownloadState::InProgress { url: in_progress_url } => crate::text::str_eq(
                in_progress_url.as_str(),
                url.as_str(),
            ),
            _ => false,
        };
        if matches_current {
            match outcome {
                Result::Ok(json) => {
                    *self = DownloadState::Done { json, info };
                },
                Result::Err(msg) => {
                    *self = DownloadState::Error { url, msg };
                },
            }
            true
        } else {
            false
        }
    }

    /// Consume the slot after reading a completion.
    pub fn reset(&mut self)
        ensures
            *final(self) == DownloadState::<T>::Idle,
    {
        *self = DownloadState::Idle;
    }
}

/// The application state the engine reads and writes each frame. The live
/// download slots sit behind the frame loop's synchronisation, outside this
/// structure.
#[derive(Debug, PartialEq)]
pub struct AppState {
    /// The active pyramid level.
    pub level: usize,
    /// The presentation manifest URL currently shown.
    pub presentation_url: String,
    /// The canvas currently shown.
    pub canvas_index: usize,
    /// The image's full extent in world space, micro units.
    pub world_image_max_size: (i64, i64),
}

impl AppState {
    pub fn new(
        level: usize,
        presentation_url: String,
        canvas_index: usize,
        world_image_max_size: (i64, i64),
    ) -> (r: AppState)
        ensures
            r == (AppState { level, presentation_url, canvas_index, world_image_max_size }),
    {
        AppState { level, presentation_url, canvas_index, world_image_max_size }
    }
}

impl Default for AppState {
    fn default() -> (r: AppState)
        ensures
            r.level == 0,
            r.presentation_url@ == Seq::<char>::empty(),
            r.canvas_index == 0,
            r.world_image_max_size == (0int as i64, 0int as i64),
    {
        AppState {
            level: 0,
            presentation_url: String::new(),
            canvas_index: 0,
            world_image_max_size: (0, 0),
        }
    }
}

} // verus!

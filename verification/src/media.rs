//! The playback state observed on the media server: what is playing,
//! how it is described, and which external links come with it.

use vstd::prelude::*;

verus! {

/// The kind of content the media server reports as currently playing.
/// `Nothing` means no session is active.
#[derive(Clone, Copy, Debug, PartialEq, Eq, Structural)]
pub enum MediaType {
    Movie,
    Episode,
    Audio,
    LiveTv,
    Nothing,
}

impl MediaType {
    /// True when no content is playing at all.
    pub open spec fn spec_is_nothing(self) -> bool {
        self is Nothing
    }

    /// Runtime test for `spec_is_nothing`.
    pub fn is_nothing(&self) -> (r: bool)
        ensures
            r == self.spec_is_nothing(),
    {
        matches!(self, MediaType::Nothing)
    }
}

/// An external link (name and URL) the media server offers for the
/// playing item, e.g. a reference-site page.
pub struct ExternalService {
    pub name: String,
    pub url: String,
}

/// One observed unit of currently-playing content, rebuilt on every
/// poll cycle and never persisted.
pub struct PlaybackItem {
    /// Stable opaque identifier assigned by the media server.
    pub item_id: String,
    pub media_type: MediaType,
    /// Primary display line.
    pub details: String,
    /// Secondary display line.
    pub state_message: String,
    /// Absolute end timestamp; `None` means no countdown is shown.
    pub end_time: Option<i64>,
    /// Source-hosted image reference; may be empty.
    pub image_url: String,
    /// Ordered external links reported by the media server.
    pub external_services: Vec<ExternalService>,
}

} // verus!

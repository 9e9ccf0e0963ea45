//! Host audio and media-transport control, modelled as verified decision
//! logic over plain values.
//!
//! The library owns the session-discovery rules, the registry state machine,
//! and the change-detection diffing of the poller. The surrounding layer
//! performs the host calls (device enumeration, process inspection, media
//! queries) and hands their outcomes to the functions here as plain values.

use vstd::prelude::*;

pub mod audio_controller;
pub mod events;
pub mod session;

pub use audio_controller::AudioController;
pub use audio_controller::CoinitMode;
pub use audio_controller::ProcessSessionInfo;
pub use events::ErrorStatus;
pub use events::EventData;
pub use events::EventType;
pub use events::PollerState;
pub use session::ApplicationSession;
pub use session::EndPointSession;
pub use session::MuteCommand;
pub use session::Session;
pub use session::VolumeCommand;

verus! {

/// Volume levels are held in thousandths of full scale, so the normalized
/// scalar range 0.0 ..= 1.0 becomes 0 ..= 1000 units.
pub const VOLUME_SCALE: u32 = 1000;

/// A normalized volume scalar, in thousandths of full scale.
#[derive(Clone, Copy, Debug, PartialEq, Eq, Structural)]
pub struct VolumeLevel {
    pub units: u32,
}

impl VolumeLevel {
    /// A level is well formed when it lies inside the normalized range.
    pub open spec fn wf(&self) -> bool {
        self.units <= VOLUME_SCALE
    }

    /// Validates a raw unit count, accepting exactly the normalized range.
    pub fn new(units: u32) -> (r: Option<VolumeLevel>)
        ensures
            r is Some <==> units <= VOLUME_SCALE,
            r is Some ==> r->0.units == units && r->0.wf(),
    {
        if units <= VOLUME_SCALE {
            Some(VolumeLevel { units })
        } else {
            None
        }
    }

    /// The conservative default returned when a host read fails.
    pub fn silent() -> (r: VolumeLevel)
        ensures
            r.units == 0,
            r.wf(),
    {
        VolumeLevel { units: 0 }
    }
}

/// Information about the currently playing media.
#[derive(Debug)]
pub struct MediaInfo {
    /// The title of the media.
    pub title: Option<String>,
    /// The artist performing the media.
    pub artist: Option<String>,
    /// The album containing the media.
    pub album: Option<String>,
    /// The artist of the album.
    pub album_artist: Option<String>,
    /// The current playback status (playing, paused, and so on).
    pub playback_status: String,
    /// Whether the media has an associated thumbnail image.
    pub has_thumbnail: bool,
}

impl Clone for MediaInfo {
    fn clone(&self) -> (r: Self)
        ensures
            r == *self,
    {
        let r = MediaInfo {
            title: clone_opt_string(&self.title),
            artist: clone_opt_string(&self.artist),
            album: clone_opt_string(&self.album),
            album_artist: clone_opt_string(&self.album_artist),
            playback_status: self.playback_status.clone(),
            has_thumbnail: self.has_thumbnail,
        };
        r
    }
}

/// Clones an optional string, keeping its value exactly.
pub fn clone_opt_string(s: &Option<String>) -> (r: Option<String>)
    ensures
        r == *s,
{
    match s {
        Some(v) => Some(v.clone()),
        None => None,
    }
}

/// The label the media descriptor carries for each playback status code of
/// the host's media-transport facility; every unassigned code reads as
/// unknown.
pub open spec fn playback_label(code: i32) -> Seq<char> {
    if code == 0 {
        "closed"@
    } else if code == 1 {
        "opened"@
    } else if code == 2 {
        "changing"@
    } else if code == 3 {
        "stopped"@
    } else if code == 4 {
        "playing"@
    } else if code == 5 {
        "paused"@
    } else {
        "unknown"@
    }
}

/// Maps a raw playback status code to its textual label.
pub fn playback_status_label(code: i32) -> (r: &'static str)
    ensures
        r@ == playback_label(code),
{
    if code == 0 {
        "closed"
    } else if code == 1 {
        "opened"
    } else if code == 2 {
        "changing"
    } else if code == 3 {
        "stopped"
    } else if code == 4 {
        "playing"
    } else if code == 5 {
        "paused"
    } else {
        "unknown"
    }
}

} // verus!

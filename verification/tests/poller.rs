use audio_control::{EventType, MediaInfo, PollerState, VolumeLevel};

fn media(title: &str, artist: &str, album: &str, status: &str) -> MediaInfo {
    MediaInfo {
        title: Some(title.to_string()),
        artist: Some(artist.to_string()),
        album: Some(album.to_string()),
        album_artist: None,
        playback_status: status.to_string(),
        has_thumbnail: false,
    }
}

fn level(units: u32) -> VolumeLevel {
    VolumeLevel::new(units).expect("within range")
}

#[test]
fn first_media_observation_emits_one_media_change() {
    let mut st = PollerState::new();
    let events = st.poll_cycle(Some(media("a", "b", "c", "playing")), None, None);
    assert_eq!(events.len(), 1);
    assert_eq!(events[0].event_type, EventType::MediaChange);
    let carried = events[0].media_info.as_ref().expect("descriptor carried");
    assert_eq!(carried.title.as_deref(), Some("a"));
}

#[test]
fn differing_title_emits_exactly_one_media_change() {
    let mut st = PollerState::new();
    let s1 = media("one", "artist", "album", "playing");
    let s2 = media("two", "artist", "album", "playing");
    st.poll_cycle(Some(s1), None, None);
    let events = st.poll_cycle(Some(s2), None, None);
    assert_eq!(events.len(), 1);
    assert_eq!(events[0].event_type, EventType::MediaChange);
}

#[test]
fn identical_snapshot_emits_nothing() {
    let mut st = PollerState::new();
    let s1 = media("one", "artist", "album", "playing");
    let s2 = media("one", "artist", "album", "playing");
    st.poll_cycle(Some(s1), None, None);
    let events = st.poll_cycle(Some(s2), None, None);
    assert!(events.is_empty());
}

#[test]
fn playback_status_change_emits_playback_event_only() {
    let mut st = PollerState::new();
    let s1 = media("one", "artist", "album", "playing");
    let s2 = media("one", "artist", "album", "paused");
    st.poll_cycle(Some(s1), None, None);
    let events = st.poll_cycle(Some(s2), None, None);
    assert_eq!(events.len(), 1);
    assert_eq!(events[0].event_type, EventType::PlaybackChange);
    let carried = events[0].media_info.as_ref().expect("descriptor carried");
    assert_eq!(carried.playback_status, "paused");
}

#[test]
fn title_and_status_change_emit_media_then_playback() {
    let mut st = PollerState::new();
    st.poll_cycle(Some(media("one", "x", "y", "playing")), None, None);
    let events = st.poll_cycle(Some(media("two", "x", "y", "paused")), None, None);
    assert_eq!(events.len(), 2);
    assert_eq!(events[0].event_type, EventType::MediaChange);
    assert_eq!(events[1].event_type, EventType::PlaybackChange);
}

#[test]
fn volume_half_half_then_point_eight() {
    let mut st = PollerState::new();
    let first = st.poll_cycle(None, Some(level(500)), None);
    assert_eq!(first.len(), 1);
    assert_eq!(first[0].event_type, EventType::VolumeChange);
    let second = st.poll_cycle(None, Some(level(500)), None);
    assert!(second.is_empty());
    let third = st.poll_cycle(None, Some(level(800)), None);
    assert_eq!(third.len(), 1);
    assert_eq!(third[0].event_type, EventType::VolumeChange);
    assert_eq!(third[0].volume, Some(level(800)));
}

#[test]
fn mute_changes_are_diffed_like_volume() {
    let mut st = PollerState::new();
    let first = st.poll_cycle(None, None, Some(false));
    assert_eq!(first.len(), 1);
    assert_eq!(first[0].event_type, EventType::MuteChange);
    assert_eq!(first[0].muted, Some(false));
    assert!(st.poll_cycle(None, None, Some(false)).is_empty());
    let third = st.poll_cycle(None, None, Some(true));
    assert_eq!(third.len(), 1);
    assert_eq!(third[0].muted, Some(true));
}

#[test]
fn within_one_cycle_media_comes_before_volume_before_mute() {
    let mut st = PollerState::new();
    let events = st.poll_cycle(
        Some(media("one", "x", "y", "playing")),
        Some(level(250)),
        Some(true),
    );
    assert_eq!(events.len(), 3);
    assert_eq!(events[0].event_type, EventType::MediaChange);
    assert_eq!(events[1].event_type, EventType::VolumeChange);
    assert_eq!(events[2].event_type, EventType::MuteChange);
}

#[test]
fn unreported_dimensions_keep_their_snapshots() {
    let mut st = PollerState::new();
    st.poll_cycle(Some(media("one", "x", "y", "playing")), Some(level(500)), Some(false));
    let events = st.poll_cycle(None, None, None);
    assert!(events.is_empty());
    // the snapshots are still in place: repeats stay silent, changes fire
    assert!(st.poll_cycle(Some(media("one", "x", "y", "playing")), Some(level(500)), Some(false))
        .is_empty());
    let events = st.poll_cycle(None, Some(level(900)), None);
    assert_eq!(events.len(), 1);
    assert_eq!(events[0].event_type, EventType::VolumeChange);
}

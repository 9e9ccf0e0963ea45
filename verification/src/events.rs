//! Change detection for the polling loop.
//!
//! Each polling cycle the surrounding layer fetches the current media
//! descriptor, the system volume and the system mute flag, and hands the
//! outcomes to `PollerState::poll_cycle`. The cycle diffs them against the
//! last-observed snapshots and returns the discrete events to deliver, in a
//! fixed order: media first, then playback, then volume, then mute. The
//! loop itself (its thread, its cadence, the delivery of events to the
//! subscriber) stays with the surrounding layer.

use vstd::prelude::*;
use crate::{MediaInfo, VolumeLevel};

verus! {

/// The type of event that occurred.
#[derive(Clone, Copy, Debug, PartialEq, Eq, Structural)]
pub enum EventType {
    MediaChange,
    PlaybackChange,
    VolumeChange,
    MuteChange,
}

/// The data for an event: the kind of change and the relevant subset of the
/// freshly observed values.
#[derive(Debug)]
pub struct EventData {
    pub event_type: EventType,
    pub media_info: Option<MediaInfo>,
    pub volume: Option<VolumeLevel>,
    pub muted: Option<bool>,
}

impl Clone for EventData {
    fn clone(&self) -> (r: Self)
        ensures
            r == *self,
    {
        let media_info = match &self.media_info {
            Some(m) => Some(m.clone()),
            None => None,
        };
        let r = EventData {
            event_type: self.event_type,
            media_info,
            volume: self.volume,
            muted: self.muted,
        };
        r
    }
}

/// Custom error codes that the calling surface can report.
#[derive(Clone, Copy, Debug, PartialEq, Eq, Structural)]
pub enum ErrorStatus {
    CantDoSomething,
    InvalidCondition,
}

impl ErrorStatus {
    /// The status code string reported for this error.
    pub fn code(&self) -> (r: &'static str)
        ensures
            *self is CantDoSomething ==> r@ == "ERR_STATUS_CANTDSMTGH"@,
            *self is InvalidCondition ==> r@ == "ERR_STATUS_INVALID"@,
    {
        match self {
            ErrorStatus::CantDoSomething => "ERR_STATUS_CANTDSMTGH",
            ErrorStatus::InvalidCondition => "ERR_STATUS_INVALID",
        }
    }
}

/// Whether two media descriptors agree on title, artist and album: the three
/// fields whose change makes a media-changed event.
pub open spec fn media_fields_eq(a: MediaInfo, b: MediaInfo) -> bool {
    &&& a.title.deep_view() == b.title.deep_view()
    &&& a.artist.deep_view() == b.artist.deep_view()
    &&& a.album.deep_view() == b.album.deep_view()
}

/// Whether two media descriptors agree on playback status.
pub open spec fn playback_eq(a: MediaInfo, b: MediaInfo) -> bool {
    a.playback_status@ == b.playback_status@
}

/// The media-changed event carrying a descriptor.
pub open spec fn media_change_event(cur: MediaInfo) -> EventData {
    EventData {
        event_type: EventType::MediaChange,
        media_info: Some(cur),
        volume: None,
        muted: None,
    }
}

/// The playback-changed event carrying a descriptor.
pub open spec fn playback_change_event(cur: MediaInfo) -> EventData {
    EventData {
        event_type: EventType::PlaybackChange,
        media_info: Some(cur),
        volume: None,
        muted: None,
    }
}

/// The volume-changed event carrying a level.
pub open spec fn volume_change_event(v: VolumeLevel) -> EventData {
    EventData { event_type: EventType::VolumeChange, media_info: None, volume: Some(v), muted: None }
}

/// The mute-changed event carrying a flag.
pub open spec fn mute_change_event(m: bool) -> EventData {
    EventData { event_type: EventType::MuteChange, media_info: None, volume: None, muted: Some(m) }
}

/// The events the media dimension of one cycle emits: a media-changed event
/// when there is no prior snapshot or title, artist or album differ, then,
/// independently, a playback-changed event when the playback status differs
/// from a prior snapshot.
pub open spec fn media_events(last: Option<MediaInfo>, cur: MediaInfo) -> Seq<EventData> {
    match last {
        None => seq![media_change_event(cur)],
        Some(l) => (if !media_fields_eq(l, cur) {
            seq![media_change_event(cur)]
        } else {
            Seq::empty()
        }) + (if !playback_eq(l, cur) {
            seq![playback_change_event(cur)]
        } else {
            Seq::empty()
        }),
    }
}

/// The events the volume dimension of one cycle emits: one volume-changed
/// event exactly when the observed level differs from (or is absent in) the
/// snapshot.
pub open spec fn volume_events(last: Option<VolumeLevel>, v: VolumeLevel) -> Seq<EventData> {
    if last == Some(v) {
        Seq::empty()
    } else {
        seq![volume_change_event(v)]
    }
}

/// The events the mute dimension of one cycle emits, on the same pattern as
/// the volume dimension.
pub open spec fn mute_events(last: Option<bool>, m: bool) -> Seq<EventData> {
    if last == Some(m) {
        Seq::empty()
    } else {
        seq![mute_change_event(m)]
    }
}

/// Everything one cycle emits, in the fixed order: media, playback, volume,
/// mute. A dimension the host could not report contributes nothing.
pub open spec fn cycle_events(
    st: PollerState,
    media: Option<MediaInfo>,
    volume: Option<VolumeLevel>,
    mute: Option<bool>,
) -> Seq<EventData> {
    (match media {
        Some(cur) => media_events(st.last_media_info, cur),
        None => Seq::empty(),
    }) + (match volume {
        Some(v) => volume_events(st.last_volume, v),
        None => Seq::empty(),
    }) + (match mute {
        Some(m) => mute_events(st.last_mute, m),
        None => Seq::empty(),
    })
}

/// The last-observed snapshot of each monitored dimension. Each starts
/// unset and holds the most recent successfully observed value thereafter.
#[derive(Debug)]
pub struct PollerState {
    pub last_media_info: Option<MediaInfo>,
    pub last_volume: Option<VolumeLevel>,
    pub last_mute: Option<bool>,
}

impl PollerState {
    /// A fresh poller with no snapshots yet.
    pub fn new() -> (r: PollerState)
        ensures
            r.last_media_info is None,
            r.last_volume is None,
            r.last_mute is None,
    {
        PollerState { last_media_info: None, last_volume: None, last_mute: None }
    }

    /// One polling cycle: diffs the observed values against the snapshots,
    /// returns the events to deliver in their fixed order, and updates the
    /// snapshots to the observed values.
    pub fn poll_cycle(
        &mut self,
        media: Option<MediaInfo>,
        volume: Option<VolumeLevel>,
        mute: Option<bool>,
    ) -> (events: Vec<EventData>)
        ensures
            events@ == cycle_events(*old(self), media, volume, mute),
            media is Some ==> final(self).last_media_info == media,
            media is None ==> final(self).last_media_info == old(self).last_media_info,
            volume is Some ==> final(self).last_volume == volume,
            volume is None ==> final(self).last_volume == old(self).last_volume,
            mute is Some ==> final(self).last_mute == mute,
            mute is None ==> final(self).last_mute == old(self).last_mute,
    {
        let ghost st0 = *self;
        let mut events: Vec<EventData> = Vec::new();
        match media {
            Some(cur) => {
                match &self.last_media_info {
                    Some(last) => {
                        let fields_same = opt_str_eq(&last.title, &cur.title) && opt_str_eq(
                            &last.artist,
                            &cur.artist,
                        ) && opt_str_eq(&last.album, &cur.album);
                        if !fields_same {
                            events.push(
                                EventData {
                                    event_type: EventType::MediaChange,
                                    media_info: Some(cur.clone()),
                                    volume: None,
                                    muted: None,
                                },
                            );
                        }
                        if !(last.playback_status == cur.playback_status) {
                            events.push(
                                EventData {
                                    event_type: EventType::PlaybackChange,
                                    media_info: Some(cur.clone()),
                                    volume: None,
                                    muted: None,
                                },
                            );
                        }
                    },
                    None => {
                        events.push(
                            EventData {
                                event_type: EventType::MediaChange,
                                media_info: Some(cur.clone()),
                                volume: None,
                                muted: None,
                            },
                        );
                    },
                }
                self.last_media_info = Some(cur);
            },
            None => {},
        }
        proof {
            assert(events@ =~= (match media {
                Some(cur) => media_events(st0.last_media_info, cur),
                None => Seq::<EventData>::empty(),
            }));
        }
        let ghost media_part = events@;
        match volume {
            Some(v) => {
                let same = match &self.last_volume {
                    Some(lv) => lv.units == v.units,
                    None => false,
                };
                if !same {
                    events.push(
                        EventData {
                            event_type: EventType::VolumeChange,
                            media_info: None,
                            volume: Some(v),
                            muted: None,
                        },
                    );
                }
                self.last_volume = Some(v);
            },
            None => {},
        }
        proof {
            assert(events@ =~= media_part + (match volume {
                Some(v) => volume_events(st0.last_volume, v),
                None => Seq::<EventData>::empty(),
            }));
        }
        let ghost vol_part = events@;
        match mute {
            Some(m) => {
                let same = match &self.last_mute {
                    Some(lm) => *lm == m,
                    None => false,
                };
                if !same {
                    events.push(
                        EventData {
                            event_type: EventType::MuteChange,
                            media_info: None,
                            volume: None,
                            muted: Some(m),
                        },
                    );
                }
                self.last_mute = Some(m);
            },
            None => {},
        }
        proof {
            assert(events@ =~= vol_part + (match mute {
                Some(m) => mute_events(st0.last_mute, m),
                None => Seq::<EventData>::empty(),
            }));
            assert(events@ =~= cycle_events(st0, media, volume, mute));
        }
        events
    }
}

/// Compares two optional strings by their contents.
pub fn opt_str_eq(a: &Option<String>, b: &Option<String>) -> (r: bool)
    ensures
        r == (a.deep_view() == b.deep_view()),
{
    match a {
        Some(x) => match b {
            Some(y) => {
                proof {
                    assert(a.deep_view() == Some(x@));
                    assert(b.deep_view() == Some(y@));
                }
                *x == *y
            },
            None => false,
        },
        None => match b {
            Some(_) => false,
            None => true,
        },
    }
}

/// Counts the events of one kind in a delivery sequence.
pub open spec fn count_events(s: Seq<EventData>, t: EventType) -> nat
    decreases s.len(),
{
    if s.len() == 0 {
        0
    } else {
        count_events(s.drop_last(), t) + (if s.last().event_type == t {
            1nat
        } else {
            0nat
        })
    }
}

/// Between two cycles whose media observations are `s1` then `s2`, the
/// second cycle emits exactly one media-changed event when title, artist or
/// album differ, and none when all three agree.
pub proof fn lemma_media_change_detection(st: PollerState, s1: MediaInfo, s2: MediaInfo)
    requires
        st.last_media_info == Some(s1),
    ensures
        media_fields_eq(s1, s2) ==> count_events(
            cycle_events(st, Some(s2), None, None),
            EventType::MediaChange,
        ) == 0,
        !media_fields_eq(s1, s2) ==> count_events(
            cycle_events(st, Some(s2), None, None),
            EventType::MediaChange,
        ) == 1,
{
    let evs = cycle_events(st, Some(s2), None, None);
    assert(evs =~= media_events(Some(s1), s2));
    if media_fields_eq(s1, s2) {
        if playback_eq(s1, s2) {
            assert(evs =~= Seq::<EventData>::empty());
            assert(count_events(evs, EventType::MediaChange) == 0);
        } else {
            assert(evs =~= seq![playback_change_event(s2)]);
            lemma_count_single(playback_change_event(s2), EventType::MediaChange);
        }
    } else {
        if playback_eq(s1, s2) {
            assert(evs =~= seq![media_change_event(s2)]);
            lemma_count_single(media_change_event(s2), EventType::MediaChange);
        } else {
            assert(evs =~= seq![media_change_event(s2), playback_change_event(s2)]);
            lemma_count_pair(
                media_change_event(s2),
                playback_change_event(s2),
                EventType::MediaChange,
            );
        }
    }
}

proof fn lemma_count_single(e: EventData, t: EventType)
    ensures
        count_events(seq![e], t) == (if e.event_type == t {
            1nat
        } else {
            0nat
        }),
{
    let s = seq![e];
    assert(s.drop_last() =~= Seq::<EventData>::empty());
    assert(count_events(Seq::<EventData>::empty(), t) == 0);
}

proof fn lemma_count_pair(e1: EventData, e2: EventData, t: EventType)
    ensures
        count_events(seq![e1, e2], t) == (if e1.event_type == t {
            1nat
        } else {
            0nat
        }) + (if e2.event_type == t {
            1nat
        } else {
            0nat
        }),
{
    let s = seq![e1, e2];
    assert(s.drop_last() =~= seq![e1]);
    lemma_count_single(e1, t);
}

/// A cycle that observes the volume unchanged from the snapshot emits no
/// event; one that observes a different level emits exactly the
/// volume-changed event carrying the new level.
pub proof fn lemma_volume_change_detection(st: PollerState, v: VolumeLevel)
    ensures
        st.last_volume == Some(v) ==> cycle_events(st, None, Some(v), None) == Seq::<
            EventData,
        >::empty(),
        st.last_volume != Some(v) ==> cycle_events(st, None, Some(v), None) == seq![
            volume_change_event(v),
        ],
{
    if st.last_volume == Some(v) {
        assert(cycle_events(st, None, Some(v), None) =~= Seq::<EventData>::empty());
    } else {
        assert(cycle_events(st, None, Some(v), None) =~= seq![volume_change_event(v)]);
    }
}

} // verus!

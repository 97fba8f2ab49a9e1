//! The state of a performance: the backing track that is loaded, the ones
//! played before it, and whether it is playing.
use vstd::prelude::*;

use crate::osc_messages_out::{BackingMessage, ServerMessage};

verus! {

/// The fields of a backing track's state.
pub struct BackingTrackView {
    pub sent: bool,
    pub playing: bool,
    pub title: Seq<char>,
}

/// A backing track and what has been done with it.
#[derive(Clone, Debug)]
pub struct BackingTrackState {
    /// Whether or not we've sent a single backing track out to users
    sent: bool,
    /// Whether or not the backing track is currently playing for our users.
    playing: bool,
    /// Title of the backing track that we've sent out to our users
    title: String,
}

impl BackingTrackState {
    /// The fields of this state.
    pub closed spec fn spec_fields(&self) -> BackingTrackView {
        BackingTrackView { sent: self.sent, playing: self.playing, title: self.title@ }
    }
}

impl View for BackingTrackState {
    type V = BackingTrackView;

    open spec fn view(&self) -> BackingTrackView {
        self.spec_fields()
    }
}

impl BackingTrackState {
    /// A track titled `title`, neither sent nor playing.
    pub fn new(title: &str) -> (r: Self)
        ensures
            r@ == (BackingTrackView { sent: false, playing: false, title: title@ }),
    {
        Self { sent: false, playing: false, title: title.to_owned() }
    }

    pub fn is_playing(&self) -> (r: bool)
        ensures
            r == self@.playing,
    {
        self.playing
    }

    pub fn mark_sent(&mut self)
        ensures
            final(self)@ == (BackingTrackView { sent: true, ..old(self)@ }),
    {
        self.sent = true;
    }

    pub fn mark_playing(&mut self, playing: bool)
        ensures
            final(self)@ == (BackingTrackView { playing, ..old(self)@ }),
    {
        self.playing = playing;
    }
}

/// Where a performance stands.
#[derive(Clone, Copy, Debug, PartialEq, Eq, Structural)]
pub enum PerformanceStatus {
    /// Waiting for a performer to join
    AwaitingPerformer,
    /// Performers are in, but are not ready
    PerformersNotReady,
    /// Performers are in, and have readied up, awaiting start.
    PerformersReady,
    /// A performance is currently ongoing.
    Performing,
}

/// The fields of a performance's state.
pub struct PerformanceView {
    pub current_backing_track: Option<BackingTrackView>,
    pub previous_backing_tracks: Seq<BackingTrackView>,
    pub performance_status: PerformanceStatus,
}

/// Information about the state of the performance.
#[derive(Clone, Debug)]
pub struct PerformanceState {
    /// The backing track that is currently playing.
    current_backing_track: Option<BackingTrackState>,
    /// Any previous backing tracks that we've played.
    previous_backing_tracks: Vec<BackingTrackState>,
    /// The current state of the performance.
    performance_status: PerformanceStatus,
}

/// The views of a sequence of backing tracks.
pub open spec fn track_views(s: Seq<BackingTrackState>) -> Seq<BackingTrackView> {
    s.map_values(|t: BackingTrackState| t@)
}

impl PerformanceState {
    /// The fields of this state.
    pub closed spec fn spec_fields(&self) -> PerformanceView {
        PerformanceView {
            current_backing_track: match self.current_backing_track {
                Some(t) => Some(t@),
                None => None,
            },
            previous_backing_tracks: track_views(self.previous_backing_tracks@),
            performance_status: self.performance_status,
        }
    }
}

impl View for PerformanceState {
    type V = PerformanceView;

    open spec fn view(&self) -> PerformanceView {
        self.spec_fields()
    }
}

impl Default for PerformanceState {
    /// No backing track, none before it, and waiting for a performer.
    fn default() -> (r: Self)
        ensures
            r@.current_backing_track is None,
            r@.previous_backing_tracks.len() == 0,
            r@.performance_status == PerformanceStatus::AwaitingPerformer,
    {
        let r = Self {
            current_backing_track: None,
            previous_backing_tracks: Vec::new(),
            performance_status: PerformanceStatus::AwaitingPerformer,
        };
        assert(r@.previous_backing_tracks =~= Seq::<BackingTrackView>::empty());
        r
    }
}

impl PerformanceState {
    /// The loaded backing track, if any.
    pub fn backing_track(&self) -> (r: Option<&BackingTrackState>)
        ensures
            match r {
                Some(t) => self@.current_backing_track == Some(t@),
                None => self@.current_backing_track is None,
            },
    {
        if let Some(bt) = &self.current_backing_track {
            Some(bt)
        } else {
            None
        }
    }

    /// The loaded backing track, if any, to change it.
    pub fn backing_track_mut(&mut self) -> (r: Option<&mut BackingTrackState>)
        ensures
            match r {
                Some(t) => {
                    &&& old(self)@.current_backing_track == Some(t@)
                    &&& final(self)@ == (PerformanceView {
                        current_backing_track: Some(final(t)@),
                        ..old(self)@
                    })
                },
                None => old(self)@.current_backing_track is None && final(self)@ == old(self)@,
            },
    {
        if let Some(bt) = &mut self.current_backing_track {
            Some(bt)
        } else {
            None
        }
    }

    /// Loads a new backing track titled `track_name`; the loaded one, if any,
    /// goes to the end of the previous tracks.
    pub fn update_backing_track(&mut self, track_name: &str)
        ensures
            final(self)@.current_backing_track == Some(
                BackingTrackView { sent: false, playing: false, title: track_name@ },
            ),
            final(self)@.previous_backing_tracks == match old(self)@.current_backing_track {
                Some(t) => old(self)@.previous_backing_tracks.push(t),
                None => old(self)@.previous_backing_tracks,
            },
            final(self)@.performance_status == old(self)@.performance_status,
    {
        let ghost before = self.previous_backing_tracks@;
        if self.current_backing_track.is_some() {
            let mut current = None;
            std::mem::swap(&mut current, &mut self.current_backing_track);
            match current {
                Some(t) => {
                    self.previous_backing_tracks.push(t);
                    assert(track_views(self.previous_backing_tracks@) =~= track_views(before).push(
                        t@,
                    ));
                },
                None => {},
            }
        }
        self.current_backing_track = Some(BackingTrackState::new(track_name));
    }

    /// The message that toggles the loaded backing track: stop where it is
    /// playing, start from the beginning where it is not; nothing without a track.
    pub fn next_backing_message(&self) -> (r: Option<BackingMessage>)
        ensures
            match self@.current_backing_track {
                Some(t) => r == Some(if t.playing {
                    BackingMessage::Stop
                } else {
                    BackingMessage::Start(0)
                }),
                None => r is None,
            },
    {
        match self.backing_track() {
            None => None,
            Some(st) => Some(if st.is_playing() {
                BackingMessage::Stop
            } else {
                BackingMessage::Start(0)
            }),
        }
    }

    /// Applies a backing-track message: refused without a loaded track, or where
    /// it would start a playing track or stop a stopped one; otherwise the track's
    /// playing flag flips and the message is the event to send out.
    pub fn set_backing_track_state(&mut self, msg: BackingMessage) -> (r: Result<ServerMessage, &'static str>)
        ensures
            match old(self)@.current_backing_track {
                None => r matches Err(e) && e@ == "No backing track has been selected yet!"@
                    && final(self)@ == old(self)@,
                Some(t) => if (t.playing && msg is Start) || (!t.playing && msg is Stop) {
                    r matches Err(e) && e@ == "Track is already in this state."@ && final(self)@
                        == old(self)@
                } else {
                    &&& r == Ok::<ServerMessage, &'static str>(ServerMessage::Backing(msg))
                    &&& final(self)@ == (PerformanceView {
                        current_backing_track: Some(BackingTrackView { playing: !t.playing, ..t }),
                        ..old(self)@
                    })
                },
            },
    {
        match self.backing_track_mut() {
            None => Err("No backing track has been selected yet!"),
            Some(bt) => {
                let b = bt.is_playing();
                let same = match &msg {
                    BackingMessage::Start(_) => b,
                    BackingMessage::Stop => !b,
                    BackingMessage::New(_) => false,
                };
                if same {
                    return Err("Track is already in this state.");
                }
                // the track is not in the requested state, so reverse it
                bt.mark_playing(!b);
                Ok(ServerMessage::Backing(msg))
            },
        }
    }
}

} // verus!

//! Track model: the media sources a stream can be set up on. Native engine
//! objects (tracks, sources, transceivers) are carried as plain-value models;
//! the engine itself is outside this library.

use vstd::prelude::*;

use crate::ids::TrackSid;

verus! {

broadcast use vstd::string::group_string_axioms;

#[derive(Clone, Copy, Debug, PartialEq, Eq, Structural)]
pub enum TrackKind {
    Audio,
    Video,
}

#[derive(Clone, Copy, Debug, PartialEq, Eq, Structural)]
pub enum TrackSource {
    Unknown,
    Camera,
    Microphone,
    Screenshare,
}

#[derive(Clone, Copy, Debug, PartialEq, Eq, Structural)]
pub enum StreamState {
    Active,
    Paused,
}

/// Model of a native audio track: an opaque id plus its enabled flag.
#[derive(Clone, Copy, Debug, PartialEq, Eq, Structural)]
pub struct RtcAudioTrack {
    pub id: u64,
    pub enabled: bool,
}

/// Model of a native video track: an opaque id plus its enabled flag.
#[derive(Clone, Copy, Debug, PartialEq, Eq, Structural)]
pub struct RtcVideoTrack {
    pub id: u64,
    pub enabled: bool,
}

#[derive(Clone, Copy, Debug, PartialEq, Eq, Structural)]
pub enum MediaStreamTrack {
    Audio(RtcAudioTrack),
    Video(RtcVideoTrack),
}

/// Model of a native audio source.
#[derive(Clone, Copy, Debug, PartialEq, Eq, Structural)]
pub struct NativeAudioSource {
    pub sample_rate: u32,
    pub num_channels: u32,
}

#[derive(Clone, Copy, Debug, PartialEq, Eq, Structural)]
pub enum RtcAudioSource {
    Native(NativeAudioSource),
}

#[derive(Clone, Copy, Debug, PartialEq, Eq, Structural)]
pub struct RtpSender {
    pub id: u64,
}

#[derive(Clone, Copy, Debug, PartialEq, Eq, Structural)]
pub struct RtpReceiver {
    pub id: u64,
}

/// Model of the transceiver a published or subscribed track is wired to.
#[derive(Clone, Copy, Debug, PartialEq, Eq, Structural)]
pub struct RtpTransceiver {
    pub sender: RtpSender,
    pub receiver: RtpReceiver,
}

/// Notification sent to a registered mute observer: explicit message passing
/// in place of a stored callback.
#[derive(Clone, Copy, Debug, PartialEq, Eq, Structural)]
pub struct MuteChange {
    pub sid: TrackSid,
    pub muted: bool,
}

/// A locally produced audio track with its descriptive info, its native
/// track model and single-slot mute observers.
pub struct LocalAudioTrack {
    sid: TrackSid,
    name: String,
    kind: TrackKind,
    source: TrackSource,
    stream_state: StreamState,
    muted: bool,
    rtc_track: RtcAudioTrack,
    rtc_source: RtcAudioSource,
    transceiver: Option<RtpTransceiver>,
    muted_observer: Option<tokio::sync::mpsc::UnboundedSender<MuteChange>>,
    unmuted_observer: Option<tokio::sync::mpsc::UnboundedSender<MuteChange>>,
    notifications: Ghost<Seq<MuteChange>>,
}

impl LocalAudioTrack {
    pub closed spec fn sid_spec(self) -> TrackSid {
        self.sid
    }

    pub closed spec fn name_spec(self) -> Seq<char> {
        self.name@
    }

    pub closed spec fn kind_spec(self) -> TrackKind {
        self.kind
    }

    pub closed spec fn source_spec(self) -> TrackSource {
        self.source
    }

    pub closed spec fn stream_state_spec(self) -> StreamState {
        self.stream_state
    }

    pub closed spec fn muted_spec(self) -> bool {
        self.muted
    }

    pub closed spec fn rtc_track_spec(self) -> RtcAudioTrack {
        self.rtc_track
    }

    pub closed spec fn rtc_source_spec(self) -> RtcAudioSource {
        self.rtc_source
    }

    pub closed spec fn transceiver_spec(self) -> Option<RtpTransceiver> {
        self.transceiver
    }

    pub closed spec fn has_muted_observer(self) -> bool {
        self.muted_observer is Some
    }

    pub closed spec fn has_unmuted_observer(self) -> bool {
        self.unmuted_observer is Some
    }

    /// The mute-change notifications handed to the registered observers,
    /// in sending order.
    pub closed spec fn notifications(self) -> Seq<MuteChange> {
        self.notifications@
    }

    pub fn new(name: String, rtc_track: RtcAudioTrack, source: RtcAudioSource) -> (t:
        LocalAudioTrack)
        ensures
            t.sid_spec() == (TrackSid(0)),
            t.name_spec() == name@,
            t.kind_spec() == TrackKind::Audio,
            t.source_spec() == TrackSource::Unknown,
            t.stream_state_spec() == StreamState::Active,
            t.muted_spec() == false,
            t.rtc_track_spec() == rtc_track,
            t.rtc_source_spec() == source,
            t.transceiver_spec() is None,
            !t.has_muted_observer(),
            !t.has_unmuted_observer(),
            t.notifications() == Seq::<MuteChange>::empty(),
    {
        LocalAudioTrack {
            sid: TrackSid(0),
            name,
            kind: TrackKind::Audio,
            source: TrackSource::Unknown,
            stream_state: StreamState::Active,
            muted: false,
            rtc_track,
            rtc_source: source,
            transceiver: None,
            muted_observer: None,
            unmuted_observer: None,
            notifications: Ghost(Seq::empty()),
        }
    }

    /// Creates a local audio track for a native source. The native track id
    /// is not known until the engine assigns one; the model starts at 0.
    pub fn create_audio_track(name: &str, source: RtcAudioSource) -> (t: LocalAudioTrack)
        ensures
            t.sid_spec() == (TrackSid(0)),
            t.name_spec() == name@,
            t.kind_spec() == TrackKind::Audio,
            t.muted_spec() == false,
            t.rtc_source_spec() == source,
            t.rtc_track_spec().enabled,
            t.transceiver_spec() is None,
            !t.has_muted_observer(),
            !t.has_unmuted_observer(),
            t.notifications() == Seq::<MuteChange>::empty(),
    {
        let rtc_track = match source {
            RtcAudioSource::Native(_) => RtcAudioTrack { id: 0, enabled: true },
        };
        Self::new(name.to_string(), rtc_track, source)
    }

    pub fn sid(&self) -> (r: TrackSid)
        ensures
            r == self.sid_spec(),
    {
        self.sid
    }

    pub fn name(&self) -> (r: String)
        ensures
            r@ == self.name_spec(),
    {
        self.name.clone()
    }

    pub fn kind(&self) -> (r: TrackKind)
        ensures
            r == self.kind_spec(),
    {
        self.kind
    }

    pub fn source(&self) -> (r: TrackSource)
        ensures
            r == self.source_spec(),
    {
        self.source
    }

    pub fn stream_state(&self) -> (r: StreamState)
        ensures
            r == self.stream_state_spec(),
    {
        self.stream_state
    }

    /// Enables the underlying native track.
    pub fn enable(&mut self)
        ensures
            final(self).rtc_track_spec() == (RtcAudioTrack {
                enabled: true,
                ..old(self).rtc_track_spec()
            }),
            final(self).sid_spec() == old(self).sid_spec(),
            final(self).name_spec() == old(self).name_spec(),
            final(self).kind_spec() == old(self).kind_spec(),
            final(self).source_spec() == old(self).source_spec(),
            final(self).muted_spec() == old(self).muted_spec(),
            final(self).rtc_source_spec() == old(self).rtc_source_spec(),
            final(self).transceiver_spec() == old(self).transceiver_spec(),
            final(self).has_muted_observer() == old(self).has_muted_observer(),
            final(self).has_unmuted_observer() == old(self).has_unmuted_observer(),
            final(self).notifications() == old(self).notifications(),
    {
        self.rtc_track.enabled = true;
    }

    /// Disables the underlying native track.
    pub fn disable(&mut self)
        ensures
            final(self).rtc_track_spec() == (RtcAudioTrack {
                enabled: false,
                ..old(self).rtc_track_spec()
            }),
            final(self).sid_spec() == old(self).sid_spec(),
            final(self).name_spec() == old(self).name_spec(),
            final(self).kind_spec() == old(self).kind_spec(),
            final(self).source_spec() == old(self).source_spec(),
            final(self).muted_spec() == old(self).muted_spec(),
            final(self).rtc_source_spec() == old(self).rtc_source_spec(),
            final(self).transceiver_spec() == old(self).transceiver_spec(),
            final(self).has_muted_observer() == old(self).has_muted_observer(),
            final(self).has_unmuted_observer() == old(self).has_unmuted_observer(),
            final(self).notifications() == old(self).notifications(),
    {
        self.rtc_track.enabled = false;
    }

    pub fn is_muted(&self) -> (r: bool)
        ensures
            r == self.muted_spec(),
    {
        self.muted
    }

    /// Mutes the track: records the flag, disables the native track and,
    /// on a false-to-true transition, notifies the registered mute
    /// observer. A no-op when already muted.
    pub fn mute(&mut self)
        ensures
            final(self).muted_spec(),
            final(self).sid_spec() == old(self).sid_spec(),
            final(self).name_spec() == old(self).name_spec(),
            final(self).kind_spec() == old(self).kind_spec(),
            final(self).source_spec() == old(self).source_spec(),
            final(self).rtc_source_spec() == old(self).rtc_source_spec(),
            final(self).transceiver_spec() == old(self).transceiver_spec(),
            final(self).has_muted_observer() == old(self).has_muted_observer(),
            final(self).has_unmuted_observer() == old(self).has_unmuted_observer(),
            final(self).rtc_track_spec() == if old(self).muted_spec() {
                old(self).rtc_track_spec()
            } else {
                RtcAudioTrack { enabled: false, ..old(self).rtc_track_spec() }
            },
            final(self).notifications() == if !old(self).muted_spec() && old(
                self,
            ).has_muted_observer() {
                old(self).notifications().push(
                    MuteChange { sid: old(self).sid_spec(), muted: true },
                )
            } else {
                old(self).notifications()
            },
    {
        if !self.muted {
            self.muted = true;
            self.rtc_track.enabled = false;
            if let Some(tx) = &self.muted_observer {
                proof {
                    self.notifications@ = self.notifications@.push(
                        MuteChange { sid: self.sid, muted: true },
                    );
                }
                crate::channel::send_unbounded(tx, MuteChange { sid: self.sid, muted: true });
            }
        }
    }

    /// Unmutes the track: clears the flag, enables the native track and,
    /// on a true-to-false transition, notifies the registered unmute
    /// observer. A no-op when not muted.
    pub fn unmute(&mut self)
        ensures
            !final(self).muted_spec(),
            final(self).sid_spec() == old(self).sid_spec(),
            final(self).name_spec() == old(self).name_spec(),
            final(self).kind_spec() == old(self).kind_spec(),
            final(self).source_spec() == old(self).source_spec(),
            final(self).rtc_source_spec() == old(self).rtc_source_spec(),
            final(self).transceiver_spec() == old(self).transceiver_spec(),
            final(self).has_muted_observer() == old(self).has_muted_observer(),
            final(self).has_unmuted_observer() == old(self).has_unmuted_observer(),
            final(self).rtc_track_spec() == if old(self).muted_spec() {
                RtcAudioTrack { enabled: true, ..old(self).rtc_track_spec() }
            } else {
                old(self).rtc_track_spec()
            },
            final(self).notifications() == if old(self).muted_spec() && old(
                self,
            ).has_unmuted_observer() {
                old(self).notifications().push(
                    MuteChange { sid: old(self).sid_spec(), muted: false },
                )
            } else {
                old(self).notifications()
            },
    {
        if self.muted {
            self.muted = false;
            self.rtc_track.enabled = true;
            if let Some(tx) = &self.unmuted_observer {
                proof {
                    self.notifications@ = self.notifications@.push(
                        MuteChange { sid: self.sid, muted: false },
                    );
                }
                crate::channel::send_unbounded(tx, MuteChange { sid: self.sid, muted: false });
            }
        }
    }

    pub fn rtc_track(&self) -> (r: RtcAudioTrack)
        ensures
            r == self.rtc_track_spec(),
    {
        self.rtc_track
    }

    pub fn rtc_source(&self) -> (r: RtcAudioSource)
        ensures
            r == self.rtc_source_spec(),
    {
        self.rtc_source
    }

    pub fn is_remote(&self) -> (r: bool)
        ensures
            r == false,
    {
        false
    }

    /// Registers the single-slot mute observer; a later registration
    /// replaces the former. Later mute transitions notify this observer.
    pub fn on_muted(&mut self, observer: tokio::sync::mpsc::UnboundedSender<MuteChange>)
        ensures
            final(self).has_muted_observer(),
            final(self).has_unmuted_observer() == old(self).has_unmuted_observer(),
            final(self).notifications() == old(self).notifications(),
            final(self).sid_spec() == old(self).sid_spec(),
            final(self).name_spec() == old(self).name_spec(),
            final(self).kind_spec() == old(self).kind_spec(),
            final(self).source_spec() == old(self).source_spec(),
            final(self).muted_spec() == old(self).muted_spec(),
            final(self).rtc_track_spec() == old(self).rtc_track_spec(),
            final(self).rtc_source_spec() == old(self).rtc_source_spec(),
            final(self).transceiver_spec() == old(self).transceiver_spec(),
    {
        self.muted_observer = Some(observer);
    }

    /// Registers the single-slot unmute observer; a later registration
    /// replaces the former. Later unmute transitions notify this observer.
    pub fn on_unmuted(&mut self, observer: tokio::sync::mpsc::UnboundedSender<MuteChange>)
        ensures
            final(self).has_unmuted_observer(),
            final(self).has_muted_observer() == old(self).has_muted_observer(),
            final(self).notifications() == old(self).notifications(),
            final(self).sid_spec() == old(self).sid_spec(),
            final(self).name_spec() == old(self).name_spec(),
            final(self).kind_spec() == old(self).kind_spec(),
            final(self).source_spec() == old(self).source_spec(),
            final(self).muted_spec() == old(self).muted_spec(),
            final(self).rtc_track_spec() == old(self).rtc_track_spec(),
            final(self).rtc_source_spec() == old(self).rtc_source_spec(),
            final(self).transceiver_spec() == old(self).transceiver_spec(),
    {
        self.unmuted_observer = Some(observer);
    }

    pub fn transceiver(&self) -> (r: Option<RtpTransceiver>)
        ensures
            r == self.transceiver_spec(),
    {
        self.transceiver
    }

    pub fn set_transceiver(&mut self, transceiver: Option<RtpTransceiver>)
        ensures
            final(self).transceiver_spec() == transceiver,
            final(self).sid_spec() == old(self).sid_spec(),
            final(self).name_spec() == old(self).name_spec(),
            final(self).kind_spec() == old(self).kind_spec(),
            final(self).source_spec() == old(self).source_spec(),
            final(self).muted_spec() == old(self).muted_spec(),
            final(self).rtc_track_spec() == old(self).rtc_track_spec(),
            final(self).rtc_source_spec() == old(self).rtc_source_spec(),
            final(self).has_muted_observer() == old(self).has_muted_observer(),
            final(self).has_unmuted_observer() == old(self).has_unmuted_observer(),
            final(self).notifications() == old(self).notifications(),
    {
        self.transceiver = transceiver;
    }

    /// Applies fresh descriptive info from the signaling side.
    pub fn update_info(&mut self, info: TrackInfo)
        ensures
            final(self).sid_spec() == info.sid,
            final(self).name_spec() == info.name@,
            final(self).source_spec() == info.source,
            final(self).muted_spec() == old(self).muted_spec(),
            final(self).kind_spec() == old(self).kind_spec(),
            final(self).rtc_track_spec() == old(self).rtc_track_spec(),
            final(self).rtc_source_spec() == old(self).rtc_source_spec(),
            final(self).transceiver_spec() == old(self).transceiver_spec(),
            final(self).has_muted_observer() == old(self).has_muted_observer(),
            final(self).has_unmuted_observer() == old(self).has_unmuted_observer(),
            final(self).notifications() == old(self).notifications(),
    {
        self.sid = info.sid;
        self.name = info.name;
        self.source = info.source;
    }
}

/// Descriptive track info received from the signaling side.
pub struct TrackInfo {
    pub sid: TrackSid,
    pub name: String,
    pub source: TrackSource,
    pub muted: bool,
}

/// A remotely published audio track.
#[derive(Clone, Copy, Debug, PartialEq, Eq, Structural)]
pub struct RemoteAudioTrack {
    pub sid: TrackSid,
    pub rtc_track: RtcAudioTrack,
    pub transceiver: Option<RtpTransceiver>,
    pub muted: bool,
}

/// A remotely published video track.
#[derive(Clone, Copy, Debug, PartialEq, Eq, Structural)]
pub struct RemoteVideoTrack {
    pub sid: TrackSid,
    pub rtc_track: RtcVideoTrack,
    pub transceiver: Option<RtpTransceiver>,
    pub muted: bool,
}

#[derive(Clone, Copy, Debug, PartialEq, Eq, Structural)]
pub enum RemoteTrack {
    Audio(RemoteAudioTrack),
    Video(RemoteVideoTrack),
}

impl RemoteTrack {
    pub open spec fn rtc_track_spec(self) -> MediaStreamTrack {
        match self {
            RemoteTrack::Audio(t) => MediaStreamTrack::Audio(t.rtc_track),
            RemoteTrack::Video(t) => MediaStreamTrack::Video(t.rtc_track),
        }
    }

    pub fn rtc_track(&self) -> (r: MediaStreamTrack)
        ensures
            r == self.rtc_track_spec(),
    {
        match self {
            RemoteTrack::Audio(t) => MediaStreamTrack::Audio(t.rtc_track),
            RemoteTrack::Video(t) => MediaStreamTrack::Video(t.rtc_track),
        }
    }

    pub open spec fn transceiver_spec(self) -> Option<RtpTransceiver> {
        match self {
            RemoteTrack::Audio(t) => t.transceiver,
            RemoteTrack::Video(t) => t.transceiver,
        }
    }

    pub fn transceiver(&self) -> (r: Option<RtpTransceiver>)
        ensures
            r == self.transceiver_spec(),
    {
        match self {
            RemoteTrack::Audio(t) => t.transceiver,
            RemoteTrack::Video(t) => t.transceiver,
        }
    }
}

/// A locally published track.
pub enum LocalTrack {
    Audio(LocalAudioTrack),
}

impl LocalTrack {
    pub open spec fn transceiver_spec(self) -> Option<RtpTransceiver> {
        match self {
            LocalTrack::Audio(t) => t.transceiver_spec(),
        }
    }

    pub fn transceiver(&self) -> (r: Option<RtpTransceiver>)
        ensures
            r == self.transceiver_spec(),
    {
        match self {
            LocalTrack::Audio(t) => t.transceiver(),
        }
    }
}

/// Any track, local or remote.
pub enum Track {
    LocalAudio(LocalAudioTrack),
    RemoteAudio(RemoteAudioTrack),
    RemoteVideo(RemoteVideoTrack),
}

impl Track {
    pub open spec fn rtc_track_spec(self) -> MediaStreamTrack {
        match self {
            Track::LocalAudio(t) => MediaStreamTrack::Audio(t.rtc_track_spec()),
            Track::RemoteAudio(t) => MediaStreamTrack::Audio(t.rtc_track),
            Track::RemoteVideo(t) => MediaStreamTrack::Video(t.rtc_track),
        }
    }

    pub fn rtc_track(&self) -> (r: MediaStreamTrack)
        ensures
            r == self.rtc_track_spec(),
    {
        match self {
            Track::LocalAudio(t) => MediaStreamTrack::Audio(t.rtc_track()),
            Track::RemoteAudio(t) => MediaStreamTrack::Audio(t.rtc_track),
            Track::RemoteVideo(t) => MediaStreamTrack::Video(t.rtc_track),
        }
    }

    /// Wraps a remote track.
    pub fn from_remote(track: RemoteTrack) -> (r: Track)
        ensures
            r == match track {
                RemoteTrack::Audio(t) => Track::RemoteAudio(t),
                RemoteTrack::Video(t) => Track::RemoteVideo(t),
            },
    {
        match track {
            RemoteTrack::Audio(t) => Track::RemoteAudio(t),
            RemoteTrack::Video(t) => Track::RemoteVideo(t),
        }
    }

    /// Recovers the remote track, or reports that the track is not remote.
    pub fn try_into_remote(self) -> (r: Result<RemoteTrack, Track>)
        ensures
            match self {
                Track::RemoteAudio(t) => r == Ok::<RemoteTrack, Track>(RemoteTrack::Audio(t)),
                Track::RemoteVideo(t) => r == Ok::<RemoteTrack, Track>(RemoteTrack::Video(t)),
                _ => r == Err::<RemoteTrack, Track>(self),
            },
    {
        match self {
            Track::RemoteAudio(t) => Ok(RemoteTrack::Audio(t)),
            Track::RemoteVideo(t) => Ok(RemoteTrack::Video(t)),
            t => Err(t),
        }
    }
}

} // verus!

//! The playback state machine: one queued track, a tri-state mode, and a
//! clamped volume. The session decides every transition; the binary that
//! owns the output device mirrors the decided state onto its sink and
//! reports the outcome of each open-and-decode attempt back in.

use vstd::prelude::*;

verus! {

/// Playback mode of the session.
#[derive(Clone, Copy, Debug, PartialEq, Eq, Structural)]
pub enum PlayMode {
    Stopped,
    Playing,
    Paused,
}

/// Why a `play` request failed: the path could not be opened, the stream
/// could not be decoded, or the output device was unavailable.
#[derive(Clone, Copy, Debug, PartialEq, Eq, Structural)]
pub enum PlaybackError {
    NotFound,
    DecodeError,
    DeviceError,
}

/// Mathematical model of a session: its mode, the path of the single queued
/// track, and the volume in hundredths of full scale.
pub ghost struct SessionModel {
    pub mode: PlayMode,
    pub queued: Option<Seq<char>>,
    pub volume: int,
}

/// The volume stays within scale, and exactly the stopped session has no
/// queued track.
pub open spec fn wf_model(m: SessionModel) -> bool {
    &&& 0 <= m.volume <= 100
    &&& (m.mode is Stopped <==> m.queued is None)
}

/// The model of a fresh session: stopped, nothing queued, full volume.
pub open spec fn initial_model() -> SessionModel {
    SessionModel { mode: PlayMode::Stopped, queued: None, volume: 100 }
}

/// What a successful `play` of `path` leaves behind: the previous track is
/// gone, the new one is the only queued track, and the session plays.
pub open spec fn after_play(m: SessionModel, path: Seq<char>) -> SessionModel {
    SessionModel { mode: PlayMode::Playing, queued: Some(path), volume: m.volume }
}

/// What `pause` leaves behind: a playing session pauses, any other is
/// untouched.
pub open spec fn after_pause(m: SessionModel) -> SessionModel {
    if m.mode is Playing {
        SessionModel { mode: PlayMode::Paused, queued: m.queued, volume: m.volume }
    } else {
        m
    }
}

/// What `resume` leaves behind: a paused session plays again, any other is
/// untouched.
pub open spec fn after_resume(m: SessionModel) -> SessionModel {
    if m.mode is Paused {
        SessionModel { mode: PlayMode::Playing, queued: m.queued, volume: m.volume }
    } else {
        m
    }
}

/// What `toggle_pause_resume` leaves behind: pause when playing, resume when
/// paused, nothing when stopped.
pub open spec fn after_toggle(m: SessionModel) -> SessionModel {
    match m.mode {
        PlayMode::Playing => after_pause(m),
        PlayMode::Paused => after_resume(m),
        PlayMode::Stopped => m,
    }
}

/// What `stop` leaves behind: the queued track is discarded and the session
/// stops; the volume survives.
pub open spec fn after_stop(m: SessionModel) -> SessionModel {
    SessionModel { mode: PlayMode::Stopped, queued: None, volume: m.volume }
}

/// `level` clamped into the volume scale.
pub open spec fn clamped_volume(level: i32) -> int {
    if level < 0 {
        0
    } else if level > 100 {
        100
    } else {
        level as int
    }
}

/// The single owner of playback state: at most one queued track, a
/// tri-state mode, and the volume.
pub struct AudioSession {
    mode: PlayMode,
    queued: Option<String>,
    volume: u8,
}

impl View for AudioSession {
    type V = SessionModel;

    closed spec fn view(&self) -> SessionModel {
        SessionModel {
            mode: self.mode,
            queued: match self.queued {
                Some(p) => Some(p@),
                None => None,
            },
            volume: self.volume as int,
        }
    }
}

impl AudioSession {
    /// A fresh session: stopped, nothing queued, full volume.
    pub fn new() -> (s: AudioSession)
        ensures
            s@ == initial_model(),
            wf_model(s@),
    {
        AudioSession { mode: PlayMode::Stopped, queued: None, volume: 100 }
    }

    /// The current playback mode.
    pub fn current_mode(&self) -> (m: PlayMode)
        ensures
            m == self@.mode,
    {
        self.mode
    }

    /// The path of the queued track, if one is queued.
    pub fn queued_track(&self) -> (p: Option<&String>)
        ensures
            match p {
                Some(s) => self@.queued == Some(s@),
                None => self@.queued is None,
            },
    {
        match &self.queued {
            Some(s) => Some(s),
            None => None,
        }
    }

    /// The volume in hundredths of full scale.
    pub fn volume_percent(&self) -> (v: u8)
        ensures
            v as int == self@.volume,
    {
        self.volume
    }

    /// Record the outcome `decoded` of the decoding collaborator's attempt
    /// to open and decode `path`. On success the previous track is
    /// unconditionally discarded, the new one becomes the only queued track,
    /// and the session plays. On failure the session is left exactly as it
    /// was and the error is handed back.
    pub fn play(&mut self, path: String, decoded: Result<(), PlaybackError>) -> (r: Result<
        (),
        PlaybackError,
    >)
        requires
            wf_model(old(self)@),
        ensures
            wf_model(final(self)@),
            r is Ok <==> decoded is Ok,
            decoded matches Err(e) ==> r == Result::<(), PlaybackError>::Err(e),
            decoded is Ok ==> final(self)@ == after_play(old(self)@, path@),
            decoded is Err ==> final(self)@ == old(self)@,
    {
        match decoded {
            Ok(()) => {
                self.queued = Some(path);
                self.mode = PlayMode::Playing;
                Ok(())
            }
            Err(e) => Err(e),
        }
    }

    /// Pause a playing session; do nothing otherwise.
    pub fn pause(&mut self)
        requires
            wf_model(old(self)@),
        ensures
            wf_model(final(self)@),
            final(self)@ == after_pause(old(self)@),
    {
        match self.mode {
            PlayMode::Playing => {
                self.mode = PlayMode::Paused;
            }
            _ => {}
        }
    }

    /// Resume a paused session; do nothing otherwise.
    pub fn resume(&mut self)
        requires
            wf_model(old(self)@),
        ensures
            wf_model(final(self)@),
            final(self)@ == after_resume(old(self)@),
    {
        match self.mode {
            PlayMode::Paused => {
                self.mode = PlayMode::Playing;
            }
            _ => {}
        }
    }

    /// Pause when playing, resume when paused, do nothing when stopped.
    pub fn toggle_pause_resume(&mut self)
        requires
            wf_model(old(self)@),
        ensures
            wf_model(final(self)@),
            final(self)@ == after_toggle(old(self)@),
    {
        match self.mode {
            PlayMode::Playing => {
                self.mode = PlayMode::Paused;
            }
            PlayMode::Paused => {
                self.mode = PlayMode::Playing;
            }
            PlayMode::Stopped => {}
        }
    }

    /// Discard the queued track unconditionally and stop.
    pub fn stop(&mut self)
        requires
            wf_model(old(self)@),
        ensures
            wf_model(final(self)@),
            final(self)@ == after_stop(old(self)@),
    {
        self.queued = None;
        self.mode = PlayMode::Stopped;
    }

    /// Clamp `level` into the volume scale and apply it, independent of the
    /// playback mode.
    pub fn set_volume(&mut self, level: i32)
        requires
            wf_model(old(self)@),
        ensures
            wf_model(final(self)@),
            final(self)@.volume == clamped_volume(level),
            final(self)@.mode == old(self)@.mode,
            final(self)@.queued == old(self)@.queued,
    {
        if level < 0 {
            self.volume = 0;
        } else if level > 100 {
            self.volume = 100;
        } else {
            self.volume = level as u8;
        }
    }
}

/// A second `play` fully supersedes the first: two successful plays leave
/// exactly what one play of the second track leaves, so the queued track is
/// the second path, never the first.
pub proof fn lemma_play_supersedes(m: SessionModel, first: Seq<char>, second: Seq<char>)
    ensures
        after_play(after_play(m, first), second) == after_play(m, second),
        after_play(after_play(m, first), second).queued == Some(second),
{
}

/// `toggle_pause_resume` is its own inverse: applied twice it returns the
/// session to exactly its starting state; in particular a playing session
/// round-trips through `Paused` back to `Playing`.
pub proof fn lemma_toggle_involution(m: SessionModel)
    ensures
        after_toggle(after_toggle(m)) == m,
        m.mode is Playing ==> after_toggle(m).mode is Paused,
        m.mode is Playing ==> after_toggle(after_toggle(m)).mode is Playing,
{
}

/// `stop` is idempotent: a second `stop` changes nothing, and a stopped
/// session has no queued track.
pub proof fn lemma_stop_idempotent(m: SessionModel)
    ensures
        after_stop(after_stop(m)) == after_stop(m),
        after_stop(m).mode is Stopped,
        after_stop(m).queued is None,
{
}

} // verus!

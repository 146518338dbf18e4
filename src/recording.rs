//! Recording gameplay as the player's input frame by frame, and playing it
//! back.

use vstd::prelude::*;
use crate::sms::PlayerStatus;

verus! {

/// A saved recording: the initial state of the console and the player's
/// input for every frame since.
pub struct Recording<S> {
    pub master_system: S,
    pub player_statuses: Vec<PlayerStatus>,
}

/// Whether gameplay is being recorded, and what has been recorded so far.
pub struct RecordingStatus<S>(pub Option<Box<Recording<S>>>);

impl<S> RecordingStatus<S> {
    /// Not recording.
    pub fn new() -> (r: RecordingStatus<S>)
        ensures
            r.0 is None,
    {
        RecordingStatus(None)
    }

    /// Starts a recording from the console state `master_system`, replacing
    /// any recording in progress.
    pub fn begin_recording(&mut self, master_system: S)
        ensures
            final(self).0 matches Some(r) && r.master_system == master_system
                && r.player_statuses@.len() == 0,
    {
        self.0 = Some(Box::new(Recording { master_system, player_statuses: Vec::new() }));
    }

    /// Records the player's input for one more frame, if recording. Call it
    /// every frame, after reading the input and before emulating the frame.
    pub fn update(&mut self, player_status: PlayerStatus)
        ensures
            old(self).0 is None ==> final(self).0 is None,
            old(self).0 matches Some(r0) ==> final(self).0 matches Some(r1) && r1.master_system
                == r0.master_system && r1.player_statuses@ == r0.player_statuses@.push(player_status),
    {
        match &mut self.0 {
            Some(recording) => recording.player_statuses.push(player_status),
            None => {},
        }
    }

    pub fn end_recording(&mut self)
        ensures
            final(self).0 is None,
    {
        self.0 = None;
    }

    /// The recording in progress, if any.
    pub fn recording(&self) -> (r: Option<&Recording<S>>)
        ensures
            self.0 is None ==> r is None,
            self.0 matches Some(b) ==> r matches Some(x) && *x == *b,
    {
        match &self.0 {
            None => None,
            Some(r) => Some(&**r),
        }
    }
}

/// Recorded input being played back, one frame at a time.
pub struct PlaybackStatus(Vec<PlayerStatus>);

impl View for PlaybackStatus {
    type V = Seq<PlayerStatus>;

    /// The inputs still to play, next first.
    closed spec fn view(&self) -> Seq<PlayerStatus> {
        self.0@.reverse()
    }
}

impl PlaybackStatus {
    pub fn from_recorded(player_statuses: &[PlayerStatus]) -> (r: PlaybackStatus)
        ensures
            r@ == player_statuses@,
    {
        let mut v: Vec<PlayerStatus> = Vec::new();
        let mut i: usize = player_statuses.len();
        while i > 0
            invariant
                i <= player_statuses@.len(),
                v@.len() == player_statuses@.len() - i,
                forall|j: int| 0 <= j < v@.len() ==> v@[j] == player_statuses@[player_statuses@.len() - 1 - j],
            decreases i,
        {
            i = i - 1;
            v.push(player_statuses[i]);
        }
        let r = PlaybackStatus(v);
        assert(r@ =~= player_statuses@);
        r
    }

    /// The input for the next frame, if any is left.
    pub fn pop(&mut self) -> (r: Option<PlayerStatus>)
        ensures
            old(self)@.len() == 0 ==> r is None && final(self)@.len() == 0,
            old(self)@.len() > 0 ==> r == Some(old(self)@[0]) && final(self)@ == old(self)@.drop_first(),
    {
        let r = self.0.pop();
        proof {
            if old(self)@.len() > 0 {
                assert(self@ =~= old(self)@.drop_first());
            }
        }
        r
    }

    /// Drops what is left to play.
    pub fn end_playback(&mut self)
        ensures
            final(self)@.len() == 0,
    {
        self.0 = Vec::new();
    }
}

} // verus!

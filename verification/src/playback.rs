//! The playback state machine.
//!
//! The host owns the decoded audio stream; this module owns the decisions.
//! Each frame the host calls [`PlayerState::sync`], carries out the load it
//! may ask for, reports whether the stream is playing to
//! [`PlayerState::on_stream_report`], and hands each transport command to
//! [`PlayerState::apply`]. Every call returns what the host must do with the
//! stream. Times are whole milliseconds.

use crate::shuffle::{is_shuffle_candidate, shuffle_candidate_count, shuffle_next};
use vstd::prelude::*;

verus! {

/// How far a relative seek moves, in milliseconds.
pub const SEEK_STEP_MS: u64 = 5000;

/// A transport command, as the input router issues it.
#[derive(Clone, Copy, Debug, PartialEq, Eq, Structural)]
pub enum Command {
    SeekForward,
    SeekBackward,
    JumpToStart,
    JumpToEnd,
    NextTrack,
    PreviousTrack,
    TogglePause,
    ToggleShuffle,
}

/// Where the stream stands: the time played and the track's length, in milliseconds.
#[derive(Clone, Copy, Debug, PartialEq, Eq, Structural)]
pub struct Position {
    pub elapsed: u64,
    pub length: u64,
}

/// What the host must do with the stream it holds.
#[derive(Clone, Copy, Debug, PartialEq, Eq, Structural)]
pub enum StreamAction {
    Nothing,
    Play,
    Pause,
    Resume,
    Seek { position: u64 },
}

/// What the host must do so that the stream it holds is that of the current track.
#[derive(Clone, Copy, Debug, PartialEq, Eq, Structural)]
pub enum SyncAction {
    /// The stream at hand is the right one.
    Keep,
    /// Release the stream at hand if `release_previous` says there is one, then
    /// load the track at `index`.
    Load { index: usize, release_previous: bool },
}

/// A condition under which playback cannot go on. None is recovered from: the
/// host reports it and ends the program.
#[derive(Clone, Copy, Debug, PartialEq, Eq, Structural)]
pub enum PlayerError {
    /// The current index names no track of the list.
    NoSuchTrack,
    /// The list is empty, so there is no next or previous track.
    EmptyPlaylist,
    /// A step back was asked for at the first track.
    IndexUnderflow,
    /// Shuffle has no track to go to.
    NoShuffleCandidate,
    /// No stream is loaded although the frame's sync step is over.
    StreamMissing,
}

/// Where playback stands in a frame, once the host has said whether the
/// stream is playing.
#[derive(Clone, Copy, Debug, PartialEq, Eq, Structural)]
pub enum Phase {
    /// The host holds no stream.
    NoTrackLoaded,
    /// A stream is held and the player is paused.
    LoadedPaused,
    /// A stream is held and is playing.
    LoadedPlaying,
    /// A stream is held and has stopped though the player is not paused: the
    /// track waits to be started, or is over and the player is to move on.
    LoadedStopped,
}

/// The state of the player between frames.
#[derive(Clone, Copy, Debug, PartialEq, Eq, Structural)]
pub struct PlayerState {
    /// The track that is playing, or is to be played.
    pub current_index: usize,
    /// The track whose stream was last asked for.
    pub last_loaded_index: usize,
    pub is_paused: bool,
    pub is_shuffled: bool,
    /// Whether the current track's stream has been told to play.
    pub has_started_current_track: bool,
    /// Whether the host holds a stream.
    pub stream_loaded: bool,
}

/// The index after `current` in list order, the first following the last.
pub open spec fn sequential_next(current: int, track_count: int) -> int {
    (current + 1) % track_count
}

/// The index before `current` in list order.
pub open spec fn sequential_previous(current: int, track_count: int) -> int {
    (current - 1) % track_count
}

/// Where a seek forward by one step lands: never beyond the end of the track.
pub open spec fn seek_forward_target(pos: Position) -> int {
    vstd::math::min(pos.elapsed + SEEK_STEP_MS, pos.length as int)
}

/// Where a seek backward by one step lands: never before the start of the track.
pub open spec fn seek_backward_target(pos: Position) -> int {
    vstd::math::max(pos.elapsed - SEEK_STEP_MS, 0)
}

impl PlayerState {
    /// The state at startup: paused on the first track, in list order, with
    /// nothing loaded and a load of the first track pending.
    pub open spec fn initial() -> PlayerState {
        PlayerState {
            current_index: 0,
            last_loaded_index: 1,
            is_paused: true,
            is_shuffled: false,
            has_started_current_track: false,
            stream_loaded: false,
        }
    }

    /// The current index names a track, unless the list is empty.
    pub open spec fn wf(self, track_count: usize) -> bool {
        track_count > 0 ==> self.current_index < track_count
    }

    /// The host holds the stream of the current track.
    pub open spec fn is_synced(self) -> bool {
        self.stream_loaded && self.current_index == self.last_loaded_index
    }

    /// This state after a move to the track at `index`, which has yet to start.
    pub open spec fn moved_to(self, index: usize) -> PlayerState {
        PlayerState { current_index: index, has_started_current_track: false, ..self }
    }

    /// This state with the pause flag flipped.
    pub open spec fn pause_toggled(self) -> PlayerState {
        PlayerState { is_paused: !self.is_paused, ..self }
    }

    /// This state with the shuffle flag flipped.
    pub open spec fn shuffle_toggled(self) -> PlayerState {
        PlayerState { is_shuffled: !self.is_shuffled, ..self }
    }

    /// What the sync step does: the next state and the host's task, or the
    /// error that ends the program.
    pub open spec fn sync_outcome(self, track_count: usize) -> Result<
        (PlayerState, SyncAction),
        PlayerError,
    > {
        if self.last_loaded_index == self.current_index {
            Ok((self, SyncAction::Keep))
        } else if self.current_index >= track_count {
            Err(PlayerError::NoSuchTrack)
        } else {
            Ok(
                (
                    PlayerState {
                        last_loaded_index: self.current_index,
                        stream_loaded: false,
                        ..self
                    },
                    SyncAction::Load {
                        index: self.current_index,
                        release_previous: self.stream_loaded,
                    },
                ),
            )
        }
    }

    /// Why the player cannot advance on its own, if it cannot.
    pub open spec fn advance_error(self, track_count: usize) -> Option<PlayerError> {
        if self.is_shuffled {
            if shuffle_candidate_count(self.current_index as int, track_count as int) == 0 {
                Some(PlayerError::NoShuffleCandidate)
            } else {
                None
            }
        } else {
            if track_count == 0 {
                Some(PlayerError::EmptyPlaylist)
            } else {
                None
            }
        }
    }

    /// Whether the player, advancing on its own, may go to the track at `next`.
    ///
    /// In list order exactly one index is allowed. In shuffle mode every
    /// candidate is.
    pub open spec fn may_advance_to(self, track_count: usize, next: usize) -> bool {
        if self.is_shuffled {
            is_shuffle_candidate(self.current_index as int, track_count as int, next as int)
        } else {
            next == sequential_next(self.current_index as int, track_count as int)
        }
    }

    /// Where playback stands, given the host's word on the stream.
    pub open spec fn phase_of(self, stream_playing: bool) -> Phase {
        if !self.stream_loaded {
            Phase::NoTrackLoaded
        } else if self.is_paused {
            Phase::LoadedPaused
        } else if stream_playing {
            Phase::LoadedPlaying
        } else {
            Phase::LoadedStopped
        }
    }

    /// Whether the stream's end is to be answered by a move to the next track.
    pub open spec fn is_due_to_advance(self, stream_playing: bool) -> bool {
        self.phase_of(stream_playing) == Phase::LoadedStopped && self.has_started_current_track
    }

    /// Whether `next_state` and `result` are a permitted answer to the host's
    /// report that the stream is, or is not, playing.
    ///
    /// The answer is fully determined except for the index that a shuffled
    /// advance goes to.
    pub open spec fn report_allows(
        self,
        stream_playing: bool,
        track_count: usize,
        next_state: PlayerState,
        result: Result<StreamAction, PlayerError>,
    ) -> bool {
        match self.phase_of(stream_playing) {
            Phase::NoTrackLoaded => next_state == self && result == Err::<
                StreamAction,
                PlayerError,
            >(PlayerError::StreamMissing),
            Phase::LoadedPaused | Phase::LoadedPlaying => next_state == self && result == Ok::<
                StreamAction,
                PlayerError,
            >(StreamAction::Nothing),
            Phase::LoadedStopped => if !self.has_started_current_track {
                next_state == (PlayerState { has_started_current_track: true, ..self }) && result
                    == Ok::<StreamAction, PlayerError>(StreamAction::Play)
            } else {
                match self.advance_error(track_count) {
                    Some(e) => next_state == self && result == Err::<StreamAction, PlayerError>(e),
                    None => {
                        &&& self.may_advance_to(track_count, next_state.current_index)
                        &&& next_state == self.moved_to(next_state.current_index)
                        &&& result == Ok::<StreamAction, PlayerError>(StreamAction::Nothing)
                    },
                }
            },
        }
    }

    /// What a transport command does: the next state and the host's task, or
    /// the error that ends the program.
    pub open spec fn command_outcome(self, cmd: Command, track_count: usize, pos: Position) -> Result<
        (PlayerState, StreamAction),
        PlayerError,
    > {
        if !self.stream_loaded {
            Err(PlayerError::StreamMissing)
        } else {
            match cmd {
                Command::SeekForward => Ok(
                    (self, StreamAction::Seek { position: seek_forward_target(pos) as u64 }),
                ),
                Command::SeekBackward => Ok(
                    (self, StreamAction::Seek { position: seek_backward_target(pos) as u64 }),
                ),
                Command::JumpToStart => Ok((self, StreamAction::Seek { position: 0 })),
                Command::JumpToEnd => Ok((self, StreamAction::Seek { position: pos.length })),
                Command::NextTrack => if track_count == 0 {
                    Err(PlayerError::EmptyPlaylist)
                } else {
                    Ok(
                        (
                            self.moved_to(
                                sequential_next(
                                    self.current_index as int,
                                    track_count as int,
                                ) as usize,
                            ),
                            StreamAction::Nothing,
                        ),
                    )
                },
                Command::PreviousTrack => if self.current_index == 0 {
                    Err(PlayerError::IndexUnderflow)
                } else if track_count == 0 {
                    Err(PlayerError::EmptyPlaylist)
                } else {
                    Ok(
                        (
                            self.moved_to(
                                sequential_previous(
                                    self.current_index as int,
                                    track_count as int,
                                ) as usize,
                            ),
                            StreamAction::Nothing,
                        ),
                    )
                },
                Command::TogglePause => Ok(
                    (
                        self.pause_toggled(),
                        if self.is_paused {
                            StreamAction::Resume
                        } else {
                            StreamAction::Pause
                        },
                    ),
                ),
                Command::ToggleShuffle => Ok((self.shuffle_toggled(), StreamAction::Nothing)),
            }
        }
    }

    /// Creates the state at startup.
    pub fn new() -> (s: PlayerState)
        ensures
            s == PlayerState::initial(),
            forall|n: usize| s.wf(n),
    {
        PlayerState {
            current_index: 0,
            last_loaded_index: 1,
            is_paused: true,
            is_shuffled: false,
            has_started_current_track: false,
            stream_loaded: false,
        }
    }

    /// The frame's first step: decides whether the host's stream is still the
    /// right one.
    ///
    /// When the current index has changed since the last load, the host is
    /// told to release the stream it holds, if any, and to load the current
    /// track; until [`PlayerState::stream_acquired`] is called the state
    /// records that no stream is held. A current index that names no track
    /// is an error, and leaves the state as it was.
    pub fn sync(&mut self, track_count: usize) -> (r: Result<SyncAction, PlayerError>)
        ensures
            match r {
                Ok(action) => old(self).sync_outcome(track_count) == Ok::<
                    (PlayerState, SyncAction),
                    PlayerError,
                >((*final(self), action)),
                Err(e) => old(self).sync_outcome(track_count) == Err::<
                    (PlayerState, SyncAction),
                    PlayerError,
                >(e) && *final(self) == *old(self),
            },
            old(self).wf(track_count) ==> final(self).wf(track_count),
            r is Ok ==> final(self).current_index == final(self).last_loaded_index,
    {
        if self.last_loaded_index == self.current_index {
            Ok(SyncAction::Keep)
        } else if self.current_index >= track_count {
            Err(PlayerError::NoSuchTrack)
        } else {
            let release_previous = self.stream_loaded;
            self.last_loaded_index = self.current_index;
            self.stream_loaded = false;
            Ok(SyncAction::Load { index: self.current_index, release_previous })
        }
    }

    /// Records that the host now holds the stream it was told to load.
    pub fn stream_acquired(&mut self)
        ensures
            *final(self) == (PlayerState { stream_loaded: true, ..*old(self) }),
            old(self).current_index == old(self).last_loaded_index ==> final(self).is_synced(),
    {
        self.stream_loaded = true;
    }

    /// Moves to the track at `index`, which has yet to start.
    pub fn move_to(&mut self, index: usize)
        ensures
            *final(self) == old(self).moved_to(index),
    {
        self.current_index = index;
        self.has_started_current_track = false;
    }

    /// Chooses the track that follows the current one: the next in list order,
    /// or a random candidate in shuffle mode.
    pub fn next_index(&self, track_count: usize) -> (r: Result<usize, PlayerError>)
        ensures
            match r {
                Ok(next) => self.advance_error(track_count) is None && self.may_advance_to(
                    track_count,
                    next,
                ),
                Err(e) => self.advance_error(track_count) == Some(e),
            },
            self.wf(track_count) ==> (r matches Ok(next) ==> next < track_count),
    {
        if self.is_shuffled {
            match shuffle_next(self.current_index, track_count) {
                Some(next) => Ok(next),
                None => Err(PlayerError::NoShuffleCandidate),
            }
        } else if track_count == 0 {
            Err(PlayerError::EmptyPlaylist)
        } else {
            Ok(step_forward(self.current_index, track_count))
        }
    }

    /// Says where playback stands, given the host's word on the stream.
    pub fn phase(&self, stream_playing: bool) -> (p: Phase)
        ensures
            p == self.phase_of(stream_playing),
    {
        if !self.stream_loaded {
            Phase::NoTrackLoaded
        } else if self.is_paused {
            Phase::LoadedPaused
        } else if stream_playing {
            Phase::LoadedPlaying
        } else {
            Phase::LoadedStopped
        }
    }

    /// The frame's second step: answers the host's report on the stream.
    ///
    /// Without a stream the frame cannot go on. A paused player and a playing
    /// stream are left alone. A stream that has stopped while the player is
    /// not paused is started if the current track has not been started yet;
    /// otherwise the track is over, and the player moves on, leaving the load
    /// to the next sync.
    pub fn on_stream_report(&mut self, stream_playing: bool, track_count: usize) -> (r: Result<
        StreamAction,
        PlayerError,
    >)
        ensures
            old(self).report_allows(stream_playing, track_count, *final(self), r),
            old(self).wf(track_count) ==> final(self).wf(track_count),
    {
        match self.phase(stream_playing) {
            Phase::NoTrackLoaded => Err(PlayerError::StreamMissing),
            Phase::LoadedPaused | Phase::LoadedPlaying => Ok(StreamAction::Nothing),
            Phase::LoadedStopped => {
                if !self.has_started_current_track {
                    self.has_started_current_track = true;
                    Ok(StreamAction::Play)
                } else {
                    match self.next_index(track_count) {
                        Ok(next) => {
                            self.move_to(next);
                            Ok(StreamAction::Nothing)
                        },
                        Err(e) => Err(e),
                    }
                }
            },
        }
    }

    /// Carries out one transport command.
    ///
    /// Seeks are clamped to the track. Skips follow list order whatever the
    /// shuffle flag says. A step back at the first track is an error, not a
    /// wrap to the last one.
    pub fn apply(&mut self, cmd: Command, track_count: usize, pos: Position) -> (r: Result<
        StreamAction,
        PlayerError,
    >)
        ensures
            match r {
                Ok(action) => old(self).command_outcome(cmd, track_count, pos) == Ok::<
                    (PlayerState, StreamAction),
                    PlayerError,
                >((*final(self), action)),
                Err(e) => old(self).command_outcome(cmd, track_count, pos) == Err::<
                    (PlayerState, StreamAction),
                    PlayerError,
                >(e) && *final(self) == *old(self),
            },
            old(self).wf(track_count) ==> final(self).wf(track_count),
    {
        if !self.stream_loaded {
            return Err(PlayerError::StreamMissing);
        }
        match cmd {
            Command::SeekForward => Ok(StreamAction::Seek { position: seek_forward(pos) }),
            Command::SeekBackward => Ok(StreamAction::Seek { position: seek_backward(pos) }),
            Command::JumpToStart => Ok(StreamAction::Seek { position: 0 }),
            Command::JumpToEnd => Ok(StreamAction::Seek { position: pos.length }),
            Command::NextTrack => {
                if track_count == 0 {
                    Err(PlayerError::EmptyPlaylist)
                } else {
                    let next = step_forward(self.current_index, track_count);
                    self.move_to(next);
                    Ok(StreamAction::Nothing)
                }
            },
            Command::PreviousTrack => {
                if self.current_index == 0 {
                    Err(PlayerError::IndexUnderflow)
                } else if track_count == 0 {
                    Err(PlayerError::EmptyPlaylist)
                } else {
                    let previous = (self.current_index - 1) % track_count;
                    self.move_to(previous);
                    Ok(StreamAction::Nothing)
                }
            },
            Command::TogglePause => {
                if self.is_paused {
                    self.is_paused = false;
                    Ok(StreamAction::Resume)
                } else {
                    self.is_paused = true;
                    Ok(StreamAction::Pause)
                }
            },
            Command::ToggleShuffle => {
                self.is_shuffled = !self.is_shuffled;
                Ok(StreamAction::Nothing)
            },
        }
    }
}

/// In list order the track after the last one is the first one, and every
/// other track is followed by its neighbour.
pub proof fn lemma_sequential_next_wraps(current: int, track_count: int)
    requires
        0 <= current < track_count,
    ensures
        current == track_count - 1 ==> sequential_next(current, track_count) == 0,
        current < track_count - 1 ==> sequential_next(current, track_count) == current + 1,
        0 <= sequential_next(current, track_count) < track_count,
{
    if current == track_count - 1 {
        vstd::arithmetic::div_mod::lemma_mod_self_0(track_count);
    } else {
        vstd::arithmetic::div_mod::lemma_small_mod((current + 1) as nat, track_count as nat);
    }
}

/// A player in list order whose last track has ended goes to the first track,
/// whatever else its state holds and however often this happens.
pub proof fn lemma_advance_past_end_goes_to_start(
    s: PlayerState,
    track_count: usize,
    next_state: PlayerState,
    result: Result<StreamAction, PlayerError>,
)
    requires
        track_count > 0,
        s.current_index == track_count - 1,
        !s.is_shuffled,
        s.is_due_to_advance(false),
        s.report_allows(false, track_count, next_state, result),
    ensures
        next_state.current_index == 0,
        result == Ok::<StreamAction, PlayerError>(StreamAction::Nothing),
{
    lemma_sequential_next_wraps(s.current_index as int, track_count as int);
}

/// A player in shuffle mode whose track has ended never stays on that track
/// and never goes to the last track of the list.
pub proof fn lemma_shuffled_advance_avoids_current_and_last(
    s: PlayerState,
    track_count: usize,
    next_state: PlayerState,
    result: Result<StreamAction, PlayerError>,
)
    requires
        s.is_shuffled,
        s.is_due_to_advance(false),
        s.report_allows(false, track_count, next_state, result),
        result is Ok,
    ensures
        track_count > 1,
        next_state.current_index != s.current_index,
        next_state.current_index != track_count - 1,
        next_state.current_index < track_count - 1,
{
}

/// A seek forward that would pass the end of the track goes to the end
/// exactly; a seek backward that would pass the start goes to zero exactly.
/// Short of those limits a seek moves by one step.
pub proof fn lemma_seek_clamps(pos: Position)
    ensures
        pos.elapsed + SEEK_STEP_MS >= pos.length ==> seek_forward_target(pos) == pos.length,
        pos.elapsed + SEEK_STEP_MS < pos.length ==> seek_forward_target(pos) == pos.elapsed
            + SEEK_STEP_MS,
        pos.elapsed <= SEEK_STEP_MS ==> seek_backward_target(pos) == 0,
        pos.elapsed > SEEK_STEP_MS ==> seek_backward_target(pos) == pos.elapsed - SEEK_STEP_MS,
        0 <= seek_forward_target(pos) <= pos.length,
        0 <= seek_backward_target(pos) <= pos.elapsed,
{
}

/// Startup leads from no track loaded to the first track, loaded and paused:
/// the first sync of a list that is not empty asks for track 0 and has
/// nothing to release, and once the stream is there the player is paused on it.
pub proof fn lemma_startup_loads_first_track_paused(track_count: usize, stream_playing: bool)
    requires
        track_count > 0,
    ensures
        PlayerState::initial().phase_of(stream_playing) == Phase::NoTrackLoaded,
        PlayerState::initial().sync_outcome(track_count) matches Ok((s, action)) && action == (
        SyncAction::Load { index: 0, release_previous: false }) && (PlayerState {
            stream_loaded: true,
            ..s
        }).phase_of(stream_playing) == Phase::LoadedPaused && (PlayerState {
            stream_loaded: true,
            ..s
        }).is_synced() && s.current_index == 0,
{
}

/// A change of the current index makes the next sync release the stream that
/// is held, if one is, and load the new track; a sync that follows a
/// successful sync changes nothing. So at most one stream is held at any time.
pub proof fn lemma_sync_replaces_stream_once(s: PlayerState, track_count: usize)
    requires
        s.current_index != s.last_loaded_index,
        s.current_index < track_count,
    ensures
        s.sync_outcome(track_count) matches Ok((s1, action)) && action == (SyncAction::Load {
            index: s.current_index,
            release_previous: s.stream_loaded,
        }) && !s1.stream_loaded && s1.sync_outcome(track_count) == Ok::<
            (PlayerState, SyncAction),
            PlayerError,
        >((s1, SyncAction::Keep)),
{
}

/// Toggling pause twice restores the state. One of the two toggles pauses the
/// stream and the other resumes it; neither seeks, so the position played is
/// left alone.
pub proof fn lemma_pause_toggle_twice(s: PlayerState, track_count: usize, pos: Position)
    requires
        s.stream_loaded,
    ensures
        s.command_outcome(Command::TogglePause, track_count, pos) matches Ok((s1, a1))
            && s1.command_outcome(Command::TogglePause, track_count, pos) matches Ok((s2, a2))
            && s2 == s && (a1 == StreamAction::Pause && a2 == StreamAction::Resume || a1
            == StreamAction::Resume && a2 == StreamAction::Pause),
{
}

/// The index after `current` in list order, the first following the last.
pub fn step_forward(current: usize, track_count: usize) -> (next: usize)
    requires
        track_count > 0,
    ensures
        next == sequential_next(current as int, track_count as int),
        next < track_count,
{
    let here = current % track_count;
    proof {
        let n = track_count as int;
        let q = current as int / n;
        vstd::arithmetic::div_mod::lemma_fundamental_div_mod(current as int, n);
        if here + 1 == track_count {
            assert((q + 1) * n == q * n + n) by (nonlinear_arith);
            vstd::arithmetic::div_mod::lemma_fundamental_div_mod_converse(
                current as int + 1,
                n,
                q + 1,
                0,
            );
        } else {
            vstd::arithmetic::div_mod::lemma_fundamental_div_mod_converse(
                current as int + 1,
                n,
                q,
                here as int + 1,
            );
        }
    }
    if here + 1 == track_count {
        0
    } else {
        here + 1
    }
}

/// The position that a seek forward by one step goes to.
pub fn seek_forward(pos: Position) -> (target: u64)
    ensures
        target == seek_forward_target(pos),
{
    if pos.elapsed >= pos.length || pos.length - pos.elapsed < SEEK_STEP_MS {
        pos.length
    } else {
        pos.elapsed + SEEK_STEP_MS
    }
}

/// The position that a seek backward by one step goes to.
pub fn seek_backward(pos: Position) -> (target: u64)
    ensures
        target == seek_backward_target(pos),
{
    if pos.elapsed < SEEK_STEP_MS {
        0
    } else {
        pos.elapsed - SEEK_STEP_MS
    }
}

} // verus!

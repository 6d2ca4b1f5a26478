//! The input router: from the keys as they stand in one frame to the transport
//! commands of that frame.
//!
//! The router keeps nothing from one frame to the next. Every key but the
//! control key counts only in the frame in which it goes down; the control
//! key counts for as long as it is held. With the control key held the
//! horizontal arrows skip tracks and the vertical arrows jump to the ends of
//! the track; without it the horizontal arrows seek and the vertical arrows
//! do nothing.

use crate::playback::Command;
use vstd::prelude::*;

verus! {

/// The keys that the player listens to, as polled in one frame.
#[derive(Clone, Copy, Debug, PartialEq, Eq, Structural)]
pub struct KeyState {
    /// The right arrow went down in this frame.
    pub right: bool,
    /// The left arrow went down in this frame.
    pub left: bool,
    /// The up arrow went down in this frame.
    pub up: bool,
    /// The down arrow went down in this frame.
    pub down: bool,
    /// The space bar went down in this frame.
    pub space: bool,
    /// The `S` key went down in this frame.
    pub shuffle: bool,
    /// The left control key is held.
    pub control: bool,
}

/// The command `c` alone if `pressed` holds, and no command otherwise.
pub open spec fn when(pressed: bool, c: Command) -> Seq<Command> {
    if pressed {
        seq![c]
    } else {
        Seq::empty()
    }
}

/// The commands of one frame, in the order in which they take effect: seeks
/// first, then jumps, then skips, then the two toggles.
pub open spec fn commands_for(keys: KeyState) -> Seq<Command> {
    when(keys.right && !keys.control, Command::SeekForward)
        + when(keys.left && !keys.control, Command::SeekBackward)
        + when(keys.up && keys.control, Command::JumpToEnd)
        + when(keys.down && keys.control, Command::JumpToStart)
        + when(keys.right && keys.control, Command::NextTrack)
        + when(keys.left && keys.control, Command::PreviousTrack)
        + when(keys.space, Command::TogglePause)
        + when(keys.shuffle, Command::ToggleShuffle)
}

/// Adds `c` to `commands` if `pressed` holds.
fn push_when(commands: &mut Vec<Command>, pressed: bool, c: Command)
    ensures
        final(commands)@ == old(commands)@ + when(pressed, c),
{
    if pressed {
        commands.push(c);
    }
    assert(commands@ =~= old(commands)@ + when(pressed, c));
}

/// Routes the keys of one frame to transport commands.
pub fn route(keys: KeyState) -> (commands: Vec<Command>)
    ensures
        commands@ == commands_for(keys),
{
    let mut commands: Vec<Command> = Vec::new();
    push_when(&mut commands, keys.right && !keys.control, Command::SeekForward);
    push_when(&mut commands, keys.left && !keys.control, Command::SeekBackward);
    push_when(&mut commands, keys.up && keys.control, Command::JumpToEnd);
    push_when(&mut commands, keys.down && keys.control, Command::JumpToStart);
    push_when(&mut commands, keys.right && keys.control, Command::NextTrack);
    push_when(&mut commands, keys.left && keys.control, Command::PreviousTrack);
    push_when(&mut commands, keys.space, Command::TogglePause);
    push_when(&mut commands, keys.shuffle, Command::ToggleShuffle);
    commands
}

} // verus!

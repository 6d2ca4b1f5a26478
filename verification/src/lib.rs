//! The logic of a small desktop music player: the playlist it builds from a
//! directory listing, the playback state machine, the routing of key presses
//! to transport commands, the scrolling of the track list, and the parsing of
//! theme colours.
//!
//! Nothing here touches a window, a file or an audio device. The host program
//! polls those, hands plain values to the functions of this crate and carries
//! out the actions they return.

pub mod color;
pub mod input;
pub mod layout;
pub mod playback;
pub mod playlist;
pub mod scroll;
pub mod shuffle;
pub mod text;

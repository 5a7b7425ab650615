//! The media panel's playback button.

use vstd::prelude::*;

verus! {

/// Whether a player plays, as MPRIS reports it.
#[derive(Clone, Copy, Debug, PartialEq, Eq, Structural)]
pub enum PlaybackState {
    Playing,
    Paused,
    Stopped,
}

/// The icon of the play/pause button: what pressing it does, pause while
/// playing and play otherwise.
pub open spec fn playback_icon(state: PlaybackState) -> Seq<char> {
    if state == PlaybackState::Playing {
        "media-playback-pause-symbolic"@
    } else {
        "media-playback-start-symbolic"@
    }
}

/// The icon of the play/pause button, as `playback_icon` says.
pub fn playback_icon_name(state: PlaybackState) -> (name: &'static str)
    ensures
        name@ == playback_icon(state),
{
    if state == PlaybackState::Playing {
        "media-playback-pause-symbolic"
    } else {
        "media-playback-start-symbolic"
    }
}

} // verus!

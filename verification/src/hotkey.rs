//! Push-to-talk: what the shortcut's key events mean.
use vstd::prelude::*;

use crate::audio::capture::AudioCmd;

verus! {

/// A global shortcut's key event.
#[derive(PartialEq, Eq, Structural, Clone, Copy, Debug)]
pub enum KeyState {
    Pressed,
    Released,
}

/// Hold to record, release to process.
pub fn command_for(state: KeyState) -> (r: AudioCmd)
    ensures
        state == KeyState::Pressed ==> r == AudioCmd::Start,
        state == KeyState::Released ==> r == AudioCmd::StopAndProcess,
{
    match state {
        KeyState::Pressed => AudioCmd::Start,
        KeyState::Released => AudioCmd::StopAndProcess,
    }
}

} // verus!

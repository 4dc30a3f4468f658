use vstd::prelude::*;

verus! {

/// A token naming one running playback instance.
///
/// The playback itself (its clock, decoders and renderer) lives outside the
/// library; the session only needs to tell instances apart and hand them back
/// to be stopped.
#[derive(Clone, Copy, Debug, PartialEq, Eq, Structural)]
pub struct PlaybackHandle {
    pub id: u64,
}

/// The mutable part of an editing session.
#[derive(Clone, Copy, Debug, PartialEq, Eq, Structural)]
pub struct EditorState {
    /// Current playhead frame number.
    pub playhead_position: u32,
    /// The playback instance that currently owns the playhead, if any.
    pub playback_task: Option<PlaybackHandle>,
}

/// An event emitted by a running playback instance.
#[derive(Clone, Copy, Debug, PartialEq, Eq, Structural)]
pub enum PlaybackEvent {
    Start,
    Frame(u32),
    Stop,
}

impl EditorState {
    /// The state of a freshly opened session: playhead at frame zero and
    /// nothing playing.
    pub open spec fn initial() -> EditorState {
        EditorState { playhead_position: 0, playback_task: None }
    }

    pub fn new() -> (r: EditorState)
        ensures
            r == EditorState::initial(),
    {
        EditorState { playhead_position: 0, playback_task: None }
    }

    /// Makes `handle` the active playback and hands back the one it
    /// displaced, which the caller must stop.
    pub fn install_playback(&mut self, handle: PlaybackHandle) -> (prev: Option<PlaybackHandle>)
        ensures
            prev == old(self).playback_task,
            final(self).playback_task == Some(handle),
            final(self).playhead_position == old(self).playhead_position,
    {
        let prev = self.playback_task;
        self.playback_task = Some(handle);
        prev
    }

    /// Clears the active playback slot and hands back what was in it.
    pub fn take_playback(&mut self) -> (prev: Option<PlaybackHandle>)
        ensures
            prev == old(self).playback_task,
            final(self).playback_task is None,
            final(self).playhead_position == old(self).playhead_position,
    {
        let prev = self.playback_task;
        self.playback_task = None;
        prev
    }

    /// Moves the playhead to `frame_number`.
    pub fn set_playhead(&mut self, frame_number: u32)
        ensures
            final(self).playhead_position == frame_number,
            final(self).playback_task == old(self).playback_task,
    {
        self.playhead_position = frame_number;
    }
}

} // verus!

use vstd::prelude::*;
use crate::state::{EditorState, PlaybackEvent, PlaybackHandle};

verus! {

/// Why a session could not be opened.
#[derive(Clone, Copy, Debug, PartialEq, Eq, Structural)]
pub enum SessionError {
    /// No project bundle exists at the resolved path.
    ProjectNotFound,
}

/// The outcome of an operation that needs exclusive access to the session
/// state.
#[derive(Debug, PartialEq, Eq, Structural)]
pub enum Locked<T> {
    /// A playback start holds the state; try again once it has finished.
    Busy,
    /// The operation ran; here is its result.
    Done(T),
}

/// What the listener of a playback instance does after one event.
#[derive(Clone, Copy, Debug, PartialEq, Eq, Structural)]
pub enum ListenerAction {
    /// The state is held by a playback start: deliver the same event again
    /// once it is free.
    Retry,
    /// Nothing to do; wait for the next event.
    Continue,
    /// The state changed: notify observers with this snapshot, then wait for
    /// the next event.
    Notify(EditorState),
    /// The playback finished; the listener ends.
    Exit,
}

/// The work of one on-demand render: which frame to decode, and whether a
/// camera frame is wanted too.
#[derive(Clone, Copy, Debug, PartialEq, Eq, Structural)]
pub struct RenderRequest {
    pub frame_number: u32,
    pub with_camera: bool,
}

/// One open project: its identity, the port its frame stream listens on,
/// and the decisions that serialize playback and rendering against its
/// state.
///
/// The decoders, renderer and playback clock are driven by the caller;
/// this type decides what they are asked to do.
pub struct EditorInstance {
    pub path: String,
    pub id: String,
    pub ws_port: u16,
    pub has_camera: bool,
    pub state: EditorState,
    /// A playback start holds the state between reading the playhead and
    /// installing its handle.
    pub state_locked: bool,
    /// An on-demand render is in progress.
    pub rendering: bool,
}

/// The part of a session that its operations change.
#[derive(Clone, Copy, Debug, PartialEq, Eq, Structural)]
pub struct SessionModel {
    pub state: EditorState,
    pub state_locked: bool,
    pub rendering: bool,
}

impl View for EditorInstance {
    type V = SessionModel;

    open spec fn view(&self) -> SessionModel {
        SessionModel { state: self.state, state_locked: self.state_locked, rendering: self.rendering }
    }
}

/// A start request: dropped while another start holds the state, else it
/// takes the state and starts from the current playhead.
pub open spec fn start_step(m: SessionModel) -> (SessionModel, Option<u32>) {
    if m.state_locked {
        (m, None)
    } else {
        (SessionModel { state_locked: true, ..m }, Some(m.state.playhead_position))
    }
}

/// Installing the handle of the playback that a start created: it becomes
/// the active one, the state is released, and the displaced handle is
/// handed back to be stopped.
pub open spec fn install_step(m: SessionModel, handle: PlaybackHandle) -> (SessionModel, Option<PlaybackHandle>) {
    (
        SessionModel {
            state: EditorState { playback_task: Some(handle), ..m.state },
            state_locked: false,
            ..m
        },
        m.state.playback_task,
    )
}

/// Disposal: clears the active playback slot and hands back what was in it
/// to be stopped.
pub open spec fn dispose_step(m: SessionModel) -> (SessionModel, Locked<Option<PlaybackHandle>>) {
    if m.state_locked {
        (m, Locked::Busy)
    } else {
        (
            SessionModel { state: EditorState { playback_task: None, ..m.state }, ..m },
            Locked::Done(m.state.playback_task),
        )
    }
}

/// How a playback listener handles one event.
pub open spec fn event_step(m: SessionModel, event: PlaybackEvent) -> (SessionModel, ListenerAction) {
    match event {
        PlaybackEvent::Start => (m, ListenerAction::Continue),
        PlaybackEvent::Stop => (m, ListenerAction::Exit),
        PlaybackEvent::Frame(n) => {
            if m.state_locked {
                (m, ListenerAction::Retry)
            } else {
                let st = EditorState { playhead_position: n, ..m.state };
                (SessionModel { state: st, ..m }, ListenerAction::Notify(st))
            }
        },
    }
}

/// A render request: dropped while another render is in progress, else it
/// marks one in progress and is accepted.
pub open spec fn render_request_step(m: SessionModel) -> (SessionModel, bool) {
    if m.rendering {
        (m, false)
    } else {
        (SessionModel { rendering: true, ..m }, true)
    }
}

/// What a render does once the screen decoder has answered: compose only
/// when it produced a frame. A miss ends the render and leaves it marked in
/// progress, so later requests are dropped.
pub open spec fn screen_frame_step(m: SessionModel, found: bool) -> (SessionModel, bool) {
    (m, found)
}

/// The end of a render that composed its frame.
pub open spec fn render_done_step(m: SessionModel) -> SessionModel {
    SessionModel { rendering: false, ..m }
}

impl EditorInstance {
    /// Whether `b` is `a` with only its state possibly replaced.
    pub open spec fn same_session(a: &EditorInstance, b: &EditorInstance) -> bool {
        &&& a.path@ == b.path@
        &&& a.id@ == b.id@
        &&& a.ws_port == b.ws_port
        &&& a.has_camera == b.has_camera
    }

    /// Whether `b` is `a` with nothing changed.
    pub open spec fn unchanged(a: &EditorInstance, b: &EditorInstance) -> bool {
        &&& EditorInstance::same_session(a, b)
        &&& a.state == b.state
        &&& a.state_locked == b.state_locked
        &&& a.rendering == b.rendering
    }

    /// Opens a session over the project at `path`, which exists iff
    /// `project_exists`. A fresh session has its playhead at frame zero,
    /// nothing playing, no start and no render in progress.
    pub fn new(path: String, id: String, project_exists: bool, ws_port: u16, has_camera: bool)
        -> (r: Result<EditorInstance, SessionError>)
        ensures
            !project_exists <==> r == Err::<EditorInstance, SessionError>(SessionError::ProjectNotFound),
            r matches Ok(s) ==> {
                &&& s.path@ == path@
                &&& s.id@ == id@
                &&& s.ws_port == ws_port
                &&& s.has_camera == has_camera
                &&& s.state == EditorState::initial()
                &&& !s.state_locked
                &&& !s.rendering
            },
    {
        if !project_exists {
            return Err(SessionError::ProjectNotFound);
        }
        Ok(EditorInstance {
            path,
            id,
            ws_port,
            has_camera,
            state: EditorState::new(),
            state_locked: false,
            rendering: false,
        })
    }

    /// Releases the session's playback: with the state free, clears the
    /// active slot and hands back the handle that must be stopped.
    pub fn dispose(&mut self) -> (r: Locked<Option<PlaybackHandle>>)
        ensures
            (final(self)@, r) == dispose_step(old(self)@),
            EditorInstance::same_session(old(self), final(self)),
    {
        if self.state_locked {
            return Locked::Busy;
        }
        let prev = self.state.take_playback();
        Locked::Done(prev)
    }

    /// Applies `modify` to the state, with the state free, and returns the
    /// new state, with which observers are to be notified.
    pub fn modify_and_emit_state<F: Fn(EditorState) -> EditorState>(&mut self, modify: F) -> (r: Locked<EditorState>)
        requires
            !old(self).state_locked ==> modify.requires((old(self).state,)),
        ensures
            EditorInstance::same_session(old(self), final(self)),
            old(self).state_locked ==> r == Locked::<EditorState>::Busy && final(self)@ == old(self)@,
            !old(self).state_locked ==> {
                &&& modify.ensures((old(self).state,), final(self).state)
                &&& r == Locked::Done(final(self).state)
                &&& final(self).state_locked == old(self).state_locked
                &&& final(self).rendering == old(self).rendering
            },
    {
        if self.state_locked {
            return Locked::Busy;
        }
        let next = modify(self.state);
        self.state = next;
        Locked::Done(next)
    }

    /// Asks to start playback. `None`: the request is dropped, since another
    /// start holds the state. `Some(frame)`: the state is now held, and the
    /// playback is to start at `frame`; its handle is then given to
    /// `install_playback`.
    pub fn start_playback(&mut self) -> (r: Option<u32>)
        ensures
            (final(self)@, r) == start_step(old(self)@),
            EditorInstance::same_session(old(self), final(self)),
    {
        if self.state_locked {
            return None;
        }
        self.state_locked = true;
        Some(self.state.playhead_position)
    }

    /// Makes `handle` the active playback and releases the state. The
    /// handle returned, if any, is the one displaced, and is to be stopped
    /// only now that its successor is installed.
    pub fn install_playback(&mut self, handle: PlaybackHandle) -> (prev: Option<PlaybackHandle>)
        requires
            old(self).state_locked,
        ensures
            (final(self)@, prev) == install_step(old(self)@, handle),
            EditorInstance::same_session(old(self), final(self)),
    {
        let prev = self.state.install_playback(handle);
        self.state_locked = false;
        prev
    }

    /// Handles one event of an active playback: a frame moves the playhead
    /// and asks for one notification; a stop ends the listener.
    pub fn on_playback_event(&mut self, event: PlaybackEvent) -> (r: ListenerAction)
        ensures
            (final(self)@, r) == event_step(old(self)@, event),
            EditorInstance::same_session(old(self), final(self)),
    {
        match event {
            PlaybackEvent::Start => ListenerAction::Continue,
            PlaybackEvent::Stop => ListenerAction::Exit,
            PlaybackEvent::Frame(n) => {
                let move_playhead = (|st: EditorState| -> (r: EditorState)
                    ensures
                        r.playhead_position == n,
                        r.playback_task == st.playback_task,
                    {
                        let mut next = st;
                        next.set_playhead(n);
                        next
                    });
                let moved = self.modify_and_emit_state(move_playhead);
                match moved {
                    Locked::Busy => ListenerAction::Retry,
                    Locked::Done(st) => ListenerAction::Notify(st),
                }
            },
        }
    }

    /// Asks for an on-demand render of `frame_number`. `None`: dropped,
    /// since a render is in progress. `Some(request)`: the render is now in
    /// progress, and the request says which frames to decode.
    pub fn try_render_frame(&mut self, frame_number: u32) -> (r: Option<RenderRequest>)
        ensures
            (final(self)@, r is Some) == render_request_step(old(self)@),
            EditorInstance::same_session(old(self), final(self)),
            r matches Some(req) ==> req == (RenderRequest { frame_number, with_camera: old(self).has_camera }),
    {
        if self.rendering {
            return None;
        }
        self.rendering = true;
        Some(RenderRequest { frame_number, with_camera: self.has_camera })
    }

    /// Decides, once the screen decoder has answered, whether the render
    /// goes on to composition.
    pub fn on_screen_frame(&mut self, found: bool) -> (compose: bool)
        ensures
            (final(self)@, compose) == screen_frame_step(old(self)@, found),
            EditorInstance::same_session(old(self), final(self)),
    {
        found
    }

    /// Ends a render whose frame was composed.
    pub fn finish_render(&mut self)
        ensures
            final(self)@ == render_done_step(old(self)@),
            EditorInstance::same_session(old(self), final(self)),
    {
        self.rendering = false;
    }
}

/// A start that finds the state held by another start changes nothing;
/// of two starts in a row only the first acquires the state, and the
/// handle it installs is the one active afterwards.
pub proof fn lemma_one_start_per_acquisition(m: SessionModel, handle: PlaybackHandle)
    ensures
        m.state_locked ==> start_step(m) == (m, Option::<u32>::None),
        !m.state_locked ==> {
            let (m1, first) = start_step(m);
            let (m2, second) = start_step(m1);
            &&& first == Some(m.state.playhead_position)
            &&& second is None
            &&& m2 == m1
            &&& install_step(m2, handle).0.state.playback_task == Some(handle)
        },
{
}

/// Starting a playback while another is active: the displaced handle is
/// handed back to be stopped only by the install that made the new one
/// active, and at no step is the playback slot empty.
pub proof fn lemma_supersede_without_gap(m: SessionModel, first: PlaybackHandle, second: PlaybackHandle)
    requires
        !m.state_locked,
        m.state.playback_task == Some(first),
    ensures
        ({
            let (m1, start) = start_step(m);
            let (m2, displaced) = install_step(m1, second);
            &&& start is Some
            &&& m1.state.playback_task == Some(first)
            &&& m2.state.playback_task == Some(second)
            &&& displaced == Some(first)
        }),
{
}

/// A frame event handled while the state is free moves the playhead to
/// that frame and asks for exactly one notification, which carries it.
pub proof fn lemma_frame_event_notifies_once(m: SessionModel, n: u32)
    requires
        !m.state_locked,
    ensures
        ({
            let (m1, action) = event_step(m, PlaybackEvent::Frame(n));
            &&& m1.state.playhead_position == n
            &&& m1.state.playback_task == m.state.playback_task
            &&& action == ListenerAction::Notify(m1.state)
        }),
{
}

/// Of two overlapping render requests only the first is accepted; the
/// second leaves the session as the first left it.
pub proof fn lemma_overlapping_renders(m: SessionModel)
    requires
        !m.rendering,
    ensures
        ({
            let (m1, first) = render_request_step(m);
            let (m2, second) = render_request_step(m1);
            &&& first
            &&& !second
            &&& m2 == m1
        }),
{
}

/// A render whose screen frame the decoder cannot produce composes nothing
/// and stays marked in progress, so every later request is dropped.
pub proof fn lemma_screen_miss_keeps_render_marked(m: SessionModel)
    requires
        m.rendering,
    ensures
        screen_frame_step(m, false) == (m, false),
        render_request_step(screen_frame_step(m, false).0) == (m, false),
{
}

/// Disposing twice is disposing once: the second call finds the slot empty
/// and hands back nothing more to stop.
pub proof fn lemma_dispose_idempotent(m: SessionModel)
    requires
        !m.state_locked,
    ensures
        ({
            let (m1, first) = dispose_step(m);
            let (m2, second) = dispose_step(m1);
            &&& first == Locked::Done(m.state.playback_task)
            &&& second == Locked::Done(Option::<PlaybackHandle>::None)
            &&& m2 == m1
            &&& m1.state.playback_task is None
        }),
{
}

} // verus!

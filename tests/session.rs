use cap_editor::{
    EditorInstance, EditorState, ListenerAction, Locked, PlaybackEvent, PlaybackHandle,
    RenderRequest, SessionError,
};

fn open(has_camera: bool) -> EditorInstance {
    EditorInstance::new("/rec/abc.cap".to_string(), "abc".to_string(), true, 4455, has_camera)
        .unwrap()
}

#[test]
fn missing_project_is_not_opened() {
    let r = EditorInstance::new("/rec/x.cap".to_string(), "x".to_string(), false, 1, false);
    assert!(matches!(r, Err(SessionError::ProjectNotFound)));
}

#[test]
fn fresh_session_is_idle_at_frame_zero() {
    let s = open(false);
    assert_eq!(s.state.playhead_position, 0);
    assert_eq!(s.state.playback_task, None);
    assert!(!s.state_locked);
    assert!(!s.rendering);
    assert_eq!(s.path, "/rec/abc.cap");
    assert_eq!(s.id, "abc");
    assert_eq!(s.ws_port, 4455);
}

#[test]
fn contended_start_is_dropped() {
    let mut s = open(false);
    s.state.playhead_position = 17;
    assert_eq!(s.start_playback(), Some(17));
    assert!(s.state_locked);
    let before = s.state;
    assert_eq!(s.start_playback(), None);
    assert_eq!(s.state, before);
    assert!(s.state_locked);
    assert_eq!(s.install_playback(PlaybackHandle { id: 1 }), None);
    assert_eq!(s.state.playback_task, Some(PlaybackHandle { id: 1 }));
    assert!(!s.state_locked);
}

#[test]
fn second_start_stops_first_after_install() {
    let mut s = open(false);
    assert_eq!(s.start_playback(), Some(0));
    assert_eq!(s.install_playback(PlaybackHandle { id: 1 }), None);
    assert_eq!(s.start_playback(), Some(0));
    assert_eq!(s.state.playback_task, Some(PlaybackHandle { id: 1 }));
    let prev = s.install_playback(PlaybackHandle { id: 2 });
    assert_eq!(s.state.playback_task, Some(PlaybackHandle { id: 2 }));
    assert_eq!(prev, Some(PlaybackHandle { id: 1 }));
}

#[test]
fn frame_event_moves_playhead_and_notifies_once() {
    let mut s = open(false);
    s.start_playback();
    s.install_playback(PlaybackHandle { id: 9 });
    let action = s.on_playback_event(PlaybackEvent::Frame(42));
    assert_eq!(s.state.playhead_position, 42);
    assert_eq!(
        action,
        ListenerAction::Notify(EditorState {
            playhead_position: 42,
            playback_task: Some(PlaybackHandle { id: 9 }),
        })
    );
    assert_eq!(s.on_playback_event(PlaybackEvent::Start), ListenerAction::Continue);
    assert_eq!(s.on_playback_event(PlaybackEvent::Stop), ListenerAction::Exit);
    assert_eq!(s.state.playhead_position, 42);
}

#[test]
fn frame_event_waits_for_a_held_state() {
    let mut s = open(false);
    s.start_playback();
    assert_eq!(s.on_playback_event(PlaybackEvent::Frame(5)), ListenerAction::Retry);
    assert_eq!(s.state.playhead_position, 0);
}

#[test]
fn modify_applies_and_returns_new_state() {
    let mut s = open(false);
    let r = s.modify_and_emit_state(|mut st: EditorState| {
        st.playhead_position = 300;
        st
    });
    assert_eq!(r, Locked::Done(EditorState { playhead_position: 300, playback_task: None }));
    assert_eq!(s.state.playhead_position, 300);
    s.start_playback();
    let r = s.modify_and_emit_state(|mut st: EditorState| {
        st.playhead_position = 1;
        st
    });
    assert_eq!(r, Locked::Busy);
    assert_eq!(s.state.playhead_position, 300);
}

#[test]
fn overlapping_render_requests_collapse() {
    let mut s = open(true);
    assert_eq!(s.try_render_frame(10), Some(RenderRequest { frame_number: 10, with_camera: true }));
    assert_eq!(s.try_render_frame(11), None);
    assert!(s.rendering);
    assert!(s.on_screen_frame(true));
    s.finish_render();
    assert!(!s.rendering);
    assert_eq!(s.try_render_frame(12), Some(RenderRequest { frame_number: 12, with_camera: true }));
}

#[test]
fn render_without_camera_asks_for_screen_only() {
    let mut s = open(false);
    assert_eq!(s.try_render_frame(3), Some(RenderRequest { frame_number: 3, with_camera: false }));
}

#[test]
fn screen_miss_leaves_render_marked() {
    let mut s = open(false);
    assert!(s.try_render_frame(99).is_some());
    assert!(!s.on_screen_frame(false));
    assert!(s.rendering);
    assert_eq!(s.try_render_frame(1), None);
}

#[test]
fn dispose_twice_stops_once() {
    let mut s = open(false);
    s.start_playback();
    s.install_playback(PlaybackHandle { id: 4 });
    assert_eq!(s.dispose(), Locked::Done(Some(PlaybackHandle { id: 4 })));
    assert_eq!(s.dispose(), Locked::Done(None));
    assert_eq!(s.state.playback_task, None);
}

#[test]
fn dispose_of_never_played_session_is_a_no_op() {
    let mut s = open(false);
    assert_eq!(s.dispose(), Locked::Done(None));
    assert_eq!(s.state, EditorState::new());
}

#[test]
fn dispose_waits_for_a_held_state() {
    let mut s = open(false);
    s.start_playback();
    assert_eq!(s.dispose(), Locked::Busy);
}

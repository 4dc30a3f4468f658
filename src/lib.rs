pub mod instance;
pub mod project;
pub mod relay;
pub mod state;

pub use instance::{EditorInstance, ListenerAction, Locked, RenderRequest, SessionError};
pub use state::{EditorState, PlaybackEvent, PlaybackHandle};

//! A shared board of movable labelled tokens: the document that every session
//! edits, the count of connected sessions, the reactions to session events,
//! and the state machines of the heartbeat job and of the shutdown supervisor.

pub mod document;
pub mod heartbeat;
pub mod lines;
pub mod presence;
mod random;
pub mod session;
pub mod span;
pub mod state;
pub mod supervisor;
pub mod url_path;

pub use document::{build_words, DocumentStore, MoveError, Token, CANVAS_SIZE};
pub use heartbeat::{Heartbeat, HeartbeatAction, HeartbeatEvent, Probe, HEARTBEAT_INTERVAL_MS};
pub use lines::split_lines;
pub use presence::{PresenceCounter, PresenceEvent};
pub use session::{on_connect, on_disconnect, on_move, Greeting, MoveRequest};
pub use span::{MakeSpanWithUuid, TraceLevel};
pub use state::{build_configs, ApplicationState, Config};
pub use supervisor::{Phase, Supervisor, SupervisorAction, SupervisorEvent, DRAIN_TIMEOUT_MS};
pub use url_path::add_segments;
